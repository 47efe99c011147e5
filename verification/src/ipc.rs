//! The IPC transport to confined keystore and store services: how large a request and a
//! reply buffer are, and what a reply means once the channel has delivered it.
//!
//! A keystore request is a sequence of length-prefixed fields (a 4-byte length before the
//! nonce-carrying part, the associated data and, for `decrypt`, the tag); an `encrypt` reply
//! is a length prefix, the tag and the ciphertext. A store's `read` and `write` carry raw
//! file bytes. Every reply begins with a status ([`ReplyStatus`]): a refusal is relayed as
//! the remote service's own.

use vstd::prelude::*;

use crate::services::{ChannelError, KeystoreError, ReplyStatus, StoreError, NONCE_LEN, TAG_LEN};

verus! {

/// Bytes of one length prefix in a keystore request or reply.
pub const LEN_PREFIX: usize = 4;

/// Size of an `encrypt` request for `aad_len` bytes of associated data and `plaintext_len`
/// bytes of plaintext.
pub open spec fn encrypt_request_size(aad_len: nat, plaintext_len: nat) -> int {
    LEN_PREFIX + NONCE_LEN + LEN_PREFIX + aad_len + plaintext_len
}

/// Size of a `decrypt` request.
pub open spec fn decrypt_request_size(aad_len: nat, ciphertext_len: nat) -> int {
    LEN_PREFIX + NONCE_LEN + LEN_PREFIX + aad_len + LEN_PREFIX + TAG_LEN + ciphertext_len
}

/// Size of an `encrypt` reply for `plaintext_len` bytes of plaintext.
pub open spec fn encrypt_reply_size(plaintext_len: nat) -> int {
    LEN_PREFIX + TAG_LEN + plaintext_len
}

/// The request buffer an `encrypt` call needs: exactly one request's size.
pub fn encrypt_request_len(aad_len: usize, plaintext_len: usize) -> (len: usize)
    requires
        encrypt_request_size(aad_len as nat, plaintext_len as nat) <= usize::MAX,
    ensures
        len == encrypt_request_size(aad_len as nat, plaintext_len as nat),
{
    LEN_PREFIX + NONCE_LEN + LEN_PREFIX + aad_len + plaintext_len
}

/// The request buffer a `decrypt` call needs: exactly one request's size.
pub fn decrypt_request_len(aad_len: usize, ciphertext_len: usize) -> (len: usize)
    requires
        decrypt_request_size(aad_len as nat, ciphertext_len as nat) <= usize::MAX,
    ensures
        len == decrypt_request_size(aad_len as nat, ciphertext_len as nat),
{
    LEN_PREFIX + NONCE_LEN + LEN_PREFIX + aad_len + LEN_PREFIX + TAG_LEN + ciphertext_len
}

/// The reply buffer an `encrypt` call needs: exactly one reply's size.
pub fn encrypt_reply_len(plaintext_len: usize) -> (len: usize)
    requires
        encrypt_reply_size(plaintext_len as nat) <= usize::MAX,
    ensures
        len == encrypt_reply_size(plaintext_len as nat),
{
    LEN_PREFIX + TAG_LEN + plaintext_len
}

/// What an `encrypt` reply means: the remote refusal for a refused reply; a malformed reply
/// when it did not decode, or when its ciphertext is not as long as the plaintext was
/// (`buffer_len`); otherwise the tag and the ciphertext to put in the buffer.
pub fn encrypt_reply(
    status: ReplyStatus,
    decoded: Option<([u8; TAG_LEN], Vec<u8>)>,
    buffer_len: usize,
) -> (res: Result<([u8; TAG_LEN], Vec<u8>), KeystoreError>)
    ensures
        match status {
            ReplyStatus::Refused(why) => res == Err::<([u8; TAG_LEN], Vec<u8>), KeystoreError>(
                KeystoreError::RemoteDenied(why),
            ),
            ReplyStatus::Success => match decoded {
                None => res == Err::<([u8; TAG_LEN], Vec<u8>), KeystoreError>(
                    KeystoreError::Channel(ChannelError::Malformed),
                ),
                Some((tag, ciphertext)) => if ciphertext@.len() == buffer_len {
                    res matches Ok((t, c)) && t@ == tag@ && c@ == ciphertext@
                } else {
                    res == Err::<([u8; TAG_LEN], Vec<u8>), KeystoreError>(
                        KeystoreError::Channel(ChannelError::Malformed),
                    )
                },
            },
        },
{
    if let ReplyStatus::Refused(why) = status {
        return Err(KeystoreError::RemoteDenied(why));
    }
    match decoded {
        None => Err(KeystoreError::Channel(ChannelError::Malformed)),
        Some((tag, ciphertext)) => {
            if ciphertext.len() != buffer_len {
                Err(KeystoreError::Channel(ChannelError::Malformed))
            } else {
                Ok((tag, ciphertext))
            }
        },
    }
}

/// What a `decrypt` reply means: the remote refusal for a refused reply; a malformed reply
/// when the plaintext is not as long as the ciphertext was (`buffer_len`); otherwise the
/// plaintext to put in the buffer.
pub fn decrypt_reply(status: ReplyStatus, plaintext: &[u8], buffer_len: usize) -> (res: Result<Vec<u8>, KeystoreError>)
    ensures
        match status {
            ReplyStatus::Refused(why) => res == Err::<Vec<u8>, KeystoreError>(KeystoreError::RemoteDenied(why)),
            ReplyStatus::Success => if plaintext@.len() == buffer_len {
                res matches Ok(p) && p@ == plaintext@
            } else {
                res == Err::<Vec<u8>, KeystoreError>(KeystoreError::Channel(ChannelError::Malformed))
            },
        },
{
    if let ReplyStatus::Refused(why) = status {
        return Err(KeystoreError::RemoteDenied(why));
    }
    if plaintext.len() != buffer_len {
        return Err(KeystoreError::Channel(ChannelError::Malformed));
    }
    Ok(vstd::slice::slice_to_vec(plaintext))
}

/// What a `sign` reply means: the remote refusal for a refused reply; otherwise the signature
/// it carries.
pub fn sign_reply(status: ReplyStatus, signature: &[u8]) -> (res: Result<Vec<u8>, KeystoreError>)
    ensures
        match status {
            ReplyStatus::Refused(why) => res == Err::<Vec<u8>, KeystoreError>(KeystoreError::RemoteDenied(why)),
            ReplyStatus::Success => res matches Ok(s) && s@ == signature@,
        },
{
    if let ReplyStatus::Refused(why) = status {
        return Err(KeystoreError::RemoteDenied(why));
    }
    Ok(vstd::slice::slice_to_vec(signature))
}

/// What a store's `read` reply means: the remote refusal for a refused reply; otherwise the
/// number of file bytes the channel delivered.
pub fn read_reply(status: ReplyStatus, len: usize) -> (res: Result<usize, StoreError>)
    ensures
        match status {
            ReplyStatus::Refused(why) => res == Err::<usize, StoreError>(StoreError::RemoteCryptoDenied(why)),
            ReplyStatus::Success => res == Ok::<usize, StoreError>(len),
        },
{
    match status {
        ReplyStatus::Refused(why) => Err(StoreError::RemoteCryptoDenied(why)),
        ReplyStatus::Success => Ok(len),
    }
}

/// What a store's `write` reply means: the remote refusal for a refused reply.
pub fn write_reply(status: ReplyStatus) -> (res: Result<(), StoreError>)
    ensures
        match status {
            ReplyStatus::Refused(why) => res == Err::<(), StoreError>(StoreError::RemoteCryptoDenied(why)),
            ReplyStatus::Success => res is Ok,
        },
{
    match status {
        ReplyStatus::Refused(why) => Err(StoreError::RemoteCryptoDenied(why)),
        ReplyStatus::Success => Ok(()),
    }
}

} // verus!
