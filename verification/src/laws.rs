//! Properties of the mapping that span several operations.

use vstd::prelude::*;

use crate::filesystem;
use crate::host::{
    file_lookup, key_lookup, keystore_error_code, read_answered, sign_answered, store_error_code,
    FilesystemCall, FilesystemService, HostCapability, HostFile, KeystoreCall, KeystoreService,
    RuntimeState, ServiceEndpoint,
};
use crate::platform::{page_round, region_vaddr, regions_for, ARENA_VADDR, MEGAPAGE_BYTES, PAGE_SIZE};
use crate::keystore;
use crate::services::{KeystoreError, RemoteRefusal, StoreError, MAX_BLOCK_LEN, NONCE_LEN, TAG_LEN};
use crate::table::TableEntry;

verus! {

/// A keystore refusal that is a denial: the badge is unknown, revoked or does not carry the
/// operation, the key is wrong, missing or destroyed, or a confined keystore said `access`.
pub open spec fn is_keystore_denial(err: KeystoreError) -> bool {
    ||| err == KeystoreError::UnknownBadge
    ||| err == KeystoreError::BadgeRevoked
    ||| err == KeystoreError::OpNotGranted
    ||| err == KeystoreError::WrongKey
    ||| err == KeystoreError::NoSuchKey
    ||| err == KeystoreError::KeyDestroyed
    ||| err == KeystoreError::RemoteDenied(RemoteRefusal::Access)
}

/// A store refusal that is a denial: the badge is unknown, revoked or does not carry the
/// operation, the file is wrong, missing or destroyed, or a confined store said `access`.
pub open spec fn is_store_denial(err: StoreError) -> bool {
    ||| err == StoreError::UnknownBadge
    ||| err == StoreError::BadgeRevoked
    ||| err == StoreError::OpNotGranted
    ||| err == StoreError::WrongFile
    ||| err == StoreError::NoSuchFile
    ||| err == StoreError::FileDestroyed
    ||| err == StoreError::RemoteCryptoDenied(RemoteRefusal::Access)
}

/// Deny-by-default, relayed verbatim: a keystore refusal reaches the guest as `access`
/// exactly when it is a denial, and as `invalid` otherwise — no distinction about why a call
/// was denied is passed on.
pub proof fn keystore_denials_are_access(err: KeystoreError)
    ensures
        keystore_error_code(err) == keystore::ErrorCode::Access <==> is_keystore_denial(err),
        keystore_error_code(err) == keystore::ErrorCode::Invalid <==> !is_keystore_denial(err),
{
}

/// The same for the store: `access` exactly for a denial, `invalid` otherwise.
pub proof fn store_denials_are_access(err: StoreError)
    ensures
        store_error_code(err) == filesystem::ErrorCode::Access <==> is_store_denial(err),
        store_error_code(err) == filesystem::ErrorCode::Invalid <==> !is_store_denial(err),
{
}

/// A handle that `open` just handed out resolves to the record granted at that slot.
pub proof fn opened_key_handle_resolves_to_its_grant(
    handles: Map<u32, Option<TableEntry>>,
    handle: u32,
    cap: HostCapability,
)
    ensures
        key_lookup(handles.insert(handle, Some(TableEntry::Key(cap))), handle) == Ok::<HostCapability, keystore::ErrorCode>(cap),
{
}

/// A file handle that `open` just handed out resolves to the record granted at that slot.
pub proof fn opened_file_handle_resolves_to_its_grant(
    handles: Map<u32, Option<TableEntry>>,
    handle: u32,
    cap: HostFile,
)
    ensures
        file_lookup(handles.insert(handle, Some(TableEntry::File(cap))), handle) == Ok::<HostFile, filesystem::ErrorCode>(cap),
{
}

/// A dropped handle no longer resolves: once its entry is gone from the table, every
/// `keystore` and `filesystem` method called on it is refused as `access`.
pub proof fn dropped_handle_is_denied<K: KeystoreService, F: FilesystemService>(after: RuntimeState<K, F>, handle: u32, nonce_len: nat, tag_len: nat, len: nat)
    requires
        !after.handles().contains_key(handle),
    ensures
        after.encrypt_refusal(handle, nonce_len) == Some(keystore::ErrorCode::Access),
        after.decrypt_refusal(handle, nonce_len, tag_len) == Some(keystore::ErrorCode::Access),
        after.sign_refusal(handle) == Some(keystore::ErrorCode::Access),
        after.read_refusal(handle) == Some(filesystem::ErrorCode::Access),
        after.write_refusal(handle, len) == Some(filesystem::ErrorCode::Access),
{
}

/// A handle is never taken for the other kind: a handle backed by a key capability is refused
/// as `access` by every `filesystem` method, and one backed by a file capability by every
/// `keystore` method.
pub proof fn handles_are_not_type_confused<K: KeystoreService, F: FilesystemService>(state: RuntimeState<K, F>, handle: u32, nonce_len: nat, tag_len: nat, len: nat)
    ensures
        state.handles().get(handle) matches Some(Some(TableEntry::Key(_))) ==> {
            &&& state.read_refusal(handle) == Some(filesystem::ErrorCode::Access)
            &&& state.write_refusal(handle, len) == Some(filesystem::ErrorCode::Access)
        },
        state.handles().get(handle) matches Some(Some(TableEntry::File(_))) ==> {
            &&& state.encrypt_refusal(handle, nonce_len) == Some(keystore::ErrorCode::Access)
            &&& state.decrypt_refusal(handle, nonce_len, tag_len) == Some(keystore::ErrorCode::Access)
            &&& state.sign_refusal(handle) == Some(keystore::ErrorCode::Access)
        },
{
}

/// On a handle that resolves to a keystore capability, a nonce of the wrong length is
/// `invalid` whether or not a keystore is attached.
pub proof fn wrong_length_nonce_is_invalid<K: KeystoreService, F: FilesystemService>(state: RuntimeState<K, F>, handle: u32, nonce_len: nat, tag_len: nat)
    requires
        key_lookup(state.handles(), handle) matches Ok(cap) && cap.service() == ServiceEndpoint::Keystore,
        nonce_len != NONCE_LEN,
    ensures
        state.encrypt_refusal(handle, nonce_len) == Some(keystore::ErrorCode::Invalid),
        state.decrypt_refusal(handle, nonce_len, tag_len) == Some(keystore::ErrorCode::Invalid),
{
}

/// On a handle that resolves to a store capability, a write of more than one block is
/// `invalid` whether or not a store is attached.
pub proof fn oversized_write_is_invalid<K: KeystoreService, F: FilesystemService>(state: RuntimeState<K, F>, handle: u32, len: nat)
    requires
        file_lookup(state.handles(), handle) matches Ok(cap) && cap.service() == ServiceEndpoint::Filesystem,
        len > MAX_BLOCK_LEN,
    ensures
        state.write_refusal(handle, len) == Some(filesystem::ErrorCode::Invalid),
{
}

/// `encrypt` is forwarded as the guest asked: the keystore answers exactly one new call, an
/// encrypt under the badge and key of the capability the handle resolves to, with the
/// guest's nonce, associated data and plaintext exactly; on success the guest gets back what
/// the keystore left in the buffer, as long as the plaintext, and the keystore's tag.
pub proof fn encrypt_forwards_the_guests_arguments<K: KeystoreService, F: FilesystemService>(
    before: RuntimeState<K, F>,
    after: RuntimeState<K, F>,
    handle: u32,
    cap: HostCapability,
    nonce: Seq<u8>,
    aad: Seq<u8>,
    plaintext: Seq<u8>,
    res: Result<(Vec<u8>, Vec<u8>), keystore::ErrorCode>,
)
    requires
        key_lookup(before.handles(), handle) == Ok::<HostCapability, keystore::ErrorCode>(cap),
        before.encrypt_forwarded(&after, handle, nonce, aad, plaintext, res),
    ensures
        after.keystore_calls().len() == before.keystore_calls().len() + 1,
        after.keystore_calls().take(before.keystore_calls().len() as int) == before.keystore_calls(),
        ({
            let call = after.keystore_calls().last();
            &&& call is Encrypt
            &&& call->Encrypt_badge == cap.badge()
            &&& call->Encrypt_key == cap.key()
            &&& call->Encrypt_nonce == nonce
            &&& call->Encrypt_aad == aad
            &&& call->Encrypt_plaintext == plaintext
            &&& call->Encrypt_answer is Ok ==> {
                &&& res is Ok
                &&& res->Ok_0.0@ == call->Encrypt_ciphertext
                &&& res->Ok_0.0@.len() == plaintext.len()
                &&& res->Ok_0.1@ == call->Encrypt_answer->Ok_0@
            }
            &&& call->Encrypt_answer is Err ==> {
                &&& res is Err
                &&& (res->Err_0 == keystore::ErrorCode::Access <==> is_keystore_denial(call->Encrypt_answer->Err_0))
            }
        }),
{
    assert(after.keystore_calls().take(before.keystore_calls().len() as int) =~= after.keystore_calls().drop_last());
}

/// `decrypt` is forwarded as the guest asked: exactly one new keystore call, a decrypt under
/// the handle's badge and key with the guest's nonce, associated data, tag and ciphertext
/// exactly; on success the guest gets back what the keystore left in the buffer, as long as
/// the ciphertext.
pub proof fn decrypt_forwards_the_guests_arguments<K: KeystoreService, F: FilesystemService>(
    before: RuntimeState<K, F>,
    after: RuntimeState<K, F>,
    handle: u32,
    cap: HostCapability,
    nonce: Seq<u8>,
    aad: Seq<u8>,
    ciphertext: Seq<u8>,
    tag: Seq<u8>,
    res: Result<Vec<u8>, keystore::ErrorCode>,
)
    requires
        key_lookup(before.handles(), handle) == Ok::<HostCapability, keystore::ErrorCode>(cap),
        before.decrypt_forwarded(&after, handle, nonce, aad, ciphertext, tag, res),
    ensures
        after.keystore_calls().len() == before.keystore_calls().len() + 1,
        after.keystore_calls().take(before.keystore_calls().len() as int) == before.keystore_calls(),
        ({
            let call = after.keystore_calls().last();
            &&& call is Decrypt
            &&& call->Decrypt_badge == cap.badge()
            &&& call->Decrypt_key == cap.key()
            &&& call->Decrypt_nonce == nonce
            &&& call->Decrypt_aad == aad
            &&& call->Decrypt_tag == tag
            &&& call->Decrypt_ciphertext == ciphertext
            &&& call->Decrypt_answer is Ok ==> {
                &&& res is Ok
                &&& res->Ok_0@ == call->Decrypt_plaintext
                &&& res->Ok_0@.len() == ciphertext.len()
            }
            &&& call->Decrypt_answer is Err ==> {
                &&& res is Err
                &&& (res->Err_0 == keystore::ErrorCode::Access <==> is_keystore_denial(call->Decrypt_answer->Err_0))
            }
        }),
{
    assert(after.keystore_calls().take(before.keystore_calls().len() as int) =~= after.keystore_calls().drop_last());
}

/// `sign` is forwarded as the guest asked: exactly one new keystore call, a sign under the
/// handle's badge and key with the guest's message exactly, and the guest gets back the
/// keystore's answer.
pub proof fn sign_forwards_the_guests_message<K: KeystoreService, F: FilesystemService>(
    before: RuntimeState<K, F>,
    after: RuntimeState<K, F>,
    handle: u32,
    cap: HostCapability,
    message: Seq<u8>,
    res: Result<Vec<u8>, keystore::ErrorCode>,
)
    requires
        key_lookup(before.handles(), handle) == Ok::<HostCapability, keystore::ErrorCode>(cap),
        before.sign_forwarded(&after, handle, message, res),
    ensures
        after.keystore_calls().len() == before.keystore_calls().len() + 1,
        after.keystore_calls().take(before.keystore_calls().len() as int) == before.keystore_calls(),
        ({
            let call = after.keystore_calls().last();
            &&& call is Sign
            &&& call->Sign_badge == cap.badge()
            &&& call->Sign_key == cap.key()
            &&& call->Sign_message == message
            &&& sign_answered(res, call->Sign_answer)
        }),
{
    assert(after.keystore_calls().take(before.keystore_calls().len() as int) =~= after.keystore_calls().drop_last());
}

/// A successful signature reaches the guest unchanged: the same bytes, so the same length, as
/// the keystore produced; a refusal reaches it as an error.
pub proof fn a_signature_is_returned_unchanged(res: Result<Vec<u8>, keystore::ErrorCode>, answer: Result<Vec<u8>, KeystoreError>)
    requires
        sign_answered(res, answer),
    ensures
        answer is Ok ==> res is Ok && res->Ok_0@ == answer->Ok_0@ && res->Ok_0@.len() == answer->Ok_0@.len(),
        answer is Err ==> res is Err && (res->Err_0 == keystore::ErrorCode::Access <==> is_keystore_denial(answer->Err_0)),
{
}

/// `read` hands the store a zeroed buffer of one whole block, as large as the largest write
/// the mapping lets through, under the badge and file of the capability the handle resolves
/// to; so any file of up to one block can be read back whole: when the store reports `n`
/// bytes (at most the buffer), the guest gets exactly the first `n` bytes the store left.
pub proof fn read_hands_the_store_a_whole_block<K: KeystoreService, F: FilesystemService>(
    before: RuntimeState<K, F>,
    after: RuntimeState<K, F>,
    handle: u32,
    cap: HostFile,
    res: Result<Vec<u8>, filesystem::ErrorCode>,
)
    requires
        file_lookup(before.handles(), handle) == Ok::<HostFile, filesystem::ErrorCode>(cap),
        before.read_refusal(handle) is None,
        before.read_forwarded(&after, handle, res),
    ensures
        after.filesystem_calls().len() == before.filesystem_calls().len() + 1,
        after.filesystem_calls().take(before.filesystem_calls().len() as int) == before.filesystem_calls(),
        ({
            let call = after.filesystem_calls().last();
            &&& call is Read
            &&& call->Read_badge == cap.badge()
            &&& call->Read_file == cap.file()
            &&& call->Read_given.len() == MAX_BLOCK_LEN
            &&& forall|i: int| 0 <= i < call->Read_given.len() ==> call->Read_given[i] == 0u8
            &&& forall|len: nat| #[trigger] before.write_refusal(handle, len) is None ==> len <= call->Read_given.len()
            &&& forall|n: usize| call->Read_answer == Ok::<usize, StoreError>(n) && n <= call->Read_given.len() ==> {
                &&& res is Ok
                &&& res->Ok_0@.len() == n
                &&& res->Ok_0@ == call->Read_filled.subrange(0, n as int)
            }
        }),
{
    assert(after.filesystem_calls().take(before.filesystem_calls().len() as int) =~= after.filesystem_calls().drop_last());
    let call = after.filesystem_calls().last();
    assert forall|n: usize| call->Read_answer == Ok::<usize, StoreError>(n) && n <= call->Read_given.len() implies {
        &&& res is Ok
        &&& res->Ok_0@.len() == n
        &&& res->Ok_0@ == call->Read_filled.subrange(0, n as int)
    } by {
        assert(read_answered(res, call->Read_answer, call->Read_filled));
        if n < call->Read_filled.len() {
            assert(call->Read_filled.take(n as int) =~= call->Read_filled.subrange(0, n as int));
        } else {
            assert(call->Read_filled =~= call->Read_filled.subrange(0, n as int));
        }
    }
}

/// A file the store reports as never written reads back as empty, and a successful read of
/// `n` bytes from a buffer of at least `n` gives exactly those `n` bytes.
pub proof fn a_read_returns_exactly_what_the_store_reported(res: Result<Vec<u8>, filesystem::ErrorCode>, answer: Result<usize, StoreError>, filled: Seq<u8>)
    requires
        read_answered(res, answer, filled),
    ensures
        answer == Err::<usize, StoreError>(StoreError::FileEmpty) ==> res is Ok && res->Ok_0@.len() == 0,
        answer matches Err(e) ==> (e != StoreError::FileEmpty ==> res is Err
            && (res->Err_0 == filesystem::ErrorCode::Access <==> is_store_denial(e))),
        answer matches Ok(n) ==> (n <= filled.len() ==> res is Ok && res->Ok_0@ == filled.subrange(0, n as int)),
{
    if let Ok(n) = answer {
        if n < filled.len() {
            assert(filled.take(n as int) =~= filled.subrange(0, n as int));
        } else if n == filled.len() {
            assert(filled =~= filled.subrange(0, n as int));
        }
    }
}

/// `write` is forwarded as the guest asked: exactly one new store call, a write under the
/// handle's badge and file with the guest's bytes exactly.
pub proof fn write_forwards_the_guests_bytes<K: KeystoreService, F: FilesystemService>(
    before: RuntimeState<K, F>,
    after: RuntimeState<K, F>,
    handle: u32,
    cap: HostFile,
    data: Seq<u8>,
    res: Result<(), filesystem::ErrorCode>,
)
    requires
        file_lookup(before.handles(), handle) == Ok::<HostFile, filesystem::ErrorCode>(cap),
        before.write_forwarded(&after, handle, data, res),
    ensures
        after.filesystem_calls().len() == before.filesystem_calls().len() + 1,
        after.filesystem_calls().take(before.filesystem_calls().len() as int) == before.filesystem_calls(),
        ({
            let call = after.filesystem_calls().last();
            &&& call is Write
            &&& call->Write_badge == cap.badge()
            &&& call->Write_file == cap.file()
            &&& call->Write_data == data
            &&& (call->Write_answer is Ok <==> res is Ok)
            &&& call->Write_answer is Err ==> (res->Err_0 == filesystem::ErrorCode::Access <==> is_store_denial(call->Write_answer->Err_0))
        }),
{
    assert(after.filesystem_calls().take(before.filesystem_calls().len() as int) =~= after.filesystem_calls().drop_last());
}

/// An allocation of `size` bytes claims the fewest whole regions that cover it, and at least
/// one: enough regions to hold `size` bytes, and one fewer would not (for `size > 0`).
pub proof fn an_allocation_claims_the_fewest_covering_regions(size: nat)
    ensures
        regions_for(size) >= 1,
        regions_for(size) * MEGAPAGE_BYTES >= size,
        size > 0 ==> (regions_for(size) - 1) * MEGAPAGE_BYTES < size,
{
    let m: int = MEGAPAGE_BYTES as int;
    let q: int = size as int / m;
    let r: int = size as int % m;
    vstd::arithmetic::div_mod::lemma_fundamental_div_mod(size as int, m);
    vstd::arithmetic::div_mod::lemma_mod_pos_bound(size as int, m);
    assert(size == m * q + r);
    assert(0 <= q) by (nonlinear_arith)
        requires
            size == m * q + r,
            0 <= r < m,
            m > 0,
    ;
    if r == 0 {
        if q == 0 {
            assert(size == 0) by (nonlinear_arith)
                requires
                    size == m * q + r,
                    q == 0,
                    r == 0,
            ;
            assert(regions_for(size) == 1);
        } else {
            assert(regions_for(size) == q);
            assert(q * m >= size && (q - 1) * m < size) by (nonlinear_arith)
                requires
                    size == m * q + r,
                    r == 0,
                    q >= 1,
                    m > 0,
            ;
        }
    } else {
        assert(regions_for(size) == q + 1);
        assert((q + 1) * m >= size && q * m < size) by (nonlinear_arith)
            requires
                size == m * q + r,
                0 < r < m,
                m > 0,
        ;
    }
}

/// A keystore call on a live key handle whose record names the keystore, with a nonce (and
/// for `decrypt` a tag) of the right length and a keystore attached, is not refused by the
/// mapping: it reaches the keystore.
pub proof fn well_formed_keystore_calls_are_forwarded<K: KeystoreService, F: FilesystemService>(state: RuntimeState<K, F>, handle: u32)
    requires
        key_lookup(state.handles(), handle) matches Ok(cap) && cap.service() == ServiceEndpoint::Keystore,
        state.has_keystore(),
    ensures
        state.encrypt_refusal(handle, NONCE_LEN as nat) is None,
        state.decrypt_refusal(handle, NONCE_LEN as nat, TAG_LEN as nat) is None,
        state.sign_refusal(handle) is None,
{
}

/// A store call on a live file handle whose record names the store, with a store attached, is
/// not refused by the mapping: a read always reaches the store, and so does a write of at
/// most one block.
pub proof fn well_formed_store_calls_are_forwarded<K: KeystoreService, F: FilesystemService>(state: RuntimeState<K, F>, handle: u32, len: nat)
    requires
        file_lookup(state.handles(), handle) matches Ok(cap) && cap.service() == ServiceEndpoint::Filesystem,
        state.has_filesystem(),
        len <= MAX_BLOCK_LEN,
    ensures
        state.read_refusal(handle) is None,
        state.write_refusal(handle, len) is None,
{
}

/// Regions are laid out back to back from the reserved range's base: region 0 starts at the
/// base, and each region starts one megapage after the one before.
pub proof fn regions_are_consecutive_megapages(region: int)
    ensures
        region_vaddr(0) == ARENA_VADDR,
        region_vaddr(region + 1) == region_vaddr(region) + MEGAPAGE_BYTES,
{
    assert((region + 1) * MEGAPAGE_BYTES == region * MEGAPAGE_BYTES + MEGAPAGE_BYTES) by (nonlinear_arith);
}

/// A fallback allocation of `size` bytes takes the fewest whole pages that hold it: a whole
/// number of pages, at least `size`, and less than one page more.
pub proof fn a_fallback_allocation_takes_the_fewest_covering_pages(size: nat)
    ensures
        page_round(size) % (PAGE_SIZE as nat) == 0,
        page_round(size) >= size,
        page_round(size) < size + PAGE_SIZE,
{
    let p: int = PAGE_SIZE as int;
    let x: int = size + p - 1;
    vstd::arithmetic::div_mod::lemma_fundamental_div_mod(x, p);
    vstd::arithmetic::div_mod::lemma_mod_pos_bound(x, p);
    let q: int = x / p;
    assert(page_round(size) == q * p);
    vstd::arithmetic::div_mod::lemma_mod_multiples_basic(q, p);
    assert(q * p == p * q) by (nonlinear_arith);
}

} // verus!
