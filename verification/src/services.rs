//! The owning services as the mapping sees them: the ids of the objects they hold, the
//! sizes their primitives fix, the status words of their IPC replies, and the errors they
//! answer with.

use vstd::prelude::*;

verus! {

/// Nonce length of the keystore's AEAD primitive, in bytes.
pub const NONCE_LEN: usize = 12;

/// Authentication-tag length of the keystore's AEAD primitive, in bytes.
pub const TAG_LEN: usize = 16;

/// Length of a keystore signature (Ed25519), in bytes.
pub const SIGNATURE_LEN: usize = 64;

/// The largest block the store accepts in one `write`, and the buffer size a `read` uses.
pub const MAX_BLOCK_LEN: usize = 4096;

/// Why a confined service refused a call, as its reply's status word says.
#[derive(Clone, Copy, Debug, PartialEq, Eq, Structural)]
pub enum RemoteRefusal {
    /// The service denied the call; it has already collapsed every kind of denial into this
    /// one status, saying nothing about why.
    Access,
    /// Any other failure status (the raw status word).
    Other(u32),
}

/// The status an IPC reply begins with.
#[derive(Clone, Copy, Debug, PartialEq, Eq, Structural)]
pub enum ReplyStatus {
    /// The reply carries a result.
    Success,
    /// The service refused the call.
    Refused(RemoteRefusal),
}

/// A key held by the keystore service. Opaque to a component: only the manifest names one.
#[derive(Clone, Copy, Debug, PartialEq, Eq, Structural)]
pub struct KeyId {
    raw: u32,
}

impl KeyId {
    /// The key the keystore numbers `raw`.
    pub fn from_raw(raw: u32) -> (id: KeyId)
        ensures
            id.raw() == raw,
    {
        KeyId { raw }
    }

    pub closed spec fn raw(self) -> u32 {
        self.raw
    }

    /// The service's number for this object.
    pub fn raw_value(&self) -> (raw: u32)
        ensures
            raw == self.raw(),
    {
        self.raw
    }
}

/// A file held by the store service. Opaque to a component: only the manifest names one.
#[derive(Clone, Copy, Debug, PartialEq, Eq, Structural)]
pub struct FileId {
    raw: u32,
}

impl FileId {
    /// The file the store numbers `raw`.
    pub fn from_raw(raw: u32) -> (id: FileId)
        ensures
            id.raw() == raw,
    {
        FileId { raw }
    }

    pub closed spec fn raw(self) -> u32 {
        self.raw
    }

    /// The service's number for this object.
    pub fn raw_value(&self) -> (raw: u32)
        ensures
            raw == self.raw(),
    {
        self.raw
    }
}

/// A transport failure on the IPC channel to a confined service.
#[derive(Clone, Copy, Debug, PartialEq, Eq, Structural)]
pub enum ChannelError {
    /// The reply did not have the shape its operation fixes.
    Malformed,
    /// The kernel refused the call or reply (the kernel's own error word).
    Kernel(u32),
}

/// The keystore service's answer when it refuses or fails a call.
#[derive(Clone, Copy, Debug, PartialEq, Eq, Structural)]
pub enum KeystoreError {
    /// The badge was never minted by this keystore.
    UnknownBadge,
    /// The badge was revoked.
    BadgeRevoked,
    /// The badge does not carry the operation asked for.
    OpNotGranted,
    /// The badge names another key.
    WrongKey,
    /// No key has this id.
    NoSuchKey,
    /// The key was destroyed.
    KeyDestroyed,
    /// The key exists but is not a key for this operation.
    WrongKeyPurpose,
    /// An argument had the wrong shape for the primitive.
    BadArgument,
    /// The primitive itself failed (for `decrypt`: the tag did not authenticate).
    CryptoFailure,
    /// A confined keystore refused the call.
    RemoteDenied(RemoteRefusal),
    /// The IPC transport to a confined keystore failed.
    Channel(ChannelError),
}

/// The store service's answer when it refuses or fails a call.
#[derive(Clone, Copy, Debug, PartialEq, Eq, Structural)]
pub enum StoreError {
    /// The badge was never minted by this store.
    UnknownBadge,
    /// The badge was revoked.
    BadgeRevoked,
    /// The badge does not carry the operation asked for.
    OpNotGranted,
    /// The badge names another file.
    WrongFile,
    /// No file has this id.
    NoSuchFile,
    /// The file was destroyed.
    FileDestroyed,
    /// The file exists but nothing was ever written to it.
    FileEmpty,
    /// The data does not fit a block, or the buffer cannot hold the file.
    BadSize,
    /// The store's AEAD layer failed.
    CryptoFailure,
    /// The kernel failed a call the store made.
    Kernel(u32),
    /// A confined store (or its crypto backend) refused the call.
    RemoteCryptoDenied(RemoteRefusal),
    /// The IPC transport to a confined store failed.
    Channel(ChannelError),
}

} // verus!
