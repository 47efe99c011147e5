//! The WIT-handle to capability mapping.
//!
//! Two mapping shapes:
//!
//! - **Resource-scoped** (`keystore`, `filesystem`): each handle is backed by one host
//!   record — a service badge plus the object id it names ([`HostCapability`] for a key,
//!   [`HostFile`] for a file) — held in the component's resource table. A handle exists only
//!   because `open(slot)` found a record the grant manifest placed at that slot. Calls on a
//!   handle are forwarded to the owning service with the record's badge; the service decides,
//!   and its refusals are relayed as the interface's `error-code`, denials always as `access`.
//!   This module adds no capability check of its own.
//! - **Link-scoped** (`monotonic-clock`): no per-call object, so the grant is a yes/no — the
//!   interface is linked or left unlinked as a whole ([`GrantManifest::link_plan`]).

use vstd::prelude::*;

use crate::filesystem;
use crate::keystore;
use crate::services::{
    FileId, KeyId, KeystoreError, RemoteRefusal, StoreError, MAX_BLOCK_LEN, NONCE_LEN, TAG_LEN,
};
use crate::table::{
    default_max_capacity, table_delete, table_entries, table_get, table_max_capacity, table_new,
    table_parents, table_push, table_slot_count, TableEntry, TableError,
};

verus! {

// -------------------------------------------------------------------------------------
// Host-side capability records
// -------------------------------------------------------------------------------------

/// The owning service a host record forwards to.
#[derive(Clone, Copy, Debug, PartialEq, Eq, Structural)]
pub enum ServiceEndpoint {
    Keystore,
    Filesystem,
}

/// What one `keystore::key` handle is backed by, host-side: the badge the handle is scoped
/// to, the key that badge names, and the service calls are forwarded to. A guest never sees
/// these fields.
#[derive(Clone, Copy, Debug, PartialEq, Eq, Structural)]
pub struct HostCapability {
    badge: u64,
    key: KeyId,
    service: ServiceEndpoint,
}

impl HostCapability {
    /// A capability to one key in the keystore service, scoped to whatever operations the
    /// service granted `badge` (the service enforces that subset; this record does not know it).
    pub fn keystore_key(badge: u64, key: KeyId) -> (cap: HostCapability)
        ensures
            cap.badge() == badge,
            cap.key() == key,
            cap.service() == ServiceEndpoint::Keystore,
    {
        HostCapability { badge, key, service: ServiceEndpoint::Keystore }
    }

    pub closed spec fn badge(self) -> u64 {
        self.badge
    }

    pub closed spec fn key(self) -> KeyId {
        self.key
    }

    pub closed spec fn service(self) -> ServiceEndpoint {
        self.service
    }
}

/// What one `filesystem::file` handle is backed by, host-side — the filesystem twin of
/// [`HostCapability`], a distinct record so that a file handle is never taken for a key.
#[derive(Clone, Copy, Debug, PartialEq, Eq, Structural)]
pub struct HostFile {
    badge: u64,
    file: FileId,
    service: ServiceEndpoint,
}

impl HostFile {
    /// A capability to one file in the store, scoped to whatever operations the store
    /// granted `badge` (the store enforces that subset).
    pub fn filesystem_file(badge: u64, file: FileId) -> (cap: HostFile)
        ensures
            cap.badge() == badge,
            cap.file() == file,
            cap.service() == ServiceEndpoint::Filesystem,
    {
        HostFile { badge, file, service: ServiceEndpoint::Filesystem }
    }

    pub closed spec fn badge(self) -> u64 {
        self.badge
    }

    pub closed spec fn file(self) -> FileId {
        self.file
    }

    pub closed spec fn service(self) -> ServiceEndpoint {
        self.service
    }
}

// -------------------------------------------------------------------------------------
// The owning services, as the mapping sees them
// -------------------------------------------------------------------------------------

/// One call a keystore service answered: what it was given, what it left in the caller's
/// buffer, and what it answered.
#[allow(inconsistent_fields)]
pub enum KeystoreCall {
    Encrypt {
        badge: u64,
        key: KeyId,
        nonce: Seq<u8>,
        aad: Seq<u8>,
        plaintext: Seq<u8>,
        ciphertext: Seq<u8>,
        answer: Result<[u8; TAG_LEN], KeystoreError>,
    },
    Decrypt {
        badge: u64,
        key: KeyId,
        nonce: Seq<u8>,
        aad: Seq<u8>,
        tag: Seq<u8>,
        ciphertext: Seq<u8>,
        plaintext: Seq<u8>,
        answer: Result<(), KeystoreError>,
    },
    Sign { badge: u64, key: KeyId, message: Seq<u8>, answer: Result<Vec<u8>, KeystoreError> },
}

/// One call a store answered: what it was given, what it left in the caller's buffer, and
/// what it answered.
#[allow(inconsistent_fields)]
pub enum FilesystemCall {
    Read { badge: u64, file: FileId, given: Seq<u8>, filled: Seq<u8>, answer: Result<usize, StoreError> },
    Write { badge: u64, file: FileId, data: Seq<u8>, answer: Result<(), StoreError> },
}

/// The keystore service a `key` handle's calls are forwarded to (in process, or a confined
/// service over IPC). Every method takes the badge and re-checks it; the mapping forwards
/// and never caches an "already allowed" decision. `buffer` holds the plaintext (for
/// `encrypt`) or ciphertext (for `decrypt`) and is transformed in place.
///
/// `calls` is the history of the calls the service answered: each method adds exactly one
/// entry, recording its arguments, what it left in `buffer` and its answer. An implementation
/// meets the methods' `ensures` only by defining `calls` as such a history. The default, a
/// history that is always empty, cannot meet them: an implementation that keeps it (one
/// written outside Verus, which cannot define a spec function) is not covered by these
/// contracts, and what the mapping's contracts say of the calls forwarded to it holds only
/// as far as it behaves as the `ensures` describe.
pub trait KeystoreService: Send + Sync {
    open spec fn calls(&self) -> Seq<KeystoreCall> {
        Seq::empty()
    }

    fn encrypt(
        &mut self,
        badge: u64,
        key: KeyId,
        nonce: &[u8; NONCE_LEN],
        aad: &[u8],
        buffer: &mut [u8],
    ) -> (answer: Result<[u8; TAG_LEN], KeystoreError>)
        ensures
            final(buffer)@.len() == old(buffer)@.len(),
            final(self).calls() == old(self).calls().push(
                (KeystoreCall::Encrypt {
                    badge,
                    key,
                    nonce: nonce@,
                    aad: aad@,
                    plaintext: old(buffer)@,
                    ciphertext: final(buffer)@,
                    answer,
                }),
            ),
    ;

    fn decrypt(
        &mut self,
        badge: u64,
        key: KeyId,
        nonce: &[u8; NONCE_LEN],
        aad: &[u8],
        buffer: &mut [u8],
        tag: &[u8; TAG_LEN],
    ) -> (answer: Result<(), KeystoreError>)
        ensures
            final(buffer)@.len() == old(buffer)@.len(),
            final(self).calls() == old(self).calls().push(
                (KeystoreCall::Decrypt {
                    badge,
                    key,
                    nonce: nonce@,
                    aad: aad@,
                    tag: tag@,
                    ciphertext: old(buffer)@,
                    plaintext: final(buffer)@,
                    answer,
                }),
            ),
    ;

    fn sign(&mut self, badge: u64, key: KeyId, message: &[u8]) -> (answer: Result<Vec<u8>, KeystoreError>)
        ensures
            final(self).calls() == old(self).calls().push(
                (KeystoreCall::Sign { badge, key, message: message@, answer }),
            ),
    ;
}

/// The store a `file` handle's calls are forwarded to. Every method takes the badge and
/// re-checks it. `read` fills a prefix of `buffer` and reports its length.
///
/// `calls` is the history of the calls the store answered: each method adds exactly one
/// entry, recording its arguments, what it left in `buffer` and its answer. An implementation
/// meets the methods' `ensures` only by defining `calls` as such a history. The default, a
/// history that is always empty, cannot meet them: an implementation that keeps it (one
/// written outside Verus, which cannot define a spec function) is not covered by these
/// contracts, and what the mapping's contracts say of the calls forwarded to it holds only
/// as far as it behaves as the `ensures` describe.
pub trait FilesystemService: Send + Sync {
    open spec fn calls(&self) -> Seq<FilesystemCall> {
        Seq::empty()
    }

    fn read(&mut self, badge: u64, file: FileId, buffer: &mut [u8]) -> (answer: Result<usize, StoreError>)
        ensures
            final(buffer)@.len() == old(buffer)@.len(),
            final(self).calls() == old(self).calls().push(
                (FilesystemCall::Read { badge, file, given: old(buffer)@, filled: final(buffer)@, answer }),
            ),
    ;

    fn write(&mut self, badge: u64, file: FileId, data: &[u8]) -> (answer: Result<(), StoreError>)
        ensures
            final(self).calls() == old(self).calls().push(
                (FilesystemCall::Write { badge, file, data: data@, answer }),
            ),
    ;
}

/// A boxed keystore of any kind is a keystore: every call goes to the boxed one, and its
/// history is the boxed one's.
impl KeystoreService for Box<dyn KeystoreService> {
    open spec fn calls(&self) -> Seq<KeystoreCall> {
        (**self).calls()
    }

    fn encrypt(
        &mut self,
        badge: u64,
        key: KeyId,
        nonce: &[u8; NONCE_LEN],
        aad: &[u8],
        buffer: &mut [u8],
    ) -> (answer: Result<[u8; TAG_LEN], KeystoreError>) {
        (**self).encrypt(badge, key, nonce, aad, buffer)
    }

    fn decrypt(
        &mut self,
        badge: u64,
        key: KeyId,
        nonce: &[u8; NONCE_LEN],
        aad: &[u8],
        buffer: &mut [u8],
        tag: &[u8; TAG_LEN],
    ) -> (answer: Result<(), KeystoreError>) {
        (**self).decrypt(badge, key, nonce, aad, buffer, tag)
    }

    fn sign(&mut self, badge: u64, key: KeyId, message: &[u8]) -> (answer: Result<Vec<u8>, KeystoreError>) {
        (**self).sign(badge, key, message)
    }
}

/// A boxed store of any kind is a store: every call goes to the boxed one, and its history
/// is the boxed one's.
impl FilesystemService for Box<dyn FilesystemService> {
    open spec fn calls(&self) -> Seq<FilesystemCall> {
        (**self).calls()
    }

    fn read(&mut self, badge: u64, file: FileId, buffer: &mut [u8]) -> (answer: Result<usize, StoreError>) {
        (**self).read(badge, file, buffer)
    }

    fn write(&mut self, badge: u64, file: FileId, data: &[u8]) -> (answer: Result<(), StoreError>) {
        (**self).write(badge, file, data)
    }
}

/// A monotonic time source: nanoseconds since an arbitrary epoch.
///
/// `readings` is the history of what the source answered: each `now_ns` adds exactly that
/// reading. As for the services, an implementation meets the `ensures` only by defining
/// `readings` as such a history; the default, always empty, cannot meet it.
pub trait TimeSource: Send + Sync {
    open spec fn readings(&self) -> Seq<u64> {
        Seq::empty()
    }

    fn now_ns(&mut self) -> (ns: u64)
        ensures
            final(self).readings() == old(self).readings().push(ns),
    ;
}

/// A boxed time source of any kind is a time source: every reading comes from the boxed
/// one, and its history is the boxed one's.
impl TimeSource for Box<dyn TimeSource> {
    open spec fn readings(&self) -> Seq<u64> {
        (**self).readings()
    }

    fn now_ns(&mut self) -> (ns: u64) {
        (**self).now_ns()
    }
}

/// A single-hart, non-reentrant cell: exclusive access to the value it holds, for state that
/// one service object mutates on every call (such as an IPC channel).
pub struct SingleThreadCell<T> {
    value: T,
}

impl<T> SingleThreadCell<T> {
    pub fn new(value: T) -> (cell: Self)
        ensures
            cell.value() == value,
    {
        SingleThreadCell { value }
    }

    pub closed spec fn value(&self) -> T {
        self.value
    }

    /// Exclusive access to the held value; what is written through it is what the cell holds
    /// afterwards.
    pub fn borrow_mut(&mut self) -> (value: &mut T)
        ensures
            *value == old(self).value(),
            final(self).value() == *final(value),
    {
        &mut self.value
    }
}

// -------------------------------------------------------------------------------------
// Error mapping
// -------------------------------------------------------------------------------------

/// The `keystore` `error-code` for a keystore refusal: every denial (unknown, revoked or
/// narrowed badge, wrong, missing or destroyed key, a confined keystore's own denial) is
/// `access`, with no distinction about why; everything else is `invalid`.
pub open spec fn keystore_error_code(err: KeystoreError) -> keystore::ErrorCode {
    match err {
        KeystoreError::UnknownBadge | KeystoreError::BadgeRevoked | KeystoreError::OpNotGranted
        | KeystoreError::WrongKey | KeystoreError::NoSuchKey | KeystoreError::KeyDestroyed =>
            keystore::ErrorCode::Access,
        KeystoreError::RemoteDenied(RemoteRefusal::Access) => keystore::ErrorCode::Access,
        _ => keystore::ErrorCode::Invalid,
    }
}

/// The `filesystem` `error-code` for a store refusal: every denial (unknown, revoked or
/// narrowed badge, wrong, missing or destroyed file, a confined store's own denial) is
/// `access`; everything else is `invalid`.
pub open spec fn store_error_code(err: StoreError) -> filesystem::ErrorCode {
    match err {
        StoreError::UnknownBadge | StoreError::BadgeRevoked | StoreError::OpNotGranted
        | StoreError::WrongFile | StoreError::NoSuchFile | StoreError::FileDestroyed =>
            filesystem::ErrorCode::Access,
        StoreError::RemoteCryptoDenied(RemoteRefusal::Access) => filesystem::ErrorCode::Access,
        _ => filesystem::ErrorCode::Invalid,
    }
}

/// Maps the keystore's own error onto the `keystore` interface's `error-code`.
pub fn to_error_code(err: KeystoreError) -> (code: keystore::ErrorCode)
    ensures
        code == keystore_error_code(err),
{
    match err {
        KeystoreError::UnknownBadge | KeystoreError::BadgeRevoked | KeystoreError::OpNotGranted
        | KeystoreError::WrongKey | KeystoreError::NoSuchKey | KeystoreError::KeyDestroyed =>
            keystore::ErrorCode::Access,
        KeystoreError::RemoteDenied(RemoteRefusal::Access) => keystore::ErrorCode::Access,
        _ => keystore::ErrorCode::Invalid,
    }
}

/// Maps the store's own error onto the `filesystem` interface's `error-code`.
pub fn to_fs_error_code(err: StoreError) -> (code: filesystem::ErrorCode)
    ensures
        code == store_error_code(err),
{
    match err {
        StoreError::UnknownBadge | StoreError::BadgeRevoked | StoreError::OpNotGranted
        | StoreError::WrongFile | StoreError::NoSuchFile | StoreError::FileDestroyed =>
            filesystem::ErrorCode::Access,
        StoreError::RemoteCryptoDenied(RemoteRefusal::Access) => filesystem::ErrorCode::Access,
        _ => filesystem::ErrorCode::Invalid,
    }
}

/// `bytes` as a fixed-length array, or `invalid` when its length is not `N`.
pub fn fixed_len<const N: usize>(bytes: &[u8]) -> (res: Result<[u8; N], keystore::ErrorCode>)
    ensures
        res is Ok <==> bytes@.len() == N,
        res matches Ok(array) ==> array@ == bytes@,
        res is Err ==> res == Err::<[u8; N], keystore::ErrorCode>(keystore::ErrorCode::Invalid),
{
    if bytes.len() != N {
        return Err(keystore::ErrorCode::Invalid);
    }
    let mut array = [0u8; N];
    let mut i: usize = 0;
    while i < N
        invariant
            0 <= i <= N,
            bytes@.len() == N,
            array@.len() == N,
            forall|j: int| 0 <= j < i ==> array@[j] == bytes@[j],
        decreases N - i,
    {
        array[i] = bytes[i];
        i = i + 1;
    }
    assert(array@ =~= bytes@);
    Ok(array)
}

// -------------------------------------------------------------------------------------
// What a service's answer becomes
// -------------------------------------------------------------------------------------

/// `res` is what `encrypt` returns for the keystore's `answer`, with `ciphertext` left in
/// the buffer: the buffer and the tag, or the answer's `error-code`.
pub open spec fn encrypt_answered(
    res: Result<(Vec<u8>, Vec<u8>), keystore::ErrorCode>,
    answer: Result<[u8; TAG_LEN], KeystoreError>,
    ciphertext: Seq<u8>,
) -> bool {
    match answer {
        Ok(tag) => res matches Ok((c, t)) && c@ == ciphertext && t@ == tag@,
        Err(e) => res == Err::<(Vec<u8>, Vec<u8>), keystore::ErrorCode>(keystore_error_code(e)),
    }
}

/// `res` is what `decrypt` returns for the keystore's `answer`, with `plaintext` left in the
/// buffer.
pub open spec fn decrypt_answered(res: Result<Vec<u8>, keystore::ErrorCode>, answer: Result<(), KeystoreError>, plaintext: Seq<u8>) -> bool {
    match answer {
        Ok(()) => res matches Ok(p) && p@ == plaintext,
        Err(e) => res == Err::<Vec<u8>, keystore::ErrorCode>(keystore_error_code(e)),
    }
}

/// `res` is what `sign` returns for the keystore's `answer`: the signature unchanged, or the
/// answer's `error-code`.
pub open spec fn sign_answered(res: Result<Vec<u8>, keystore::ErrorCode>, answer: Result<Vec<u8>, KeystoreError>) -> bool {
    match answer {
        Ok(sig) => res matches Ok(s) && s@ == sig@,
        Err(e) => res == Err::<Vec<u8>, keystore::ErrorCode>(keystore_error_code(e)),
    }
}

/// `res` is what `read` returns for the store's `answer`, with `filled` left in the buffer:
/// the prefix the store reported, an empty file for one never written, or the answer's
/// `error-code`.
pub open spec fn read_answered(res: Result<Vec<u8>, filesystem::ErrorCode>, answer: Result<usize, StoreError>, filled: Seq<u8>) -> bool {
    match answer {
        Ok(n) => res matches Ok(data) && data@ == read_prefix(filled, n),
        Err(StoreError::FileEmpty) => res matches Ok(data) && data@.len() == 0,
        Err(e) => res == Err::<Vec<u8>, filesystem::ErrorCode>(store_error_code(e)),
    }
}

/// `res` is what `write` returns for the store's `answer`.
pub open spec fn write_answered(res: Result<(), filesystem::ErrorCode>, answer: Result<(), StoreError>) -> bool {
    match answer {
        Ok(()) => res is Ok,
        Err(e) => res == Err::<(), filesystem::ErrorCode>(store_error_code(e)),
    }
}

/// What `encrypt` returns once the keystore has answered: the transformed buffer and the
/// tag, or the answer's `error-code`.
pub fn encrypt_outcome(
    answer: Result<[u8; TAG_LEN], KeystoreError>,
    ciphertext: Vec<u8>,
) -> (res: Result<(Vec<u8>, Vec<u8>), keystore::ErrorCode>)
    ensures
        encrypt_answered(res, answer, ciphertext@),
{
    match answer {
        Ok(tag) => Ok((ciphertext, vstd::slice::slice_to_vec(tag.as_slice()))),
        Err(e) => Err(to_error_code(e)),
    }
}

/// What `decrypt` returns once the keystore has answered: the transformed buffer, or the
/// answer's `error-code`.
pub fn decrypt_outcome(
    answer: Result<(), KeystoreError>,
    plaintext: Vec<u8>,
) -> (res: Result<Vec<u8>, keystore::ErrorCode>)
    ensures
        decrypt_answered(res, answer, plaintext@),
{
    match answer {
        Ok(()) => Ok(plaintext),
        Err(e) => Err(to_error_code(e)),
    }
}

/// What `sign` returns once the keystore has answered: the signature, or the answer's
/// `error-code`.
pub fn sign_outcome(answer: Result<Vec<u8>, KeystoreError>) -> (res: Result<Vec<u8>, keystore::ErrorCode>)
    ensures
        sign_answered(res, answer),
{
    match answer {
        Ok(sig) => Ok(sig),
        Err(e) => Err(to_error_code(e)),
    }
}

/// The prefix of `buffer` a read reported: its first `n` bytes, or all of it when `n` is
/// larger.
pub open spec fn read_prefix(buffer: Seq<u8>, n: usize) -> Seq<u8> {
    if n < buffer.len() {
        buffer.take(n as int)
    } else {
        buffer
    }
}

/// What `read` returns once the store has answered: the prefix of `buffer` the store filled;
/// an empty file for a file never written to (an unwritten file is an empty file, not an
/// error the guest can act on); otherwise the answer's `error-code`.
pub fn read_outcome(answer: Result<usize, StoreError>, buffer: Vec<u8>) -> (res: Result<Vec<u8>, filesystem::ErrorCode>)
    ensures
        read_answered(res, answer, buffer@),
{
    match answer {
        Ok(n) => {
            let mut data = buffer;
            data.truncate(n);
            assert(data@ =~= read_prefix(buffer@, n));
            Ok(data)
        },
        Err(StoreError::FileEmpty) => Ok(Vec::new()),
        Err(e) => Err(to_fs_error_code(e)),
    }
}

/// What `write` returns once the store has answered.
pub fn write_outcome(answer: Result<(), StoreError>) -> (res: Result<(), filesystem::ErrorCode>)
    ensures
        write_answered(res, answer),
{
    match answer {
        Ok(()) => Ok(()),
        Err(e) => Err(to_fs_error_code(e)),
    }
}

// -------------------------------------------------------------------------------------
// The capability manifest (the runtime-side contract only)
// -------------------------------------------------------------------------------------

/// A link-scoped clock grant: a time source plus the resolution to report for it.
pub struct MonotonicClock {
    /// Nanoseconds since an arbitrary monotonic epoch.
    pub now_ns: Box<dyn TimeSource>,
    /// The tick period of `now_ns`, reported by `resolution()`.
    pub resolution_ns: u64,
}

/// The host facilities one component instance was granted: one record per resource-scoped
/// grant, one yes/no per link-scoped facility.
pub struct GrantManifest {
    /// Resource-scoped keystore grants, positional with holes: slot `n` is
    /// `keystore.open(n)`, and `None` is a declined role that reads as `none` just like an
    /// ungranted slot. An empty vec means the manifest did not declare `keystore` at all (the
    /// interface is left unlinked); a non-empty vec of all `None` means it declared roles that
    /// were all declined (linked, every `open` returns `none`).
    pub keystore_keys: Vec<Option<HostCapability>>,
    /// Resource-scoped filesystem grants — the same positional-with-holes meaning.
    pub filesystem_files: Vec<Option<HostFile>>,
    /// Link-scoped: `Some` links `monotonic-clock`; `None` leaves it unlinked, so a component
    /// that imports it fails to instantiate.
    pub monotonic_clock: Option<MonotonicClock>,
}

impl Default for GrantManifest {
    fn default() -> (manifest: Self)
        ensures
            manifest.keystore_keys@.len() == 0,
            manifest.filesystem_files@.len() == 0,
            manifest.monotonic_clock is None,
    {
        GrantManifest {
            keystore_keys: Vec::new(),
            filesystem_files: Vec::new(),
            monotonic_clock: None,
        }
    }
}

/// Which interfaces a linker for a component links.
#[derive(Clone, Copy, Debug, PartialEq, Eq, Structural)]
pub struct LinkPlan {
    pub monotonic_clock: bool,
    pub keystore: bool,
    pub filesystem: bool,
}

impl GrantManifest {
    /// A manifest granting nothing — a component importing any host interface fails to
    /// instantiate against it.
    pub fn nothing() -> (manifest: Self)
        ensures
            manifest.keystore_keys@.len() == 0,
            manifest.filesystem_files@.len() == 0,
            manifest.monotonic_clock is None,
    {
        GrantManifest::default()
    }

    /// The link-or-refuse decision: a resource-scoped interface is linked exactly when the
    /// manifest declared it (its slot vec is non-empty, even if every slot is declined), a
    /// link-scoped interface exactly when the manifest grants the facility. An imported
    /// interface that is left unlinked makes the component fail to instantiate.
    pub fn link_plan(&self) -> (plan: LinkPlan)
        ensures
            plan.monotonic_clock == self.monotonic_clock is Some,
            plan.keystore == (self.keystore_keys@.len() != 0),
            plan.filesystem == (self.filesystem_files@.len() != 0),
    {
        LinkPlan {
            monotonic_clock: self.monotonic_clock.is_some(),
            keystore: self.keystore_keys.len() != 0,
            filesystem: self.filesystem_files.len() != 0,
        }
    }
}

// -------------------------------------------------------------------------------------
// Per-component state and the host side of the interfaces
// -------------------------------------------------------------------------------------

/// The key capability a `keystore` handle resolves to in `handles`, or `access`: a handle
/// that was never handed out, was dropped, or backs a file reads as a denial.
pub open spec fn key_lookup(handles: Map<u32, Option<TableEntry>>, handle: u32) -> Result<HostCapability, keystore::ErrorCode> {
    match handles.get(handle) {
        Some(Some(TableEntry::Key(cap))) => Ok(cap),
        _ => Err(keystore::ErrorCode::Access),
    }
}

/// The file capability a `filesystem` handle resolves to in `handles`, or `access`.
pub open spec fn file_lookup(handles: Map<u32, Option<TableEntry>>, handle: u32) -> Result<HostFile, filesystem::ErrorCode> {
    match handles.get(handle) {
        Some(Some(TableEntry::File(cap))) => Ok(cap),
        _ => Err(filesystem::ErrorCode::Access),
    }
}

/// The state behind one component instance: the resource table its handles index, the
/// manifest's grants those handles come from, the services the handles forward to, and the
/// clock grant.
pub struct RuntimeState<K = Box<dyn KeystoreService>, F = Box<dyn FilesystemService>> {
    table: wasmtime::component::ResourceTable,
    keys: Vec<Option<HostCapability>>,
    files: Vec<Option<HostFile>>,
    keystore: Option<K>,
    filesystem: Option<F>,
    clock: Option<MonotonicClock>,
}

impl<K: KeystoreService, F: FilesystemService> RuntimeState<K, F> {
    /// What each live handle resolves to.
    pub closed spec fn handles(&self) -> Map<u32, Option<TableEntry>> {
        table_entries(self.table)
    }

    /// The manifest's keystore slots.
    pub closed spec fn key_grants(&self) -> Seq<Option<HostCapability>> {
        self.keys@
    }

    /// The manifest's filesystem slots.
    pub closed spec fn file_grants(&self) -> Seq<Option<HostFile>> {
        self.files@
    }

    pub open spec fn has_keystore(&self) -> bool {
        self.keystore_service() is Some
    }

    pub open spec fn has_filesystem(&self) -> bool {
        self.filesystem_service() is Some
    }

    pub closed spec fn has_clock(&self) -> bool {
        self.clock is Some
    }

    /// What the granted clock's source has answered so far (meaningful when a clock is
    /// granted).
    pub closed spec fn clock_readings(&self) -> Seq<u64> {
        self.clock->Some_0.now_ns.readings()
    }

    /// The granted clock's resolution (meaningful when a clock is granted).
    pub closed spec fn clock_resolution(&self) -> u64 {
        self.clock.unwrap().resolution_ns
    }

    /// The table holds as many handles as it ever will: one more `open` is refused.
    pub open spec fn table_full(&self) -> bool {
        self.handles().dom().len() >= default_max_capacity()
    }

    /// Every live handle resolves to a record the manifest placed in one of its slots:
    /// handles are never manufactured.
    pub open spec fn handles_are_granted(&self) -> bool {
        forall|h: u32| #[trigger] self.handles().contains_key(h) ==> self.is_granted(self.handles()[h])
    }

    /// `held` is a record one of the manifest's slots holds.
    pub open spec fn is_granted(&self, held: Option<TableEntry>) -> bool {
        match held {
            Some(TableEntry::Key(cap)) => self.key_grants().contains(Some(cap)),
            Some(TableEntry::File(cap)) => self.file_grants().contains(Some(cap)),
            None => false,
        }
    }

    /// The state's invariant.
    pub closed spec fn wf(&self) -> bool {
        &&& self.handles().dom().finite()
        &&& table_max_capacity(self.table) == default_max_capacity()
        &&& self.handles().dom().len() <= table_slot_count(self.table)
        &&& table_slot_count(self.table) <= default_max_capacity()
        &&& table_parents(self.table) == Set::<u32>::empty()
        &&& self.handles_are_granted()
    }

    /// Handles are never manufactured: in any well-formed state, every live handle resolves
    /// to a record that one of the manifest's slots holds.
    pub proof fn lemma_handles_come_from_grants(&self)
        requires
            self.wf(),
        ensures
            self.handles_are_granted(),
            forall|h: u32| #[trigger] self.handles().contains_key(h) ==> match self.handles()[h] {
                Some(TableEntry::Key(cap)) => exists|slot: int|
                    0 <= slot < self.key_grants().len() && self.key_grants()[slot] == Some(cap),
                Some(TableEntry::File(cap)) => exists|slot: int|
                    0 <= slot < self.file_grants().len() && self.file_grants()[slot] == Some(cap),
                None => false,
            },
    {
        assert forall|h: u32| #[trigger] self.handles().contains_key(h) implies match self.handles()[h] {
            Some(TableEntry::Key(cap)) => exists|slot: int|
                0 <= slot < self.key_grants().len() && self.key_grants()[slot] == Some(cap),
            Some(TableEntry::File(cap)) => exists|slot: int|
                0 <= slot < self.file_grants().len() && self.file_grants()[slot] == Some(cap),
            None => false,
        } by {
            assert(self.is_granted(self.handles()[h]));
        }
    }

    /// The attached keystore, if any.
    pub closed spec fn keystore_service(&self) -> Option<K> {
        self.keystore
    }

    /// The attached store, if any.
    pub closed spec fn filesystem_service(&self) -> Option<F> {
        self.filesystem
    }

    /// The calls the attached keystore has answered (meaningful when one is attached).
    pub open spec fn keystore_calls(&self) -> Seq<KeystoreCall> {
        self.keystore_service()->Some_0.calls()
    }

    /// The calls the attached store has answered (meaningful when one is attached).
    pub open spec fn filesystem_calls(&self) -> Seq<FilesystemCall> {
        self.filesystem_service()->Some_0.calls()
    }

    /// `after` is this state once one call was forwarded to the keystore: the keystore has
    /// answered exactly one more call, and the handles, the grants and the store are as they
    /// were.
    pub open spec fn keystore_answered_one(&self, after: &Self) -> bool {
        &&& after.handles() == self.handles()
        &&& after.same_grants(self)
        &&& after.filesystem_service() == self.filesystem_service()
        &&& after.keystore_calls().len() == self.keystore_calls().len() + 1
        &&& after.keystore_calls().drop_last() == self.keystore_calls()
    }

    /// `after` is this state once one call was forwarded to the store: the store has answered
    /// exactly one more call, and the handles, the grants and the keystore are as they were.
    pub open spec fn store_answered_one(&self, after: &Self) -> bool {
        &&& after.handles() == self.handles()
        &&& after.same_grants(self)
        &&& after.keystore_service() == self.keystore_service()
        &&& after.filesystem_calls().len() == self.filesystem_calls().len() + 1
        &&& after.filesystem_calls().drop_last() == self.filesystem_calls()
    }

    /// `encrypt(handle, nonce, aad, plaintext)` was forwarded: the keystore's one new call is
    /// an encrypt with the handle's badge and key and exactly these arguments, and `res` is
    /// what its answer maps to.
    pub open spec fn encrypt_forwarded(&self, after: &Self, handle: u32, nonce: Seq<u8>, aad: Seq<u8>, plaintext: Seq<u8>, res: Result<(Vec<u8>, Vec<u8>), keystore::ErrorCode>) -> bool {
        let cap = key_lookup(self.handles(), handle)->Ok_0;
        &&& self.keystore_answered_one(after)
        &&& match after.keystore_calls().last() {
            KeystoreCall::Encrypt { badge, key, nonce: n, aad: a, plaintext: p, ciphertext, answer } => {
                &&& badge == cap.badge()
                &&& key == cap.key()
                &&& n == nonce
                &&& a == aad
                &&& p == plaintext
                &&& ciphertext.len() == plaintext.len()
                &&& encrypt_answered(res, answer, ciphertext)
            },
            _ => false,
        }
    }

    /// `decrypt(handle, nonce, aad, ciphertext, tag)` was forwarded: the keystore's one new
    /// call is a decrypt with the handle's badge and key and exactly these arguments, and
    /// `res` is what its answer maps to.
    pub open spec fn decrypt_forwarded(&self, after: &Self, handle: u32, nonce: Seq<u8>, aad: Seq<u8>, ciphertext: Seq<u8>, tag: Seq<u8>, res: Result<Vec<u8>, keystore::ErrorCode>) -> bool {
        let cap = key_lookup(self.handles(), handle)->Ok_0;
        &&& self.keystore_answered_one(after)
        &&& match after.keystore_calls().last() {
            KeystoreCall::Decrypt { badge, key, nonce: n, aad: a, tag: t, ciphertext: c, plaintext, answer } => {
                &&& badge == cap.badge()
                &&& key == cap.key()
                &&& n == nonce
                &&& a == aad
                &&& t == tag
                &&& c == ciphertext
                &&& plaintext.len() == ciphertext.len()
                &&& decrypt_answered(res, answer, plaintext)
            },
            _ => false,
        }
    }

    /// `sign(handle, message)` was forwarded: the keystore's one new call is a sign with the
    /// handle's badge and key and exactly this message, and `res` is what its answer maps to.
    pub open spec fn sign_forwarded(&self, after: &Self, handle: u32, message: Seq<u8>, res: Result<Vec<u8>, keystore::ErrorCode>) -> bool {
        let cap = key_lookup(self.handles(), handle)->Ok_0;
        &&& self.keystore_answered_one(after)
        &&& match after.keystore_calls().last() {
            KeystoreCall::Sign { badge, key, message: m, answer } => {
                &&& badge == cap.badge()
                &&& key == cap.key()
                &&& m == message
                &&& sign_answered(res, answer)
            },
            _ => false,
        }
    }

    /// `read(handle)` was forwarded: the store's one new call is a read with the handle's
    /// badge and file into a zeroed buffer of one block, and `res` is what its answer maps to
    /// over what the store left in that buffer.
    pub open spec fn read_forwarded(&self, after: &Self, handle: u32, res: Result<Vec<u8>, filesystem::ErrorCode>) -> bool {
        let cap = file_lookup(self.handles(), handle)->Ok_0;
        &&& self.store_answered_one(after)
        &&& match after.filesystem_calls().last() {
            FilesystemCall::Read { badge, file, given, filled, answer } => {
                &&& badge == cap.badge()
                &&& file == cap.file()
                &&& given == Seq::new(MAX_BLOCK_LEN as nat, |i: int| 0u8)
                &&& filled.len() == MAX_BLOCK_LEN
                &&& read_answered(res, answer, filled)
            },
            _ => false,
        }
    }

    /// `write(handle, data)` was forwarded: the store's one new call is a write with the
    /// handle's badge and file and exactly these bytes, and `res` is what its answer maps to.
    pub open spec fn write_forwarded(&self, after: &Self, handle: u32, data: Seq<u8>, res: Result<(), filesystem::ErrorCode>) -> bool {
        let cap = file_lookup(self.handles(), handle)->Ok_0;
        &&& self.store_answered_one(after)
        &&& match after.filesystem_calls().last() {
            FilesystemCall::Write { badge, file, data: d, answer } => {
                &&& badge == cap.badge()
                &&& file == cap.file()
                &&& d == data
                &&& write_answered(res, answer)
            },
            _ => false,
        }
    }

    /// The attached services are the very ones attached in `other`, untouched.
    pub open spec fn same_services(&self, other: &Self) -> bool {
        &&& self.keystore_service() == other.keystore_service()
        &&& self.filesystem_service() == other.filesystem_service()
    }

    /// The grants, which services are attached, and the clock with what it has read are what
    /// they were in `other`.
    pub open spec fn same_grants(&self, other: &Self) -> bool {
        &&& self.key_grants() == other.key_grants()
        &&& self.file_grants() == other.file_grants()
        &&& self.has_keystore() == other.has_keystore()
        &&& self.has_filesystem() == other.has_filesystem()
        &&& self.has_clock() == other.has_clock()
        &&& self.clock_resolution() == other.clock_resolution()
        &&& self.clock_readings() == other.clock_readings()
    }

    /// The state for `manifest`, with no service backends attached yet and no handle out.
    pub fn new(manifest: GrantManifest) -> (state: Self)
        ensures
            state.wf(),
            state.handles().is_empty(),
            state.key_grants() == manifest.keystore_keys@,
            state.file_grants() == manifest.filesystem_files@,
            !state.has_keystore(),
            !state.has_filesystem(),
            state.has_clock() == manifest.monotonic_clock is Some,
            manifest.monotonic_clock matches Some(clock) ==> state.clock_resolution()
                == clock.resolution_ns,
            manifest.monotonic_clock matches Some(clock) ==> state.clock_readings()
                == clock.now_ns.readings(),
    {
        let table = table_new();
        let state = RuntimeState {
            table,
            keys: manifest.keystore_keys,
            files: manifest.filesystem_files,
            keystore: None,
            filesystem: None,
            clock: manifest.monotonic_clock,
        };
        assert(state.handles().dom() =~= Set::<u32>::empty());
        state
    }

    /// Attaches the service the `key` handles forward to.
    pub fn with_keystore(self, keystore: K) -> (state: Self)
        requires
            self.wf(),
        ensures
            state.wf(),
            state.handles() == self.handles(),
            state.keystore_service() == Some(keystore),
            state.has_keystore(),
            state.keystore_calls() == keystore.calls(),
            state.filesystem_service() == self.filesystem_service(),
            state.filesystem_calls() == self.filesystem_calls(),
            state.key_grants() == self.key_grants(),
            state.file_grants() == self.file_grants(),
            state.has_filesystem() == self.has_filesystem(),
            state.has_clock() == self.has_clock(),
            state.clock_resolution() == self.clock_resolution(),
            state.clock_readings() == self.clock_readings(),
    {
        let mut state = self;
        state.keystore = Some(keystore);
        state
    }

    /// Attaches the service the `file` handles forward to.
    pub fn with_filesystem(self, filesystem: F) -> (state: Self)
        requires
            self.wf(),
        ensures
            state.wf(),
            state.handles() == self.handles(),
            state.filesystem_service() == Some(filesystem),
            state.has_filesystem(),
            state.filesystem_calls() == filesystem.calls(),
            state.keystore_service() == self.keystore_service(),
            state.keystore_calls() == self.keystore_calls(),
            state.key_grants() == self.key_grants(),
            state.file_grants() == self.file_grants(),
            state.has_keystore() == self.has_keystore(),
            state.has_clock() == self.has_clock(),
            state.clock_resolution() == self.clock_resolution(),
            state.clock_readings() == self.clock_readings(),
    {
        let mut state = self;
        state.filesystem = Some(filesystem);
        state
    }

    /// Whether a clock was granted (the `monotonic-clock` interface is linked exactly then).
    pub fn clock_granted(&self) -> (granted: bool)
        ensures
            granted == self.has_clock(),
    {
        self.clock.is_some()
    }

    /// The key capability `handle` resolves to — the badge and key every `keystore` call on
    /// it is forwarded with — or `access` for a handle that does not resolve to one (never
    /// handed out, dropped, or backing a file).
    pub fn keystore_cap(&self, handle: u32) -> (res: Result<HostCapability, keystore::ErrorCode>)
        ensures
            res == key_lookup(self.handles(), handle),
    {
        match table_get(&self.table, handle) {
            Ok(TableEntry::Key(cap)) => Ok(cap),
            _ => Err(keystore::ErrorCode::Access),
        }
    }

    /// The file capability `handle` resolves to — the badge and file every `filesystem` call
    /// on it is forwarded with — or `access` for a handle that does not resolve to one.
    pub fn file_cap(&self, handle: u32) -> (res: Result<HostFile, filesystem::ErrorCode>)
        ensures
            res == file_lookup(self.handles(), handle),
    {
        match table_get(&self.table, handle) {
            Ok(TableEntry::File(cap)) => Ok(cap),
            _ => Err(filesystem::ErrorCode::Access),
        }
    }

    // ---- keystore ---------------------------------------------------------------------

    /// `keystore.open(slot)`: a fresh handle backed by the record the manifest placed at
    /// `slot` — the only way a guest obtains a key handle. An ungranted or declined slot, or a
    /// full table, reads as `none`.
    pub fn open_key(&mut self, slot: u32) -> (res: Option<u32>)
        requires
            old(self).wf(),
        ensures
            final(self).wf(),
            final(self).same_grants(old(self)),
            final(self).same_services(old(self)),
            match res {
                Some(handle) => {
                    &&& slot < old(self).key_grants().len()
                    &&& old(self).key_grants()[slot as int] is Some
                    &&& !old(self).handles().contains_key(handle)
                    &&& !old(self).table_full()
                    &&& final(self).handles() == old(self).handles().insert(
                        handle,
                        Some(TableEntry::Key(old(self).key_grants()[slot as int].unwrap())),
                    )
                },
                None => {
                    &&& final(self).handles() == old(self).handles()
                    &&& (slot >= old(self).key_grants().len()
                        || old(self).key_grants()[slot as int] is None
                        || old(self).table_full())
                },
            },
    {
        let index = slot as usize;
        if index >= self.keys.len() {
            return None;
        }
        match self.keys[index] {
            None => None,
            Some(cap) => {
                let pushed = table_push(&mut self.table, TableEntry::Key(cap));
                proof {
                    assert(self.key_grants()[slot as int] == Some(cap));
                    assert(self.handles_are_granted()) by {
                        assert forall|h: u32| #[trigger] self.handles().contains_key(h)
                            implies self.is_granted(self.handles()[h]) by {
                            if pushed is Err || h != pushed->Ok_0 {
                                assert(old(self).handles().contains_key(h));
                            }
                        }
                    }
                }
                match pushed {
                    Ok(handle) => Some(handle),
                    Err(_) => None,
                }
            },
        }
    }

    /// Dropping a `key` handle: its table entry is removed, so the handle no longer resolves.
    pub fn drop_key(&mut self, handle: u32) -> (res: Result<(), TableError>)
        requires
            old(self).wf(),
        ensures
            final(self).wf(),
            final(self).same_grants(old(self)),
            final(self).same_services(old(self)),
            match old(self).handles().get(handle) {
                None => {
                    &&& res == Err::<(), TableError>(TableError::NotPresent)
                    &&& final(self).handles() == old(self).handles()
                },
                Some(held) => {
                    &&& final(self).handles() == old(self).handles().remove(handle)
                    &&& !final(self).table_full()
                    &&& (res is Ok <==> held matches Some(TableEntry::Key(_)))
                    &&& res is Err ==> res == Err::<(), TableError>(TableError::WrongType)
                },
            },
    {
        let deleted = table_delete(&mut self.table, handle);
        proof {
            assert(table_parents(self.table) =~= Set::<u32>::empty());
            assert(self.handles_are_granted()) by {
                assert forall|h: u32| #[trigger] self.handles().contains_key(h)
                    implies self.is_granted(self.handles()[h]) by {
                    assert(old(self).handles().contains_key(h));
                }
            }
        }
        match deleted {
            Ok(TableEntry::Key(_)) => Ok(()),
            Ok(TableEntry::File(_)) => Err(TableError::WrongType),
            Err(e) => Err(e),
        }
    }

    /// Whether `encrypt` on `handle` with a nonce of `nonce_len` bytes is refused before the
    /// keystore is consulted, and with which code: a handle that does not resolve to a key
    /// capability, or one whose record does not name the keystore, is `access`; a wrong-length
    /// nonce is `invalid`; no keystore attached is `access`.
    pub open spec fn encrypt_refusal(&self, handle: u32, nonce_len: nat) -> Option<keystore::ErrorCode> {
        match key_lookup(self.handles(), handle) {
            Err(code) => Some(code),
            Ok(cap) => if cap.service() != ServiceEndpoint::Keystore {
                Some(keystore::ErrorCode::Access)
            } else if nonce_len != NONCE_LEN {
                Some(keystore::ErrorCode::Invalid)
            } else if !self.has_keystore() {
                Some(keystore::ErrorCode::Access)
            } else {
                None
            },
        }
    }

    /// `key.encrypt(nonce, aad, plaintext)`: forwarded to the keystore with the handle's
    /// badge and key; returns the ciphertext and the tag.
    pub fn encrypt(&mut self, handle: u32, nonce: Vec<u8>, aad: Vec<u8>, plaintext: Vec<u8>) -> (res: Result<(Vec<u8>, Vec<u8>), keystore::ErrorCode>)
        requires
            old(self).wf(),
        ensures
            final(self).wf(),
            match old(self).encrypt_refusal(handle, nonce@.len()) {
                Some(code) => {
                    &&& res == Err::<(Vec<u8>, Vec<u8>), keystore::ErrorCode>(code)
                    &&& *final(self) == *old(self)
                },
                None => old(self).encrypt_forwarded(final(self), handle, nonce@, aad@, plaintext@, res),
            },
            res matches Ok((ciphertext, tag)) ==> ciphertext@.len() == plaintext@.len() && tag@.len() == TAG_LEN,
    {
        let cap = match self.keystore_cap(handle) {
            Ok(cap) => cap,
            Err(code) => return Err(code),
        };
        match cap.service {
            ServiceEndpoint::Keystore => {},
            _ => return Err(keystore::ErrorCode::Access),
        }
        let nonce = match fixed_len::<NONCE_LEN>(nonce.as_slice()) {
            Ok(nonce) => nonce,
            Err(code) => return Err(code),
        };
        match &mut self.keystore {
            None => Err(keystore::ErrorCode::Access),
            Some(service) => {
                let mut buffer = plaintext;
                let answer = service.encrypt(cap.badge, cap.key, &nonce, aad.as_slice(), buffer.as_mut_slice());
                proof {
                    assert(self.keystore_calls().drop_last() =~= old(self).keystore_calls());
                }
                encrypt_outcome(answer, buffer)
            },
        }
    }

    /// Whether `decrypt` is refused before the keystore is consulted, and with which code:
    /// as for `encrypt`, and a wrong-length tag is `invalid` too.
    pub open spec fn decrypt_refusal(&self, handle: u32, nonce_len: nat, tag_len: nat) -> Option<keystore::ErrorCode> {
        match key_lookup(self.handles(), handle) {
            Err(code) => Some(code),
            Ok(cap) => if cap.service() != ServiceEndpoint::Keystore {
                Some(keystore::ErrorCode::Access)
            } else if nonce_len != NONCE_LEN || tag_len != TAG_LEN {
                Some(keystore::ErrorCode::Invalid)
            } else if !self.has_keystore() {
                Some(keystore::ErrorCode::Access)
            } else {
                None
            },
        }
    }

    /// `key.decrypt(nonce, aad, ciphertext, tag)`: forwarded to the keystore with the
    /// handle's badge and key; returns the plaintext.
    pub fn decrypt(&mut self, handle: u32, nonce: Vec<u8>, aad: Vec<u8>, ciphertext: Vec<u8>, tag: Vec<u8>) -> (res: Result<Vec<u8>, keystore::ErrorCode>)
        requires
            old(self).wf(),
        ensures
            final(self).wf(),
            match old(self).decrypt_refusal(handle, nonce@.len(), tag@.len()) {
                Some(code) => {
                    &&& res == Err::<Vec<u8>, keystore::ErrorCode>(code)
                    &&& *final(self) == *old(self)
                },
                None => old(self).decrypt_forwarded(final(self), handle, nonce@, aad@, ciphertext@, tag@, res),
            },
            res matches Ok(plaintext) ==> plaintext@.len() == ciphertext@.len(),
    {
        let cap = match self.keystore_cap(handle) {
            Ok(cap) => cap,
            Err(code) => return Err(code),
        };
        match cap.service {
            ServiceEndpoint::Keystore => {},
            _ => return Err(keystore::ErrorCode::Access),
        }
        let nonce = match fixed_len::<NONCE_LEN>(nonce.as_slice()) {
            Ok(nonce) => nonce,
            Err(code) => return Err(code),
        };
        let tag = match fixed_len::<TAG_LEN>(tag.as_slice()) {
            Ok(tag) => tag,
            Err(code) => return Err(code),
        };
        match &mut self.keystore {
            None => Err(keystore::ErrorCode::Access),
            Some(service) => {
                let mut buffer = ciphertext;
                let answer = service.decrypt(cap.badge, cap.key, &nonce, aad.as_slice(), buffer.as_mut_slice(), &tag);
                proof {
                    assert(self.keystore_calls().drop_last() =~= old(self).keystore_calls());
                }
                decrypt_outcome(answer, buffer)
            },
        }
    }

    /// Whether `sign` is refused before the keystore is consulted, and with which code.
    pub open spec fn sign_refusal(&self, handle: u32) -> Option<keystore::ErrorCode> {
        match key_lookup(self.handles(), handle) {
            Err(code) => Some(code),
            Ok(cap) => if cap.service() != ServiceEndpoint::Keystore {
                Some(keystore::ErrorCode::Access)
            } else if !self.has_keystore() {
                Some(keystore::ErrorCode::Access)
            } else {
                None
            },
        }
    }

    /// `key.sign(message)`: forwarded to the keystore with the handle's badge and key.
    pub fn sign(&mut self, handle: u32, message: Vec<u8>) -> (res: Result<Vec<u8>, keystore::ErrorCode>)
        requires
            old(self).wf(),
        ensures
            final(self).wf(),
            match old(self).sign_refusal(handle) {
                Some(code) => {
                    &&& res == Err::<Vec<u8>, keystore::ErrorCode>(code)
                    &&& *final(self) == *old(self)
                },
                None => old(self).sign_forwarded(final(self), handle, message@, res),
            },
    {
        let cap = match self.keystore_cap(handle) {
            Ok(cap) => cap,
            Err(code) => return Err(code),
        };
        match cap.service {
            ServiceEndpoint::Keystore => {},
            _ => return Err(keystore::ErrorCode::Access),
        }
        match &mut self.keystore {
            None => Err(keystore::ErrorCode::Access),
            Some(service) => {
                let answer = service.sign(cap.badge, cap.key, message.as_slice());
                proof {
                    assert(self.keystore_calls().drop_last() =~= old(self).keystore_calls());
                }
                sign_outcome(answer)
            },
        }
    }

    // ---- filesystem -------------------------------------------------------------------

    /// `filesystem.open(slot)`: a fresh handle backed by the record the manifest placed at
    /// `slot` — the only way a guest obtains a file handle; there is no path or directory
    /// namespace. An ungranted or declined slot, or a full table, reads as `none`.
    pub fn open_file(&mut self, slot: u32) -> (res: Option<u32>)
        requires
            old(self).wf(),
        ensures
            final(self).wf(),
            final(self).same_grants(old(self)),
            final(self).same_services(old(self)),
            match res {
                Some(handle) => {
                    &&& slot < old(self).file_grants().len()
                    &&& old(self).file_grants()[slot as int] is Some
                    &&& !old(self).handles().contains_key(handle)
                    &&& !old(self).table_full()
                    &&& final(self).handles() == old(self).handles().insert(
                        handle,
                        Some(TableEntry::File(old(self).file_grants()[slot as int].unwrap())),
                    )
                },
                None => {
                    &&& final(self).handles() == old(self).handles()
                    &&& (slot >= old(self).file_grants().len()
                        || old(self).file_grants()[slot as int] is None
                        || old(self).table_full())
                },
            },
    {
        let index = slot as usize;
        if index >= self.files.len() {
            return None;
        }
        match self.files[index] {
            None => None,
            Some(cap) => {
                let pushed = table_push(&mut self.table, TableEntry::File(cap));
                proof {
                    assert(self.file_grants()[slot as int] == Some(cap));
                    assert(self.handles_are_granted()) by {
                        assert forall|h: u32| #[trigger] self.handles().contains_key(h)
                            implies self.is_granted(self.handles()[h]) by {
                            if pushed is Err || h != pushed->Ok_0 {
                                assert(old(self).handles().contains_key(h));
                            }
                        }
                    }
                }
                match pushed {
                    Ok(handle) => Some(handle),
                    Err(_) => None,
                }
            },
        }
    }

    /// Dropping a `file` handle: its table entry is removed, so the handle no longer resolves.
    pub fn drop_file(&mut self, handle: u32) -> (res: Result<(), TableError>)
        requires
            old(self).wf(),
        ensures
            final(self).wf(),
            final(self).same_grants(old(self)),
            final(self).same_services(old(self)),
            match old(self).handles().get(handle) {
                None => {
                    &&& res == Err::<(), TableError>(TableError::NotPresent)
                    &&& final(self).handles() == old(self).handles()
                },
                Some(held) => {
                    &&& final(self).handles() == old(self).handles().remove(handle)
                    &&& !final(self).table_full()
                    &&& (res is Ok <==> held matches Some(TableEntry::File(_)))
                    &&& res is Err ==> res == Err::<(), TableError>(TableError::WrongType)
                },
            },
    {
        let deleted = table_delete(&mut self.table, handle);
        proof {
            assert(table_parents(self.table) =~= Set::<u32>::empty());
            assert(self.handles_are_granted()) by {
                assert forall|h: u32| #[trigger] self.handles().contains_key(h)
                    implies self.is_granted(self.handles()[h]) by {
                    assert(old(self).handles().contains_key(h));
                }
            }
        }
        match deleted {
            Ok(TableEntry::File(_)) => Ok(()),
            Ok(TableEntry::Key(_)) => Err(TableError::WrongType),
            Err(e) => Err(e),
        }
    }

    /// Whether `read` is refused before the store is consulted, and with which code: a
    /// handle that does not resolve to a file capability, or one whose record does not name
    /// the store, is `access`; no store attached is `access`.
    pub open spec fn read_refusal(&self, handle: u32) -> Option<filesystem::ErrorCode> {
        match file_lookup(self.handles(), handle) {
            Err(code) => Some(code),
            Ok(cap) => if cap.service() != ServiceEndpoint::Filesystem {
                Some(filesystem::ErrorCode::Access)
            } else if !self.has_filesystem() {
                Some(filesystem::ErrorCode::Access)
            } else {
                None
            },
        }
    }

    /// `file.read()`: forwarded to the store with the handle's badge and file, into a buffer
    /// of one block; returns what the store filled, and an empty file for one never written.
    pub fn read(&mut self, handle: u32) -> (res: Result<Vec<u8>, filesystem::ErrorCode>)
        requires
            old(self).wf(),
        ensures
            final(self).wf(),
            match old(self).read_refusal(handle) {
                Some(code) => {
                    &&& res == Err::<Vec<u8>, filesystem::ErrorCode>(code)
                    &&& *final(self) == *old(self)
                },
                None => old(self).read_forwarded(final(self), handle, res),
            },
            res matches Ok(data) ==> data@.len() <= MAX_BLOCK_LEN,
    {
        let cap = match self.file_cap(handle) {
            Ok(cap) => cap,
            Err(code) => return Err(code),
        };
        match cap.service {
            ServiceEndpoint::Filesystem => {},
            _ => return Err(filesystem::ErrorCode::Access),
        }
        match &mut self.filesystem {
            None => Err(filesystem::ErrorCode::Access),
            Some(service) => {
                let mut buffer = vec![0u8; MAX_BLOCK_LEN];
                assert(buffer@ =~= Seq::new(MAX_BLOCK_LEN as nat, |i: int| 0u8));
                let answer = service.read(cap.badge, cap.file, buffer.as_mut_slice());
                proof {
                    assert(self.filesystem_calls().drop_last() =~= old(self).filesystem_calls());
                }
                read_outcome(answer, buffer)
            },
        }
    }

    /// Whether `write` of `len` bytes is refused before the store is consulted, and with
    /// which code: as for `read`, and more than one block of data is `invalid` (checked before
    /// the store is attached or consulted).
    pub open spec fn write_refusal(&self, handle: u32, len: nat) -> Option<filesystem::ErrorCode> {
        match file_lookup(self.handles(), handle) {
            Err(code) => Some(code),
            Ok(cap) => if cap.service() != ServiceEndpoint::Filesystem {
                Some(filesystem::ErrorCode::Access)
            } else if len > MAX_BLOCK_LEN {
                Some(filesystem::ErrorCode::Invalid)
            } else if !self.has_filesystem() {
                Some(filesystem::ErrorCode::Access)
            } else {
                None
            },
        }
    }

    /// `file.write(bytes)`: forwarded to the store with the handle's badge and file.
    pub fn write(&mut self, handle: u32, bytes: Vec<u8>) -> (res: Result<(), filesystem::ErrorCode>)
        requires
            old(self).wf(),
        ensures
            final(self).wf(),
            match old(self).write_refusal(handle, bytes@.len()) {
                Some(code) => {
                    &&& res == Err::<(), filesystem::ErrorCode>(code)
                    &&& *final(self) == *old(self)
                },
                None => old(self).write_forwarded(final(self), handle, bytes@, res),
            },
    {
        let cap = match self.file_cap(handle) {
            Ok(cap) => cap,
            Err(code) => return Err(code),
        };
        match cap.service {
            ServiceEndpoint::Filesystem => {},
            _ => return Err(filesystem::ErrorCode::Access),
        }
        if bytes.len() > MAX_BLOCK_LEN {
            return Err(filesystem::ErrorCode::Invalid);
        }
        match &mut self.filesystem {
            None => Err(filesystem::ErrorCode::Access),
            Some(service) => {
                let answer = service.write(cap.badge, cap.file, bytes.as_slice());
                proof {
                    assert(self.filesystem_calls().drop_last() =~= old(self).filesystem_calls());
                }
                write_outcome(answer)
            },
        }
    }

    // ---- monotonic clock --------------------------------------------------------------

    /// `monotonic-clock.now()`: the granted time source's reading. The interface is linked
    /// only when a clock was granted.
    pub fn now(&mut self) -> (ns: u64)
        requires
            old(self).wf(),
            old(self).has_clock(),
        ensures
            final(self).wf(),
            final(self).handles() == old(self).handles(),
            final(self).key_grants() == old(self).key_grants(),
            final(self).file_grants() == old(self).file_grants(),
            final(self).same_services(old(self)),
            final(self).has_clock(),
            final(self).clock_resolution() == old(self).clock_resolution(),
            final(self).clock_readings() == old(self).clock_readings().push(ns),
    {
        match &mut self.clock {
            Some(clock) => clock.now_ns.now_ns(),
            None => {
                proof {
                    assert(false);
                }
                0
            },
        }
    }

    /// `monotonic-clock.resolution()`: the granted clock's tick period.
    pub fn resolution(&mut self) -> (ns: u64)
        requires
            old(self).wf(),
            old(self).has_clock(),
        ensures
            *final(self) == *old(self),
            ns == old(self).clock_resolution(),
    {
        let clock = self.clock.as_ref().unwrap();
        clock.resolution_ns
    }
}

} // verus!
