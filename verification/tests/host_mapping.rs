use std::sync::{Arc, Mutex};

use lantern_runtime::filesystem;
use lantern_runtime::host::{read_outcome, to_error_code, to_fs_error_code, fixed_len};
use lantern_runtime::keystore::ErrorCode;
use lantern_runtime::services::{
    ChannelError, FileId, KeyId, KeystoreError, RemoteRefusal, StoreError, MAX_BLOCK_LEN, NONCE_LEN,
    TAG_LEN,
};
use lantern_runtime::table::TableError;
use lantern_runtime::{
    FilesystemService, GrantManifest, HostCapability, HostFile, KeystoreService, LinkPlan,
    MonotonicClock, RuntimeState, SingleThreadCell, TimeSource,
};

/// The state with boxed services of any kind.
type State = RuntimeState;

// ---------------------------------------------------------------------------------
// Service doubles
// ---------------------------------------------------------------------------------

struct AlwaysErr(KeystoreError);

impl KeystoreService for AlwaysErr {
    fn encrypt(&mut self, _: u64, _: KeyId, _: &[u8; NONCE_LEN], _: &[u8], _: &mut [u8]) -> Result<[u8; TAG_LEN], KeystoreError> {
        Err(self.0)
    }
    fn decrypt(&mut self, _: u64, _: KeyId, _: &[u8; NONCE_LEN], _: &[u8], _: &mut [u8], _: &[u8; TAG_LEN]) -> Result<(), KeystoreError> {
        Err(self.0)
    }
    fn sign(&mut self, _: u64, _: KeyId, _: &[u8]) -> Result<Vec<u8>, KeystoreError> {
        Err(self.0)
    }
}

/// Records what badge/key each call forwarded, then succeeds.
#[derive(Clone, Default)]
struct Spy(Arc<Mutex<Vec<(u64, KeyId)>>>);

impl KeystoreService for Spy {
    fn encrypt(&mut self, badge: u64, key: KeyId, _: &[u8; NONCE_LEN], _: &[u8], buffer: &mut [u8]) -> Result<[u8; TAG_LEN], KeystoreError> {
        self.0.lock().unwrap().push((badge, key));
        buffer.iter_mut().for_each(|b| *b ^= 0xFF);
        Ok([7u8; TAG_LEN])
    }
    fn decrypt(&mut self, badge: u64, key: KeyId, _: &[u8; NONCE_LEN], _: &[u8], buffer: &mut [u8], _: &[u8; TAG_LEN]) -> Result<(), KeystoreError> {
        self.0.lock().unwrap().push((badge, key));
        buffer.iter_mut().for_each(|b| *b ^= 0xFF);
        Ok(())
    }
    fn sign(&mut self, badge: u64, key: KeyId, message: &[u8]) -> Result<Vec<u8>, KeystoreError> {
        self.0.lock().unwrap().push((badge, key));
        Ok(message.to_vec())
    }
}

/// A store double: every read answers `read`, every write answers `write`, and what each
/// call forwarded is recorded.
struct FakeStore {
    read: Result<Vec<u8>, StoreError>,
    write: Result<(), StoreError>,
    log: Arc<Mutex<Vec<(u64, FileId)>>>,
}

impl FilesystemService for FakeStore {
    fn read(&mut self, badge: u64, file: FileId, buffer: &mut [u8]) -> Result<usize, StoreError> {
        self.log.lock().unwrap().push((badge, file));
        let data = self.read.clone()?;
        buffer[..data.len()].copy_from_slice(&data);
        Ok(data.len())
    }
    fn write(&mut self, badge: u64, file: FileId, _: &[u8]) -> Result<(), StoreError> {
        self.log.lock().unwrap().push((badge, file));
        self.write
    }
}

fn fabricate_key_id() -> KeyId {
    KeyId::from_raw(3)
}

fn state_with(service: impl KeystoreService + 'static, caps: Vec<HostCapability>) -> State {
    State::new(GrantManifest {
        keystore_keys: caps.into_iter().map(Some).collect(),
        filesystem_files: Vec::new(),
        monotonic_clock: None,
    })
    .with_keystore(Box::new(service))
}

fn fs_state_with(store: FakeStore, files: Vec<Option<HostFile>>) -> State {
    State::new(GrantManifest { keystore_keys: Vec::new(), filesystem_files: files, monotonic_clock: None })
        .with_filesystem(Box::new(store))
}

fn fake_store(read: Result<Vec<u8>, StoreError>, write: Result<(), StoreError>) -> (FakeStore, Arc<Mutex<Vec<(u64, FileId)>>>) {
    let log = Arc::new(Mutex::new(Vec::new()));
    (FakeStore { read, write, log: log.clone() }, log)
}

// ---------------------------------------------------------------------------------
// Resource-scoped: handle acquisition
// ---------------------------------------------------------------------------------

#[test]
fn open_returns_a_handle_only_for_a_granted_slot() {
    let cap = HostCapability::keystore_key(0xAB, fabricate_key_id());
    let mut state = state_with(Spy::default(), vec![cap]);

    assert!(state.open_key(0).is_some(), "slot 0 was granted");
    assert!(state.open_key(1).is_none(), "slot 1 was never granted — nothing to forge");
    assert!(state.open_key(u32::MAX).is_none());
}

#[test]
fn a_dropped_handle_no_longer_resolves() {
    let cap = HostCapability::keystore_key(0xAB, fabricate_key_id());
    let mut state = state_with(Spy::default(), vec![cap]);

    let handle = state.open_key(0).unwrap();
    let stale = handle;
    state.drop_key(handle).unwrap();

    assert_eq!(state.sign(stale, b"x".to_vec()), Err(ErrorCode::Access));
}

#[test]
fn a_declined_slot_reads_as_none() {
    let cap = HostCapability::keystore_key(1, fabricate_key_id());
    let mut state = State::new(GrantManifest {
        keystore_keys: vec![None, Some(cap)],
        filesystem_files: Vec::new(),
        monotonic_clock: None,
    });
    assert!(state.open_key(0).is_none());
    assert!(state.open_key(1).is_some());
}

#[test]
fn each_open_hands_out_a_distinct_handle() {
    let cap = HostCapability::keystore_key(1, fabricate_key_id());
    let mut state = state_with(Spy::default(), vec![cap]);
    let first = state.open_key(0).unwrap();
    let second = state.open_key(0).unwrap();
    assert_ne!(first, second);
    assert!(state.sign(first, b"a".to_vec()).is_ok());
    assert!(state.sign(second, b"b".to_vec()).is_ok());
}

#[test]
fn dropping_twice_reports_not_present() {
    let cap = HostCapability::keystore_key(1, fabricate_key_id());
    let mut state = state_with(Spy::default(), vec![cap]);
    let handle = state.open_key(0).unwrap();
    assert_eq!(state.drop_key(handle), Ok(()));
    assert_eq!(state.drop_key(handle), Err(TableError::NotPresent));
}

// ---------------------------------------------------------------------------------
// Resource-scoped: forwarding + error mapping
// ---------------------------------------------------------------------------------

#[test]
fn the_denied_family_of_service_errors_maps_to_access() {
    for err in [
        KeystoreError::UnknownBadge,
        KeystoreError::BadgeRevoked,
        KeystoreError::OpNotGranted,
        KeystoreError::WrongKey,
        KeystoreError::NoSuchKey,
        KeystoreError::KeyDestroyed,
    ] {
        let cap = HostCapability::keystore_key(1, fabricate_key_id());
        let mut state = state_with(AlwaysErr(err), vec![cap]);
        let handle = state.open_key(0).unwrap();
        assert_eq!(state.sign(handle, b"m".to_vec()), Err(ErrorCode::Access), "{err:?}");
    }
}

#[test]
fn a_primitive_level_failure_maps_to_invalid_not_access() {
    let cap = HostCapability::keystore_key(1, fabricate_key_id());
    let mut state = state_with(AlwaysErr(KeystoreError::CryptoFailure), vec![cap]);
    let handle = state.open_key(0).unwrap();
    assert_eq!(
        state.decrypt(handle, vec![0; NONCE_LEN], vec![], vec![1, 2, 3], vec![0; TAG_LEN]),
        Err(ErrorCode::Invalid),
    );
}

#[test]
fn a_wrong_length_nonce_is_rejected_before_the_service_is_consulted() {
    let cap = HostCapability::keystore_key(1, fabricate_key_id());
    let mut state = state_with(AlwaysErr(KeystoreError::OpNotGranted), vec![cap]);
    let handle = state.open_key(0).unwrap();
    assert_eq!(
        state.encrypt(handle, vec![0; NONCE_LEN - 1], vec![], vec![1, 2, 3]),
        Err(ErrorCode::Invalid),
    );
}

#[test]
fn a_wrong_length_tag_is_rejected_before_the_service_is_consulted() {
    let cap = HostCapability::keystore_key(1, fabricate_key_id());
    let mut state = state_with(AlwaysErr(KeystoreError::OpNotGranted), vec![cap]);
    let handle = state.open_key(0).unwrap();
    assert_eq!(
        state.decrypt(handle, vec![0; NONCE_LEN], vec![], vec![1, 2, 3], vec![0; TAG_LEN + 1]),
        Err(ErrorCode::Invalid),
    );
}

#[test]
fn the_badge_behind_the_handle_is_what_gets_forwarded() {
    let key = fabricate_key_id();
    let spy = Spy::default();
    let log = spy.0.clone();
    let cap = HostCapability::keystore_key(0x5151, key);
    let mut state = state_with(spy, vec![cap]);

    let handle = state.open_key(0).unwrap();
    state.sign(handle, b"hello".to_vec()).unwrap();

    assert_eq!(*log.lock().unwrap(), vec![(0x5151, key)]);
}

#[test]
fn encrypt_returns_the_transformed_buffer_and_the_tag() {
    let cap = HostCapability::keystore_key(9, fabricate_key_id());
    let mut state = state_with(Spy::default(), vec![cap]);
    let handle = state.open_key(0).unwrap();
    let (ciphertext, tag) = state.encrypt(handle, vec![9u8; NONCE_LEN], b"aad".to_vec(), vec![0x00, 0x0F]).unwrap();
    assert_eq!(ciphertext, vec![0xFF, 0xF0]);
    assert_eq!(tag, vec![7u8; TAG_LEN]);

    let handle = state.open_key(0).unwrap();
    let plaintext = state.decrypt(handle, vec![9u8; NONCE_LEN], b"aad".to_vec(), ciphertext, tag).unwrap();
    assert_eq!(plaintext, vec![0x00, 0x0F]);
}

#[test]
fn no_keystore_attached_is_access() {
    let cap = HostCapability::keystore_key(1, fabricate_key_id());
    let mut state = State::new(GrantManifest {
        keystore_keys: vec![Some(cap)],
        filesystem_files: Vec::new(),
        monotonic_clock: None,
    });
    let handle = state.open_key(0).unwrap();
    assert_eq!(state.sign(handle, b"m".to_vec()), Err(ErrorCode::Access));
}

#[test]
fn a_remote_access_status_is_access_and_other_remote_or_channel_failures_are_invalid() {
    assert_eq!(to_error_code(KeystoreError::RemoteDenied(RemoteRefusal::Access)), ErrorCode::Access);
    assert_eq!(to_error_code(KeystoreError::RemoteDenied(RemoteRefusal::Other(7))), ErrorCode::Invalid);
    assert_eq!(to_error_code(KeystoreError::Channel(ChannelError::Malformed)), ErrorCode::Invalid);
    assert_eq!(to_error_code(KeystoreError::WrongKeyPurpose), ErrorCode::Invalid);
    assert_eq!(to_error_code(KeystoreError::BadArgument), ErrorCode::Invalid);
    assert_eq!(to_fs_error_code(StoreError::RemoteCryptoDenied(RemoteRefusal::Access)), filesystem::ErrorCode::Access);
    assert_eq!(to_fs_error_code(StoreError::RemoteCryptoDenied(RemoteRefusal::Other(9))), filesystem::ErrorCode::Invalid);
    assert_eq!(to_fs_error_code(StoreError::Kernel(3)), filesystem::ErrorCode::Invalid);
}

#[test]
fn fixed_len_accepts_exactly_n_bytes() {
    assert_eq!(fixed_len::<3>(&[1, 2, 3]), Ok([1, 2, 3]));
    assert_eq!(fixed_len::<3>(&[1, 2]), Err(ErrorCode::Invalid));
    assert_eq!(fixed_len::<3>(&[1, 2, 3, 4]), Err(ErrorCode::Invalid));
}

// ---------------------------------------------------------------------------------
// Resource-scoped: filesystem
// ---------------------------------------------------------------------------------

#[test]
fn file_open_returns_a_handle_only_for_a_granted_slot() {
    let file = HostFile::filesystem_file(4, FileId::from_raw(1));
    let (store, _) = fake_store(Ok(vec![]), Ok(()));
    let mut state = fs_state_with(store, vec![Some(file), None]);
    assert!(state.open_file(0).is_some());
    assert!(state.open_file(1).is_none());
    assert!(state.open_file(2).is_none());
}

#[test]
fn a_read_returns_what_the_store_filled_and_forwards_the_badge() {
    let file = HostFile::filesystem_file(0x77, FileId::from_raw(5));
    let (store, log) = fake_store(Ok(b"hello".to_vec()), Ok(()));
    let mut state = fs_state_with(store, vec![Some(file)]);
    let handle = state.open_file(0).unwrap();
    assert_eq!(state.read(handle), Ok(b"hello".to_vec()));
    assert_eq!(*log.lock().unwrap(), vec![(0x77, FileId::from_raw(5))]);
}

#[test]
fn an_unwritten_file_reads_as_empty() {
    let file = HostFile::filesystem_file(1, FileId::from_raw(1));
    let (store, _) = fake_store(Err(StoreError::FileEmpty), Ok(()));
    let mut state = fs_state_with(store, vec![Some(file)]);
    let handle = state.open_file(0).unwrap();
    assert_eq!(state.read(handle), Ok(Vec::new()));
}

#[test]
fn denied_store_errors_map_to_access() {
    for err in [
        StoreError::UnknownBadge,
        StoreError::BadgeRevoked,
        StoreError::OpNotGranted,
        StoreError::WrongFile,
        StoreError::NoSuchFile,
        StoreError::FileDestroyed,
    ] {
        let file = HostFile::filesystem_file(1, FileId::from_raw(1));
        let (store, _) = fake_store(Err(err), Err(err));
        let mut state = fs_state_with(store, vec![Some(file)]);
        let handle = state.open_file(0).unwrap();
        assert_eq!(state.read(handle), Err(filesystem::ErrorCode::Access), "{err:?}");
        assert_eq!(state.write(handle, b"x".to_vec()), Err(filesystem::ErrorCode::Access), "{err:?}");
    }
}

#[test]
fn an_oversized_write_is_invalid_before_the_store_is_consulted() {
    let file = HostFile::filesystem_file(1, FileId::from_raw(1));
    let (store, log) = fake_store(Ok(vec![]), Ok(()));
    let mut state = fs_state_with(store, vec![Some(file)]);
    let handle = state.open_file(0).unwrap();
    assert_eq!(state.write(handle, vec![0; MAX_BLOCK_LEN + 1]), Err(filesystem::ErrorCode::Invalid));
    assert!(log.lock().unwrap().is_empty());
    assert_eq!(state.write(handle, vec![0; MAX_BLOCK_LEN]), Ok(()));
}

#[test]
fn a_key_handle_is_never_taken_for_a_file() {
    let cap = HostCapability::keystore_key(1, fabricate_key_id());
    let file = HostFile::filesystem_file(2, FileId::from_raw(2));
    let (store, _) = fake_store(Ok(b"data".to_vec()), Ok(()));
    let mut state = State::new(GrantManifest {
        keystore_keys: vec![Some(cap)],
        filesystem_files: vec![Some(file)],
        monotonic_clock: None,
    })
    .with_keystore(Box::new(Spy::default()))
    .with_filesystem(Box::new(store));
    let key_handle = state.open_key(0).unwrap();
    let file_handle = state.open_file(0).unwrap();
    assert_eq!(state.read(key_handle), Err(filesystem::ErrorCode::Access));
    assert_eq!(state.sign(file_handle, b"m".to_vec()), Err(ErrorCode::Access));
    assert_eq!(state.drop_file(key_handle), Err(TableError::WrongType));
    assert_eq!(state.sign(key_handle, b"m".to_vec()), Err(ErrorCode::Access));
    assert_eq!(state.drop_file(file_handle), Ok(()));
    assert_eq!(state.read(file_handle), Err(filesystem::ErrorCode::Access));
}

#[test]
fn read_outcome_keeps_only_the_reported_prefix() {
    assert_eq!(read_outcome(Ok(2), vec![1, 2, 3]), Ok(vec![1, 2]));
    assert_eq!(read_outcome(Ok(9), vec![1, 2, 3]), Ok(vec![1, 2, 3]));
    assert_eq!(read_outcome(Err(StoreError::FileEmpty), vec![1]), Ok(vec![]));
    assert_eq!(read_outcome(Err(StoreError::BadSize), vec![1]), Err(filesystem::ErrorCode::Invalid));
}

// ---------------------------------------------------------------------------------
// Link-scoped + the manifest
// ---------------------------------------------------------------------------------

struct FixedClock(u64);

impl TimeSource for FixedClock {
    fn now_ns(&mut self) -> u64 {
        self.0
    }
}

/// A clock that advances by one tick per reading.
struct Ticking(u64);

impl TimeSource for Ticking {
    fn now_ns(&mut self) -> u64 {
        self.0 += 10;
        self.0
    }
}

#[test]
fn a_granted_clock_is_readable() {
    let manifest = GrantManifest {
        keystore_keys: Vec::new(),
        filesystem_files: Vec::new(),
        monotonic_clock: Some(MonotonicClock { now_ns: Box::new(FixedClock(1_234_567)), resolution_ns: 100 }),
    };
    let mut state = State::new(manifest);
    assert!(state.clock_granted());
    assert_eq!(state.now(), 1_234_567);
    assert_eq!(state.resolution(), 100);
}

#[test]
fn the_link_plan_follows_what_the_manifest_declared() {
    assert_eq!(
        GrantManifest::nothing().link_plan(),
        LinkPlan { monotonic_clock: false, keystore: false, filesystem: false },
    );
    let declined_roles = GrantManifest {
        keystore_keys: vec![None],
        filesystem_files: Vec::new(),
        monotonic_clock: Some(MonotonicClock { now_ns: Box::new(FixedClock(0)), resolution_ns: 1 }),
    };
    assert_eq!(
        declined_roles.link_plan(),
        LinkPlan { monotonic_clock: true, keystore: true, filesystem: false },
    );
    let files = GrantManifest {
        keystore_keys: Vec::new(),
        filesystem_files: vec![Some(HostFile::filesystem_file(1, FileId::from_raw(1)))],
        monotonic_clock: None,
    };
    assert_eq!(files.link_plan(), LinkPlan { monotonic_clock: false, keystore: false, filesystem: true });
    assert!(!State::new(GrantManifest::nothing()).clock_granted());
}

#[test]
fn a_single_thread_cell_writes_through() {
    let mut cell = SingleThreadCell::new(5u32);
    *cell.borrow_mut() += 1;
    assert_eq!(*cell.borrow_mut(), 6);
}

#[test]
fn a_handle_resolves_to_the_record_granted_at_its_slot() {
    let first = HostCapability::keystore_key(0x10, KeyId::from_raw(1));
    let second = HostCapability::keystore_key(0x20, KeyId::from_raw(2));
    let file = HostFile::filesystem_file(0x30, FileId::from_raw(3));
    let mut state = State::new(GrantManifest {
        keystore_keys: vec![Some(first), Some(second)],
        filesystem_files: vec![Some(file)],
        monotonic_clock: None,
    });
    let h1 = state.open_key(1).unwrap();
    let h0 = state.open_key(0).unwrap();
    let hf = state.open_file(0).unwrap();
    assert_eq!(state.keystore_cap(h1), Ok(second));
    assert_eq!(state.keystore_cap(h0), Ok(first));
    assert_eq!(state.file_cap(hf), Ok(file));
    assert_eq!(state.file_cap(h0), Err(filesystem::ErrorCode::Access));
    assert_eq!(state.keystore_cap(hf), Err(ErrorCode::Access));
    assert_eq!(KeyId::from_raw(9).raw_value(), 9);
}

// ---------------------------------------------------------------------------------
// Forwarding: what reaches the services, and what does not
// ---------------------------------------------------------------------------------

#[test]
fn encrypt_forwards_the_handle_badge_and_key_and_returns_the_service_output() {
    let key = fabricate_key_id();
    let spy = Spy::default();
    let log = spy.0.clone();
    let mut state = state_with(spy, vec![HostCapability::keystore_key(0xAB, key)]);
    let handle = state.open_key(0).unwrap();
    assert_eq!(
        state.encrypt(handle, vec![0; NONCE_LEN], vec![], vec![1, 2, 3]),
        Ok((vec![0xFE, 0xFD, 0xFC], vec![7u8; TAG_LEN])),
    );
    assert_eq!(*log.lock().unwrap(), vec![(0xAB, key)]);
}

#[test]
fn a_refused_keystore_call_consults_no_service() {
    let key = fabricate_key_id();
    let spy = Spy::default();
    let log = spy.0.clone();
    let mut state = state_with(spy, vec![HostCapability::keystore_key(0xAB, key)]);
    let handle = state.open_key(0).unwrap();

    assert_eq!(state.encrypt(handle, vec![0; NONCE_LEN + 1], vec![], vec![1]), Err(ErrorCode::Invalid));
    assert_eq!(
        state.decrypt(handle, vec![0; NONCE_LEN], vec![], vec![1], vec![0; TAG_LEN - 1]),
        Err(ErrorCode::Invalid),
    );
    state.drop_key(handle).unwrap();
    assert_eq!(state.sign(handle, b"x".to_vec()), Err(ErrorCode::Access));
    assert_eq!(state.encrypt(handle, vec![0; NONCE_LEN], vec![], vec![1]), Err(ErrorCode::Access));
    assert!(log.lock().unwrap().is_empty());
}

#[test]
fn a_refused_store_call_consults_no_store() {
    let file = HostFile::filesystem_file(0x41, FileId::from_raw(8));
    let (store, log) = fake_store(Ok(b"data".to_vec()), Ok(()));
    let mut state = fs_state_with(store, vec![Some(file)]);
    let handle = state.open_file(0).unwrap();
    assert_eq!(state.write(handle, vec![1; MAX_BLOCK_LEN + 1]), Err(filesystem::ErrorCode::Invalid));
    state.drop_file(handle).unwrap();
    assert_eq!(state.read(handle), Err(filesystem::ErrorCode::Access));
    assert_eq!(state.write(handle, b"x".to_vec()), Err(filesystem::ErrorCode::Access));
    assert!(log.lock().unwrap().is_empty());
}

#[test]
fn a_write_forwards_the_handle_badge_and_file_once() {
    let file = HostFile::filesystem_file(0x42, FileId::from_raw(6));
    let (store, log) = fake_store(Ok(vec![]), Err(StoreError::Kernel(2)));
    let mut state = fs_state_with(store, vec![Some(file)]);
    let handle = state.open_file(0).unwrap();
    assert_eq!(state.write(handle, b"abc".to_vec()), Err(filesystem::ErrorCode::Invalid));
    assert_eq!(*log.lock().unwrap(), vec![(0x42, FileId::from_raw(6))]);
}

#[test]
fn the_keystore_attached_last_is_the_one_called() {
    let key = fabricate_key_id();
    let first = Spy::default();
    let second = Spy::default();
    let (first_log, second_log) = (first.0.clone(), second.0.clone());
    let mut state = State::new(GrantManifest {
        keystore_keys: vec![Some(HostCapability::keystore_key(0x33, key))],
        filesystem_files: Vec::new(),
        monotonic_clock: None,
    })
    .with_keystore(Box::new(first))
    .with_keystore(Box::new(second));
    let handle = state.open_key(0).unwrap();
    assert_eq!(state.sign(handle, b"m".to_vec()), Ok(b"m".to_vec()));
    assert!(first_log.lock().unwrap().is_empty());
    assert_eq!(*second_log.lock().unwrap(), vec![(0x33, key)]);
}

#[test]
fn a_dropped_handle_leaves_room_to_open_again() {
    let cap = HostCapability::keystore_key(1, fabricate_key_id());
    let mut state = state_with(Spy::default(), vec![cap]);
    let handle = state.open_key(0).unwrap();
    state.drop_key(handle).unwrap();
    let again = state.open_key(0).unwrap();
    assert_eq!(state.keystore_cap(again), Ok(cap));
    assert_eq!(state.sign(again, b"ok".to_vec()), Ok(b"ok".to_vec()));
}

#[test]
fn each_reading_comes_from_the_granted_source() {
    let mut state = State::new(GrantManifest {
        keystore_keys: Vec::new(),
        filesystem_files: Vec::new(),
        monotonic_clock: Some(MonotonicClock { now_ns: Box::new(Ticking(100)), resolution_ns: 10 }),
    });
    assert_eq!(state.now(), 110);
    assert_eq!(state.now(), 120);
    assert_eq!(state.resolution(), 10);
    assert_eq!(state.now(), 130);
}
