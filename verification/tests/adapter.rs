use random_access_storage::{
    Adapter, Handler, OpenState, RandomAccess, RandomAccessError, Ready, VecStorage,
};

/// What the counting backend reports.
#[derive(Debug, PartialEq)]
enum Failure {
    CannotOpen(u32),
    Storage(String),
}

/// A backend that counts what is asked of it, and fails its first
/// `failures_left` initializations.
struct Counting {
    opens: u32,
    writes: u32,
    reads: u32,
    dels: u32,
    failures_left: u32,
    store: VecStorage,
}

impl Counting {
    fn failing(failures: u32) -> Self {
        Counting {
            opens: 0,
            writes: 0,
            reads: 0,
            dels: 0,
            failures_left: failures,
            store: VecStorage::new(),
        }
    }

    fn calls(&self) -> u32 {
        self.writes + self.reads + self.dels
    }
}

fn storage_failure(error: RandomAccessError) -> Failure {
    Failure::Storage(error.message())
}

impl Handler for Counting {
    type Error = Failure;

    fn open(&mut self) -> Result<(), Failure> {
        self.opens += 1;
        if self.failures_left > 0 {
            self.failures_left -= 1;
            Err(Failure::CannotOpen(self.opens))
        } else {
            Ok(())
        }
    }

    fn write(&mut self, offset: u64, data: &[u8]) -> Result<(), Failure> {
        self.writes += 1;
        self.store.write(offset, data).map_err(storage_failure)
    }

    fn read(&mut self, offset: u64, length: u64) -> Result<Vec<u8>, Failure> {
        self.reads += 1;
        self.store.read(offset, length).map_err(storage_failure)
    }

    fn del(&mut self, offset: u64, length: u64) -> Result<(), Failure> {
        self.dels += 1;
        self.store.del(offset, length).map_err(storage_failure)
    }
}

#[test]
fn new_adapter_does_not_touch_the_backend() {
    let adapter = Adapter::new(Counting::failing(0));
    assert!(!adapter.is_open());
    assert_eq!(adapter.handler().opens, 0);
    assert_eq!(adapter.handler().calls(), 0);
}

#[test]
fn backend_is_opened_exactly_once() {
    let mut adapter = Adapter::new(Counting::failing(0));
    adapter.write(0, b"hello").unwrap();
    assert!(adapter.is_open());
    assert_eq!(adapter.handler().opens, 1);
    adapter.write(5, b" world").unwrap();
    assert_eq!(adapter.read(0, 11).unwrap(), b"hello world".to_vec());
    adapter.del(5, 6).unwrap();
    let mut sink = Vec::new();
    adapter.read_to_writer(0, 5, &mut sink).unwrap();
    assert_eq!(sink, b"hello".to_vec());
    for _ in 0..20 {
        adapter.read(0, 1).unwrap();
    }
    assert!(adapter.is_open());
    assert_eq!(adapter.handler().opens, 1);
    assert_eq!(adapter.handler().writes, 2);
    assert_eq!(adapter.handler().reads, 22);
    assert_eq!(adapter.handler().dels, 1);
}

#[test]
fn every_operation_opens_an_unopened_backend() {
    let mut by_write = Adapter::new(Counting::failing(0));
    by_write.write(0, &[1]).unwrap();
    assert_eq!(by_write.handler().opens, 1);

    let mut by_read = Adapter::new(Counting::failing(0));
    by_read.read(0, 0).unwrap();
    assert_eq!(by_read.handler().opens, 1);

    let mut by_del = Adapter::new(Counting::failing(0));
    by_del.del(0, 0).unwrap();
    assert_eq!(by_del.handler().opens, 1);

    let mut by_stream = Adapter::new(Counting::failing(0));
    let mut sink = Vec::new();
    by_stream.read_to_writer(0, 0, &mut sink).unwrap();
    assert_eq!(by_stream.handler().opens, 1);
}

#[test]
fn failed_open_is_retried_by_the_next_operation() {
    let mut adapter = Adapter::new(Counting::failing(1));
    assert_eq!(adapter.write(0, &[1, 2, 3]), Err(Failure::CannotOpen(1)));
    assert!(!adapter.is_open());
    assert_eq!(adapter.handler().opens, 1);
    assert_eq!(adapter.handler().calls(), 0);

    adapter.write(0, &[1, 2, 3]).unwrap();
    assert!(adapter.is_open());
    assert_eq!(adapter.handler().opens, 2);
    assert_eq!(adapter.handler().writes, 1);
    assert_eq!(adapter.read(0, 3).unwrap(), vec![1, 2, 3]);
    assert_eq!(adapter.handler().opens, 2);
}

#[test]
fn every_failed_open_is_an_attempt_of_its_own() {
    let mut adapter = Adapter::new(Counting::failing(3));
    assert_eq!(adapter.read(0, 0), Err(Failure::CannotOpen(1)));
    assert_eq!(adapter.del(0, 0), Err(Failure::CannotOpen(2)));
    let mut sink = vec![7];
    assert_eq!(adapter.read_to_writer(0, 0, &mut sink), Err(Failure::CannotOpen(3)));
    assert_eq!(sink, vec![7]);
    assert!(!adapter.is_open());
    assert_eq!(adapter.handler().opens, 3);
    assert_eq!(adapter.handler().calls(), 0);

    adapter.write(0, &[9]).unwrap();
    assert!(adapter.is_open());
    assert_eq!(adapter.handler().opens, 4);
    adapter.write(1, &[9]).unwrap();
    assert_eq!(adapter.handler().opens, 4);
}

#[test]
fn backend_errors_come_back_unchanged() {
    let mut adapter = Adapter::new(Counting::failing(0));
    adapter.write(0, &[1, 2]).unwrap();
    assert_eq!(
        adapter.read(1, 2),
        Err(Failure::Storage(String::from("Range out of bounds. 2 < 1..3")))
    );
    let mut sink = vec![7];
    assert_eq!(
        adapter.read_to_writer(1, 2, &mut sink),
        Err(Failure::Storage(String::from("Range out of bounds. 2 < 1..3")))
    );
    assert_eq!(sink, vec![7]);
    assert!(adapter.is_open());
    assert_eq!(adapter.handler().opens, 1);
}

#[test]
fn failing_operation_on_an_opened_backend_does_not_reopen() {
    let mut adapter = Adapter::new(Counting::failing(0));
    assert!(adapter.read(0, 1).is_err());
    assert!(adapter.is_open());
    assert!(adapter.read(0, 1).is_err());
    assert_eq!(adapter.handler().opens, 1);
    assert_eq!(adapter.handler().reads, 2);
}

#[test]
fn open_state_asks_for_initialization_only_while_unopened() {
    assert!(OpenState::Unopened.needs_open());
    assert!(!OpenState::Opened.needs_open());
}

#[test]
fn open_state_moves_forward_only() {
    assert_eq!(OpenState::Unopened.after_attempt(true), OpenState::Opened);
    assert_eq!(OpenState::Unopened.after_attempt(false), OpenState::Unopened);
    assert_eq!(OpenState::Opened.after_attempt(true), OpenState::Opened);
    assert_eq!(OpenState::Opened.after_attempt(false), OpenState::Opened);
}

#[test]
fn storage_behind_the_adapter_keeps_its_contract() {
    let mut adapter = Adapter::new(Ready::new(VecStorage::with_limit(8)));
    assert!(!adapter.is_open());
    adapter.write(2, &[1, 2]).unwrap();
    assert!(adapter.is_open());
    assert_eq!(adapter.read(0, 4).unwrap(), vec![0, 0, 1, 2]);
    adapter.del(2, 1).unwrap();
    assert_eq!(adapter.read(0, 4).unwrap(), vec![0, 0, 0, 2]);
    adapter.del(1, 3).unwrap();
    assert_eq!(adapter.read(0, 1).unwrap(), vec![0]);
    assert!(matches!(
        adapter.read(0, 2),
        Err(RandomAccessError::OutOfBounds { offset: 0, end: Some(2), length: 1 })
    ));
    assert!(matches!(
        adapter.write(8, &[1]),
        Err(RandomAccessError::OutOfBounds { offset: 8, end: Some(9), length: 8 })
    ));
    let mut sink = vec![5];
    adapter.read_to_writer(0, 1, &mut sink).unwrap();
    assert_eq!(sink, vec![5, 0]);
    assert!(adapter.is_open());
    let mut storage = adapter.into_handler().into_storage();
    assert_eq!(storage.len().unwrap(), 1);
}

#[test]
fn into_handler_returns_the_backend_untouched_if_nothing_was_asked() {
    let adapter = Adapter::new(Counting::failing(2));
    let backend = adapter.into_handler();
    assert_eq!(backend.opens, 0);
    assert_eq!(backend.failures_left, 2);
}

#[test]
fn ready_hands_its_storage_back() {
    let mut ready = Ready::new(VecStorage::new());
    Handler::open(&mut ready).unwrap();
    Handler::write(&mut ready, 0, &[1, 2, 3]).unwrap();
    assert_eq!(Handler::read(&mut ready, 1, 2).unwrap(), vec![2, 3]);
    Handler::del(&mut ready, 1, 1).unwrap();
    let mut storage = ready.into_storage();
    assert_eq!(storage.len().unwrap(), 3);
    assert_eq!(storage.read(0, 3).unwrap(), vec![1, 0, 3]);
}
