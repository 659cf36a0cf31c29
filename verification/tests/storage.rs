use random_access_storage::{RandomAccess, RandomAccessError};
use std::io::{Error, ErrorKind};

/// A backend with fixed bytes whose reads fail once `failing` is set.
struct Flaky {
    bytes: Vec<u8>,
    failing: bool,
    reads: u32,
}

impl RandomAccess for Flaky {
    fn write(&mut self, _offset: u64, _data: &[u8]) -> Result<(), RandomAccessError> {
        Err(RandomAccessError::from(Error::new(ErrorKind::Unsupported, "read-only")))
    }

    fn read(&mut self, offset: u64, length: u64) -> Result<Vec<u8>, RandomAccessError> {
        self.reads += 1;
        let len = self.bytes.len() as u64;
        if offset > len || length > len - offset {
            return Err(RandomAccessError::OutOfBounds {
                offset,
                end: Some(offset.saturating_add(length)),
                length: len,
            });
        }
        if self.failing {
            return Err(RandomAccessError::IO {
                return_code: Some(5),
                context: Some(String::from("reading")),
                source: Error::new(ErrorKind::Other, "broken"),
            });
        }
        Ok(self.bytes[offset as usize..(offset + length) as usize].to_vec())
    }

    fn del(&mut self, _offset: u64, _length: u64) -> Result<(), RandomAccessError> {
        Err(RandomAccessError::from(Error::new(ErrorKind::Unsupported, "read-only")))
    }

    fn truncate(&mut self, _length: u64) -> Result<(), RandomAccessError> {
        Err(RandomAccessError::from(Error::new(ErrorKind::Unsupported, "read-only")))
    }

    fn len(&mut self) -> Result<u64, RandomAccessError> {
        Ok(self.bytes.len() as u64)
    }

    fn is_empty(&mut self) -> Result<bool, RandomAccessError> {
        Ok(self.bytes.is_empty())
    }

    fn sync_all(&mut self) -> Result<(), RandomAccessError> {
        Ok(())
    }
}

#[test]
fn provided_read_to_writer_hands_over_what_read_returns() {
    let mut flaky = Flaky { bytes: vec![1, 2, 3, 4], failing: false, reads: 0 };
    let mut sink = vec![9];
    flaky.read_to_writer(1, 2, &mut sink).unwrap();
    assert_eq!(sink, vec![9, 2, 3]);
    flaky.read_to_writer(0, 4, &mut sink).unwrap();
    assert_eq!(sink, vec![9, 2, 3, 1, 2, 3, 4]);
    assert_eq!(flaky.reads, 2);
}

#[test]
fn provided_read_to_writer_passes_refusal_on() {
    let mut flaky = Flaky { bytes: vec![1, 2, 3, 4], failing: false, reads: 0 };
    let mut sink = vec![9];
    assert!(matches!(
        flaky.read_to_writer(3, 2, &mut sink),
        Err(RandomAccessError::OutOfBounds { offset: 3, end: Some(5), length: 4 })
    ));
    assert_eq!(sink, vec![9]);
}

#[test]
fn provided_read_to_writer_passes_failure_on() {
    let mut flaky = Flaky { bytes: vec![1, 2, 3, 4], failing: true, reads: 0 };
    let mut sink = vec![9];
    let error = flaky.read_to_writer(0, 2, &mut sink).unwrap_err();
    assert_eq!(
        error.message(),
        "Unrecoverable input/output error occured. Return code: 5. Context: reading."
    );
    assert_eq!(sink, vec![9]);
}
