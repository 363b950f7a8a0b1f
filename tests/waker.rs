use std::cell::RefCell;
use std::rc::Rc;

use mio_source::{
    Error, ErrorKind, Interest, IoSource, RawHandle, RawSource, Registry, Selector, Token,
    WakeSignal, Waker,
};

/// What a blocked wait of the test selector would return.
#[derive(Default)]
struct Engine {
    /// Pending count of each wake signal, as an eventfd counts writes.
    signals: Vec<(Token, u64)>,
    /// Handles registered for readable readiness, and whether data waits.
    readers: Vec<(RawHandle, Token, bool)>,
    refuse_signal: bool,
}

impl Engine {
    /// One readable event per pending signal or readable handle; draining a
    /// signal resets its count.
    fn poll(&mut self) -> Vec<(Token, bool)> {
        let mut events = Vec::new();
        for (token, count) in self.signals.iter_mut() {
            if *count > 0 {
                events.push((*token, true));
                *count = 0;
            }
        }
        for (_, token, ready) in self.readers.iter() {
            if *ready {
                events.push((*token, true));
            }
        }
        events
    }
}

struct TestSignal {
    slot: usize,
    engine: Rc<RefCell<Engine>>,
}

impl WakeSignal for TestSignal {
    fn wake(&self) -> Result<(), Error> {
        self.engine.borrow_mut().signals[self.slot].1 += 1;
        Ok(())
    }
}

impl Drop for TestSignal {
    fn drop(&mut self) {
        self.engine.borrow_mut().signals[self.slot].1 = 0;
    }
}

struct TestSelector {
    engine: Rc<RefCell<Engine>>,
}

impl Selector for TestSelector {
    type Signal = TestSignal;

    fn id(&self) -> usize {
        1
    }

    fn register(&self, handle: RawHandle, token: Token, interests: Interest) -> Result<(), Error> {
        if interests.is_readable() {
            self.engine.borrow_mut().readers.push((handle, token, false));
        }
        Ok(())
    }

    fn reregister(&self, _: RawHandle, _: Token, _: Interest) -> Result<(), Error> {
        Ok(())
    }

    fn deregister(&self, handle: RawHandle) -> Result<(), Error> {
        self.engine.borrow_mut().readers.retain(|r| r.0 != handle);
        Ok(())
    }

    fn new_signal(&self, token: Token) -> Result<TestSignal, Error> {
        let mut engine = self.engine.borrow_mut();
        if engine.refuse_signal {
            return Err(Error::from_os(ErrorKind::Other, 24));
        }
        engine.signals.push((token, 0));
        Ok(TestSignal { slot: engine.signals.len() - 1, engine: self.engine.clone() })
    }
}

fn setup() -> (Registry<TestSelector>, Rc<RefCell<Engine>>) {
    let engine = Rc::new(RefCell::new(Engine::default()));
    let reg = Registry::new(TestSelector { engine: engine.clone() }).unwrap();
    (reg, engine)
}

#[test]
fn waker_keeps_token_and_registry() {
    let (reg, engine) = setup();
    let waker = Waker::new(&reg, Token(10)).unwrap();
    assert_eq!(waker.token(), Token(10));
    assert_eq!(waker.registry_id(), reg.id());
    assert_eq!(engine.borrow().signals, vec![(Token(10), 0)]);
}

#[test]
fn single_wake_gives_one_readable_event() {
    let (reg, engine) = setup();
    let waker = Waker::new(&reg, Token(10)).unwrap();
    assert!(engine.borrow_mut().poll().is_empty());
    assert_eq!(waker.wake(), Ok(()));
    assert_eq!(engine.borrow_mut().poll(), vec![(Token(10), true)]);
    assert!(engine.borrow_mut().poll().is_empty());
}

#[test]
fn repeated_wakes_coalesce_without_loss() {
    let (reg, engine) = setup();
    let waker = Waker::new(&reg, Token(1)).unwrap();
    for _ in 0..5 {
        waker.wake().unwrap();
    }
    let events = engine.borrow_mut().poll();
    assert!(!events.is_empty());
    assert!(events.iter().all(|e| *e == (Token(1), true)));
}

#[test]
fn new_waker_after_drop_still_wakes() {
    let (reg, engine) = setup();
    let first = Waker::new(&reg, Token(3)).unwrap();
    drop(first);
    let second = Waker::new(&reg, Token(3)).unwrap();
    assert_eq!(second.wake(), Ok(()));
    assert_eq!(engine.borrow_mut().poll(), vec![(Token(3), true)]);
}

#[test]
fn waker_allocation_failure_is_returned() {
    let (reg, engine) = setup();
    engine.borrow_mut().refuse_signal = true;
    let r = Waker::new(&reg, Token(3));
    assert_eq!(r.err(), Some(Error::from_os(ErrorKind::Other, 24)));
}

struct Peer {
    fd: RawHandle,
    unread: Vec<u8>,
}

impl RawSource for Peer {
    fn raw_handle(&self) -> RawHandle {
        self.fd
    }
}

#[test]
fn would_block_read_then_data_reports_token_readable() {
    let (reg, engine) = setup();
    let mut src = IoSource::new(Peer { fd: 30, unread: Vec::new() });
    src.register(&reg, Token(7), Interest::readable_only()).unwrap();
    let r = src.do_io(|p: &Peer| {
        if p.unread.is_empty() {
            Err(Error::new(ErrorKind::WouldBlock))
        } else {
            Ok(p.unread.len())
        }
    });
    assert_eq!(r.unwrap_err().kind(), ErrorKind::WouldBlock);
    assert!(engine.borrow_mut().poll().is_empty());
    src.unread.extend_from_slice(b"hi");
    engine.borrow_mut().readers[0].2 = true;
    assert_eq!(engine.borrow_mut().poll(), vec![(Token(7), true)]);
    src.deregister(&reg).unwrap();
    assert!(engine.borrow().readers.is_empty());
}
