//! Registration of raw I/O handles with a readiness selector, with checked
//! association bookkeeping, and a cross-thread waker.

mod error;
mod interest;
mod io_source;
mod registry;
mod token;
mod waker;

pub use error::{Error, ErrorKind};
pub use interest::Interest;
pub use io_source::{
    associate_step, check_step, lemma_deregister_unmatched, lemma_register_deregister_rounds,
    lemma_register_with_second_registry, lemma_reregister_unassociated,
    register_deregister_rounds, remove_step, settle_registration, IoSource,
};
pub use registry::{RawHandle, RawSource, Registry, Selector, WakeSignal, UNASSOCIATED};
pub use token::Token;
pub use waker::Waker;
