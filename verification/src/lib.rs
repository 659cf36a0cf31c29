//! Random-access byte storage: the operations that every backend offers,
//! what each of them does to the stored bytes, the errors they report, and an
//! adapter that opens a minimal backend on first use.

pub mod adapter;
pub mod bounds;
pub mod decimal;
pub mod error;
pub mod laws;
pub mod open_state;
pub mod ready;
pub mod semantics;
pub mod storage;
pub mod vec_storage;

pub use adapter::{Adapter, Handler};
pub use error::RandomAccessError;
pub use open_state::OpenState;
pub use ready::Ready;
pub use storage::RandomAccess;
pub use vec_storage::VecStorage;
