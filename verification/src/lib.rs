//! An in-memory stand-in for a filesystem file: a name, a byte payload, and
//! an open/closed state gating reads. Lifecycle operations (`open`, `read`,
//! `close`) carry exact contracts, and the laws module proves how they
//! compose.
#![allow(unused_imports)]

pub mod file;
pub mod laws;
pub mod lifecycle;

pub use file::File;
pub use file::FileError;
pub use file::FileState;
pub use lifecycle::close;
pub use lifecycle::close_fallible;
pub use lifecycle::close_unreliable;
pub use lifecycle::open;
pub use lifecycle::open_fallible;
pub use lifecycle::open_unreliable;
