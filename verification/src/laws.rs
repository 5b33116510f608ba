//! Laws: what the entry points do, stated of their arguments and results.
//!
//! Each law is about calls that were made. `call_ensures(f, args, r)` says that a
//! call of `f` on `args` gave `r`; what follows from it is said of the arguments,
//! of the result and of what a `&mut` argument holds in the end.

pub mod answering;
pub mod asking;
pub mod buffers;
pub mod handles;
pub mod keys;
pub mod machine;
pub mod memory;
pub mod presence;
pub mod publishing;
pub mod scouting;
pub mod sessions;
pub mod slices;
pub mod texts;
pub mod values;
pub mod wire;
