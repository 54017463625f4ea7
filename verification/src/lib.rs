//! A reference-counted singleton whose protected value can be recreated.
//!
//! [`RefCountedSingleton`] guards at most one live value. The value is made
//! by the first successful [`RefCountedSingleton::get_or_init`], which hands
//! out an [`RCSRef`]. Handles can be cloned freely; the value is destroyed
//! when the last handle goes away, and a later `get_or_init` makes a new one.
//!
//! The crate is laid out in layers:
//!
//! * [`slot`] is the sequential heart: every decision taken while the lock
//!   is held, on a plain `&mut Slot<T>`, with exact contracts.
//! * [`sync`] declares the lock and the shared-ownership calls of the
//!   standard library, with the few facts that are assumed of them.
//! * [`singleton`] and [`handle`] are the two public types, which combine
//!   the two layers above.
//! * [`lifecycle`] is the abstract machine `EMPTY -> POPULATED(n) -> EMPTY`
//!   over the same transition functions, with the laws that hold of it.

pub mod handle;
pub mod lifecycle;
pub mod singleton;
pub mod slot;
pub mod sync;

pub use handle::RCSRef;
pub use singleton::RefCountedSingleton;
pub use slot::Slot;
