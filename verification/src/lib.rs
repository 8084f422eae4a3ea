//! A growable array with a pluggable memory-allocation strategy, together
//! with the consuming iterator that releases ownership of its elements one
//! at a time.
//!
//! The heart of the library is the ownership-transfer protocol between
//! [`Vector`] and [`IntoIter`]: raw storage and per-element ownership are
//! split apart, iteration advances two independent cursors into that
//! storage, and discarding the iterator mid-way still destroys every
//! unvisited element and releases the backing storage exactly once.
//!
//! Raw storage is modelled as a buffer of optional slots: a full slot holds
//! a live element, an empty slot is one whose element's ownership has
//! already been transferred away. The invariant that every slot strictly
//! between the cursor's two positions is live — and every slot outside that
//! range vacated — is what rules out both leaks and double-destruction,
//! and it is checked on every operation.

pub mod allocator;
pub mod drain_order;
pub mod intoiter;

pub use allocator::Allocator;
pub use allocator::Global;
pub use intoiter::IntoIter;
pub use intoiter::RawVector;
pub use intoiter::Vector;
