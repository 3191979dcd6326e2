//! A fork-join runtime: a join primitive, a spin latch, the decisions of a
//! work-stealing pool, and a parallel iteration framework built on recursive
//! splitting of producers and consumers.
pub mod fork;
pub mod iter;
pub mod latch;
pub mod lemmas;
pub mod sched;
