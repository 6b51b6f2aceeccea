//! Task synchronisation primitives for pinned tasks.
//!
//! The primitives are meant for `!Send` futures that run on one thread: a multi-producer,
//! single-receiver channel ([`mpsc`]), a channel for one value ([`oneshot`]), a [`barrier`]
//! and an asynchronous reader-writer lock ([`rwlock`]).
//!
//! Each channel and the barrier is split into a state machine, its `Inner` state with
//! transitions that carry exact contracts, and handles that share that state through a
//! reference-counted `InvCell`: a handle takes the state out of the cell, runs one transition
//! and puts the state back. What a handle returns depends on what the other handles did before,
//! so the handles' own contracts say little; the state machines and the laws proved over them
//! say what the primitives do.
//!
//! Waking a task runs code that the task's executor supplies, and that code may panic. So the
//! library never wakes a task: a transition that has to wake one hands its waker back, and the
//! caller wakes it. For the same reason no handle here acts when it is dropped, as a destructor
//! could neither wake nor hand a waker back: a handle that gives up its part calls `close`,
//! `disconnect` or `release` first, and wakes what it is handed.

pub mod barrier;
pub mod mpsc;
pub mod oneshot;
pub mod rwlock;
pub mod task;
pub mod utils;

