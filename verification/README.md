# pinned

Task synchronisation primitives for `!Send` futures, verified with Verus.

- `src/` is the verified library. `mpsc`, `oneshot` and `barrier` each have an `Inner` state
  whose transitions carry exact contracts, laws proved over those transitions (`law_*` proof
  functions), and handles that share the state through `vstd`'s `InvCell`. `rwlock` keeps its
  value in a `std::cell::RefCell`, reached through small trusted wrappers, and decides each poll
  of a waiting reader or writer in verified code. `task` declares `std::task::Waker`. The
  library never wakes a task: transitions hand wakers back, and the caller wakes them.
- `app/` is the asynchronous face: `Future`, `Stream`, `Sink` and `Drop` implementations,
  `async fn`s, the waking of the wakers the library hands back, and error types that implement
  `std::error::Error`.
- `tests/` drives the handles and state machines by hand, with no executor.
