//! One checker shared by many request handlers, used by one at a time.
use vstd::prelude::*;
use vstd::rwlock::RwLock;

verus! {

/// A checker behind an exclusive lock; every use takes the lock, runs to its
/// end and puts the checker back before the lock is released.
#[verifier::reject_recursive_types(M)]
pub struct SharedChecker<M> {
    lock: RwLock<M, spec_fn(M) -> bool>,
}

impl<M> SharedChecker<M> {
    #[verifier::type_invariant]
    spec fn inv(&self) -> bool {
        forall|m: M| #[trigger] self.lock.inv(m)
    }

    /// Shares `checker`.
    pub fn new(checker: M) -> Self {
        let ghost any = |m: M| true;
        SharedChecker { lock: RwLock::new(checker, Ghost(any)) }
    }

    /// Runs `op` on the checker while no other caller can reach it. `op` takes
    /// the checker and gives it back with its answer; the answer is one that
    /// `op` gives for some state of the checker.
    pub fn with_checker<T, F: FnOnce(M) -> (M, T)>(&self, op: F) -> (r: T)
        requires
            forall|m: M| op.requires((m,)),
        ensures
            exists|m: M, after: M| op.ensures((m,), (after, r)),
    {
        proof {
            use_type_invariant(self);
        }
        let (checker, handle) = self.lock.acquire_write();
        let (checker, answer) = op(checker);
        handle.release_write(checker);
        answer
    }
}

} // verus!
