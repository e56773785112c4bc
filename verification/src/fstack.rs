//! The rollback stack: an ordered list of pending compensating actions.
//! Actions are pushed as resources are acquired and are meant to be executed
//! in strict reverse order of registration, each exactly once, unless the
//! stack is cancelled first. The stack itself only records and orders the
//! actions; carrying them out is its caller's business.

use vstd::prelude::*;

verus! {

/// One pending compensating action.
#[derive(Debug, Clone)]
pub enum FStackAction {
    RemoveDirectory(String),
    RemoveFile(String),
    TerminateProcess(u32),
}

impl PartialEq for FStackAction {
    fn eq(&self, other: &Self) -> (r: bool) {
        match (self, other) {
            (FStackAction::RemoveDirectory(a), FStackAction::RemoveDirectory(b)) => a.eq(b),
            (FStackAction::RemoveFile(a), FStackAction::RemoveFile(b)) => a.eq(b),
            (FStackAction::TerminateProcess(a), FStackAction::TerminateProcess(b)) => *a == *b,
            _ => false,
        }
    }
}

impl vstd::std_specs::cmp::PartialEqSpecImpl for FStackAction {
    open spec fn obeys_eq_spec() -> bool {
        true
    }

    open spec fn eq_spec(&self, other: &Self) -> bool {
        match (self, other) {
            (FStackAction::RemoveDirectory(a), FStackAction::RemoveDirectory(b)) => a@ == b@,
            (FStackAction::RemoveFile(a), FStackAction::RemoveFile(b)) => a@ == b@,
            (FStackAction::TerminateProcess(a), FStackAction::TerminateProcess(b)) => a == b,
            _ => false,
        }
    }
}

/// The stack of pending actions, oldest first.
#[derive(Debug)]
pub struct FStack {
    inner: Vec<FStackAction>,
}

impl FStack {
    /// The pending actions, in the order they were pushed.
    pub closed spec fn actions(&self) -> Seq<FStackAction> {
        self.inner@
    }

    pub fn new() -> (r: Self)
        ensures
            r.actions() == Seq::<FStackAction>::empty(),
    {
        FStack { inner: Vec::new() }
    }

    /// Registers one more action, after all already pending ones.
    pub fn push_action(&mut self, action: FStackAction)
        ensures
            final(self).actions() == old(self).actions().push(action),
    {
        self.inner.push(action);
    }

    /// Discards every pending action without executing any.
    /// For callers that take over cleanup themselves.
    pub fn cancel(self) {
    }

    /// Hands out the pending actions in execution order — strict reverse of
    /// registration — and leaves the stack empty, so each action is
    /// surrendered exactly once.
    pub fn drain(&mut self) -> (r: Vec<FStackAction>)
        ensures
            r@ == old(self).actions().reverse(),
            final(self).actions() == Seq::<FStackAction>::empty(),
    {
        let mut r: Vec<FStackAction> = Vec::new();
        while self.inner.len() > 0
            invariant
                r@ + self.inner@.reverse() == old(self).actions().reverse(),
            decreases self.inner@.len(),
        {
            match self.inner.pop() {
                Some(a) => {
                    let ghost rem = self.inner@;
                    r.push(a);
                    proof {
                        assert(rem.push(a).reverse() =~= seq![a] + rem.reverse());
                        assert((r@.drop_last() + (seq![a] + rem.reverse())) =~= r@
                            + rem.reverse());
                    }
                },
                None => {},
            }
        }
        proof {
            assert(self.inner@.reverse() =~= Seq::<FStackAction>::empty());
            assert(r@ =~= old(self).actions().reverse());
        }
        r
    }
}

/// The rollback law: after pushing actions `a`, `b`, `c` on an empty stack,
/// teardown surrenders them in the order `c`, `b`, `a`, each exactly once;
/// a stack that was cancelled first surrenders nothing, since cancellation
/// consumes it.
pub proof fn lemma_rollback_order(a: FStackAction, b: FStackAction, c: FStackAction)
    ensures
        Seq::<FStackAction>::empty().push(a).push(b).push(c).reverse() == seq![c, b, a],
{
    assert(Seq::<FStackAction>::empty().push(a).push(b).push(c).reverse() =~= seq![c, b, a]);
}

} // verus!
