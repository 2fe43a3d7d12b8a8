//! First success or last failure of a series of outcomes.

use vstd::prelude::*;
use vstd::std_specs::iter::IteratorSpec;

verus! {

/// True when `picked` is what an attempt over `outcomes` gives: nothing when there are no
/// outcomes, else the first outcome that is a success, or the last outcome when none is.
pub open spec fn is_attempt_of<O>(
    outcomes: Seq<O>,
    success: spec_fn(O) -> bool,
    picked: Option<O>,
) -> bool {
    match picked {
        None => outcomes.len() == 0,
        Some(outcome) => exists|i: int|
            {
                &&& 0 <= i < outcomes.len()
                &&& outcomes[i] == outcome
                &&& forall|j: int| 0 <= j < i ==> !success(#[trigger] outcomes[j])
                &&& success(outcomes[i]) || i == outcomes.len() - 1
            },
    }
}

/// Running through outcomes until one succeeds.
pub trait Attempt<O>: Sized {
    /// What has to hold of the series for it to be run through.
    spec fn well_behaved(&self) -> bool;

    /// Consumes outcomes until a successful one is met, and returns it. When none is
    /// successful, returns the last one; when there is none at all, `None`.
    fn attempt(self) -> (picked: Option<O>)
        requires
            self.well_behaved(),
    ;
}

impl<T, E, I> Attempt<Result<T, E>> for I where I: Iterator<Item = Result<T, E>> {
    open spec fn well_behaved(&self) -> bool {
        self.obeys_prophetic_iter_laws() && self.decrease() is Some
    }

    fn attempt(self) -> (picked: Option<Result<T, E>>)
        ensures
            is_attempt_of(self.remaining(), |outcome: Result<T, E>| outcome is Ok, picked),
    {
        let ghost outcomes = self.remaining();
        let mut iter = self;
        let mut rv: Option<Result<T, E>> = None;
        let mut done: bool = false;
        let ghost mut seen: int = 0;
        while !done
            invariant
                iter.obeys_prophetic_iter_laws(),
                iter.decrease() is Some,
                0 <= seen <= outcomes.len(),
                iter.remaining() == outcomes.subrange(seen, outcomes.len() as int),
                forall|j: int| 0 <= j < seen - 1 ==> !(#[trigger] outcomes[j] is Ok),
                !done && seen > 0 ==> !(outcomes[seen - 1] is Ok),
                seen == 0 ==> rv is None,
                seen > 0 ==> rv == Some(outcomes[seen - 1]),
                done ==> seen == outcomes.len() || (seen > 0 && outcomes[seen - 1] is Ok),
            decreases
                    (if done {
                        0
                    } else {
                        iter.decrease()->0 + 1
                    }),
        {
            match iter.next() {
                None => {
                    done = true;
                },
                Some(res) => {
                    proof {
                        seen = seen + 1;
                    }
                    done = res.is_ok();
                    rv = Some(res);
                },
            }
        }
        rv
    }
}

impl<T, I> Attempt<Option<T>> for I where I: Iterator<Item = Option<T>> {
    open spec fn well_behaved(&self) -> bool {
        self.obeys_prophetic_iter_laws() && self.decrease() is Some
    }

    fn attempt(self) -> (picked: Option<Option<T>>)
        ensures
            is_attempt_of(self.remaining(), |outcome: Option<T>| outcome is Some, picked),
    {
        let ghost outcomes = self.remaining();
        let mut iter = self;
        let mut rv: Option<Option<T>> = None;
        let mut done: bool = false;
        let ghost mut seen: int = 0;
        while !done
            invariant
                iter.obeys_prophetic_iter_laws(),
                iter.decrease() is Some,
                0 <= seen <= outcomes.len(),
                iter.remaining() == outcomes.subrange(seen, outcomes.len() as int),
                forall|j: int| 0 <= j < seen - 1 ==> !(#[trigger] outcomes[j] is Some),
                !done && seen > 0 ==> !(outcomes[seen - 1] is Some),
                seen == 0 ==> rv is None,
                seen > 0 ==> rv == Some(outcomes[seen - 1]),
                done ==> seen == outcomes.len() || (seen > 0 && outcomes[seen - 1] is Some),
            decreases
                    (if done {
                        0
                    } else {
                        iter.decrease()->0 + 1
                    }),
        {
            match iter.next() {
                None => {
                    done = true;
                },
                Some(res) => {
                    proof {
                        seen = seen + 1;
                    }
                    done = res.is_some();
                    rv = Some(res);
                },
            }
        }
        rv
    }
}

} // verus!
