//! Laws of the ledger over runs of requests and releases.
use crate::ledger::{
    acquired, consistent, grants, released, AccessKind, AccessState,
};
use crate::lender::Lender;
use vstd::prelude::*;
use vstd::seq_lib::*;

verus! {

/// Names and state after each of `borrowers`, in order, asked for access of
/// `kind`.
pub open spec fn acquire_all(
    names: Seq<Seq<char>>,
    state: AccessState,
    kind: AccessKind,
    borrowers: Seq<Seq<char>>,
) -> (Seq<Seq<char>>, AccessState)
    decreases borrowers.len(),
{
    if borrowers.len() == 0 {
        (names, state)
    } else {
        let (n, s) = acquire_all(names, state, kind, borrowers.drop_last());
        acquired(n, s, kind, borrowers.last())
    }
}

/// Names and state after the guards of `borrowers` were released in that
/// order.
pub open spec fn release_all(
    names: Seq<Seq<char>>,
    state: AccessState,
    borrowers: Seq<Seq<char>>,
) -> (Seq<Seq<char>>, AccessState)
    decreases borrowers.len(),
{
    if borrowers.len() == 0 {
        (names, state)
    } else {
        let (n, s) = released(names, state, borrowers[0]);
        release_all(n, s, borrowers.drop_first())
    }
}

/// While no exclusive access is out, every shared request in a run is
/// granted: the names are appended in order, so the ledger holds one entry
/// per guard handed out.
pub proof fn lemma_shared_run(
    names: Seq<Seq<char>>,
    state: AccessState,
    borrowers: Seq<Seq<char>>,
)
    requires
        consistent(names, state),
        state != AccessState::Exclusive,
    ensures
        acquire_all(names, state, AccessKind::Shared, borrowers).0 == names + borrowers,
        acquire_all(names, state, AccessKind::Shared, borrowers).0.len() == names.len()
            + borrowers.len(),
        acquire_all(names, state, AccessKind::Shared, borrowers).1 == (if borrowers.len() == 0 {
            state
        } else {
            AccessState::Shared
        }),
    decreases borrowers.len(),
{
    if borrowers.len() > 0 {
        lemma_shared_run(names, state, borrowers.drop_last());
        assert(names + borrowers =~= (names + borrowers.drop_last()).push(borrowers.last()));
    } else {
        assert(names + borrowers =~= names);
    }
}

/// A shared request is refused exactly when an exclusive access is out;
/// a granted one appends its name, a refused one changes nothing.
pub proof fn lemma_shared_refused_iff_exclusive(
    names: Seq<Seq<char>>,
    state: AccessState,
    borrower: Seq<char>,
)
    requires
        consistent(names, state),
    ensures
        !grants(state, AccessKind::Shared) <==> state == AccessState::Exclusive,
        state != AccessState::Exclusive ==> acquired(names, state, AccessKind::Shared, borrower)
            == (names.push(borrower), AccessState::Shared),
        state == AccessState::Exclusive ==> acquired(names, state, AccessKind::Shared, borrower)
            == (names, state),
{
}

/// An exclusive request is refused exactly when the ledger is not empty.
pub proof fn lemma_exclusive_refused_iff_borrowed(
    names: Seq<Seq<char>>,
    state: AccessState,
    borrower: Seq<char>,
)
    requires
        consistent(names, state),
    ensures
        !grants(state, AccessKind::Exclusive) <==> names.len() > 0,
        names.len() == 0 ==> acquired(names, state, AccessKind::Exclusive, borrower) == (
            seq![borrower],
            AccessState::Exclusive,
        ),
        names.len() > 0 ==> acquired(names, state, AccessKind::Exclusive, borrower) == (
            names,
            state,
        ),
{
    if names.len() == 0 {
        assert(names.push(borrower) =~= seq![borrower]);
    }
}

/// Releasing a guard whose name is in the ledger removes exactly one entry
/// with that name, and the ledger stays consistent.
pub proof fn lemma_release_one(names: Seq<Seq<char>>, state: AccessState, borrower: Seq<char>)
    requires
        consistent(names, state),
        names.contains(borrower),
    ensures
        released(names, state, borrower).0.len() == names.len() - 1,
        released(names, state, borrower).0.to_multiset() == names.to_multiset().remove(borrower),
        consistent(released(names, state, borrower).0, released(names, state, borrower).1),
{
    broadcast use group_to_multiset_ensures;

    names.index_of_first_ensures(borrower);
}

/// Releasing every outstanding guard, in any order, leaves the ledger empty
/// and the value free.
pub proof fn lemma_release_all(
    names: Seq<Seq<char>>,
    state: AccessState,
    borrowers: Seq<Seq<char>>,
)
    requires
        consistent(names, state),
        borrowers.to_multiset() == names.to_multiset(),
    ensures
        release_all(names, state, borrowers) == (Seq::<Seq<char>>::empty(), AccessState::Free),
    decreases borrowers.len(),
{
    broadcast use group_to_multiset_ensures;

    if borrowers.len() == 0 {
        assert(borrowers.to_multiset().len() == 0);
        assert(names.to_multiset().len() == names.len());
        assert(names =~= Seq::<Seq<char>>::empty());
    } else {
        let b = borrowers[0];
        assert(borrowers.to_multiset().count(b) > 0);
        lemma_release_one(names, state, b);
        let (n, s) = released(names, state, b);
        assert(borrowers.remove(0) =~= borrowers.drop_first());
        lemma_release_all(n, s, borrowers.drop_first());
    }
}

/// A clone consults the ledger of the handle it came from: while a guard
/// from either handle is out, an exclusive request through either one is
/// refused alike, listing the same names.
pub proof fn lemma_clone_shares_refusal<T>(
    original: Lender<T>,
    copy: Lender<T>,
    names: Seq<Seq<char>>,
    state: AccessState,
    borrower: Seq<char>,
)
    requires
        copy.shares_with(&original),
        consistent(names, state),
        names.len() > 0,
    ensures
        copy.ledger() == original.ledger(),
        !grants(state, AccessKind::Exclusive),
        acquired(names, state, AccessKind::Exclusive, borrower) == (names, state),
{
}

} // verus!
