//! Laws of the handle lifecycle, proved over the model of [`Database`](crate::database::Database).

use vstd::prelude::*;
use crate::database::{DatabaseView, LifecycleState, Operation};

verus! {

/// The pointers a manager holds: its handle while open, nothing otherwise.
pub open spec fn held(v: DatabaseView) -> Seq<usize> {
    match v.lendable() {
        Some(p) => seq![p],
        None => Seq::empty(),
    }
}

/// Every operation keeps a well-formed manager well-formed.
pub proof fn step_preserves_wf(v: DatabaseView, op: Operation)
    requires
        v.wf(),
    ensures
        v.step(op).wf(),
{
}

/// Every sequence of operations keeps a well-formed manager well-formed.
pub proof fn run_preserves_wf(v: DatabaseView, ops: Seq<Operation>)
    requires
        v.wf(),
    ensures
        v.run(ops).wf(),
    decreases ops.len(),
{
    if ops.len() > 0 {
        step_preserves_wf(v, ops[0]);
        run_preserves_wf(v.step(ops[0]), ops.drop_first());
    }
}

/// An init that leaves a message in the error slot never yields a handle:
/// whatever the handle slot holds, nothing is accepted, the state does not
/// change, and a manager that was waiting for its first handle still holds
/// the null pointer and remembers the message.
pub proof fn failed_init_keeps_no_handle(v: DatabaseView, db: usize, error: Option<Seq<char>>)
    requires
        v.wf(),
        error is Some,
    ensures
        v.init_verdict(db, error) is Some,
        v.after_init(db, error).state == v.state,
        v.after_init(db, error).handle == v.handle,
        v.state is Uninitialized ==> v.after_init(db, error).handle == 0 && v.after_init(
            db,
            error,
        ).lendable() is None && v.after_init(db, error).last_error == error,
{
}

/// A successful init opens the database with exactly the handle the engine
/// returned, and that handle is not null.
pub proof fn successful_init_opens(v: DatabaseView, db: usize, error: Option<Seq<char>>)
    requires
        v.wf(),
        v.init_verdict(db, error) is None,
    ensures
        v.state is Uninitialized,
        error is None,
        db != 0,
        v.after_init(db, error).state is Open,
        v.after_init(db, error).lendable() == Some(db),
        v.after_init(db, error).config == v.config,
{
}

/// Closing a second time changes nothing and hands out nothing: the pointer
/// an open database gives up is never given up again.
pub proof fn second_close_is_a_no_op(v: DatabaseView)
    requires
        v.wf(),
    ensures
        v.after_close().after_close() == v.after_close(),
        v.after_close().released_by_close() is None,
        v.after_close().lendable() is None,
        v.state is Open ==> v.after_close().state is Closed && v.released_by_close() == Some(
            v.handle,
        ),
{
}

/// Nothing leads out of the closed state: whatever is tried afterwards, the
/// manager stays as it is, accepts no handle and releases none.
pub proof fn closed_is_final(v: DatabaseView, ops: Seq<Operation>)
    requires
        v.state is Closed,
    ensures
        v.run(ops) == v,
        v.accepted(ops) == Seq::<usize>::empty(),
        v.released(ops) == Seq::<usize>::empty(),
    decreases ops.len(),
{
    if ops.len() > 0 {
        assert(v.step(ops[0]) == v);
        closed_is_final(v, ops.drop_first());
    }
}

/// For every configuration string and every outcome of the native init call,
/// init followed by close leaves no handle that could be lent again. If the
/// init had succeeded, the manager is closed for good: no later operation
/// changes it, obtains a handle or releases one.
pub proof fn init_then_close_leaves_no_handle(
    config: Seq<char>,
    db: usize,
    error: Option<Seq<char>>,
    later: Seq<Operation>,
)
    ensures
        ({
            let opened = DatabaseView::fresh(config).after_init(db, error);
            let closed = opened.after_close();
            &&& closed.lendable() is None
            &&& closed.handle == 0
            &&& closed.released_by_close() is None
            &&& opened.released_by_close() == opened.lendable()
            &&& DatabaseView::fresh(config).init_verdict(db, error) is None ==> {
                &&& opened.released_by_close() == Some(db)
                &&& closed.state is Closed
                &&& closed.run(later) == closed
                &&& closed.run(later).lendable() is None
                &&& closed.released(later) == Seq::<usize>::empty()
            }
        }),
{
    let opened = DatabaseView::fresh(config).after_init(db, error);
    let closed = opened.after_close();
    if DatabaseView::fresh(config).init_verdict(db, error) is None {
        closed_is_final(closed, later);
    }
}

/// Pointers are conserved. Over any sequence of operations, the pointers held
/// at the start together with those accepted along the way are exactly those
/// released along the way together with those still held at the end, in the
/// same order. So every accepted handle is released at most once, and only
/// handles that were accepted are ever released.
pub proof fn pointers_are_conserved(v: DatabaseView, ops: Seq<Operation>)
    requires
        v.wf(),
    ensures
        held(v) + v.accepted(ops) == v.released(ops) + held(v.run(ops)),
    decreases ops.len(),
{
    if ops.len() == 0 {
        assert(held(v) + v.accepted(ops) =~= v.released(ops) + held(v.run(ops)));
    } else {
        let op = ops[0];
        let next = v.step(op);
        let rest = ops.drop_first();
        step_preserves_wf(v, op);
        pointers_are_conserved(next, rest);
        assert(held(v) + v.accepted(ops) =~= v.released(ops) + held(v.run(ops))) by {
            match op {
                Operation::Init { db, error } => {
                    if v.init_verdict(db, error) is None {
                        assert(held(v) =~= Seq::<usize>::empty());
                        assert(held(next) =~= seq![db]);
                        assert(v.accepted(ops) == seq![db] + next.accepted(rest));
                    } else {
                        assert(held(next) == held(v));
                        assert(v.accepted(ops) == next.accepted(rest));
                    }
                    assert(v.released(ops) == next.released(rest));
                },
                Operation::Close => {
                    assert(v.accepted(ops) == next.accepted(rest));
                    if v.state is Open {
                        assert(held(v) =~= seq![v.handle]);
                        assert(held(next) =~= Seq::<usize>::empty());
                        assert(v.released(ops) == seq![v.handle] + next.released(rest));
                        assert(next.accepted(rest) =~= next.released(rest) + held(
                            next.run(rest),
                        ));
                    } else {
                        assert(held(next) == held(v));
                        assert(v.released(ops) == next.released(rest));
                    }
                },
            }
        }
    }
}

/// A null pointer is never handed out for release.
pub proof fn released_pointers_are_not_null(v: DatabaseView, ops: Seq<Operation>, i: int)
    requires
        v.wf(),
        0 <= i < v.released(ops).len(),
    ensures
        v.released(ops)[i] != 0,
    decreases ops.len(),
{
    if ops.len() > 0 {
        let next = v.step(ops[0]);
        let rest = ops.drop_first();
        step_preserves_wf(v, ops[0]);
        match v.released_by(ops[0]) {
            Some(p) => {
                if i > 0 {
                    released_pointers_are_not_null(next, rest, i - 1);
                }
            },
            None => {
                released_pointers_are_not_null(next, rest, i);
            },
        }
    }
}

/// A manager that starts uninitialized accepts at most one handle in its
/// whole life and releases at most one pointer, which is then the handle it
/// accepted.
pub proof fn at_most_one_release(config: Seq<char>, ops: Seq<Operation>)
    ensures
        DatabaseView::fresh(config).accepted(ops).len() <= 1,
        DatabaseView::fresh(config).released(ops).len() <= DatabaseView::fresh(config).accepted(
            ops,
        ).len(),
        DatabaseView::fresh(config).released(ops).len() == 1 ==> DatabaseView::fresh(
            config,
        ).released(ops)[0] == DatabaseView::fresh(config).accepted(ops)[0],
{
    let v = DatabaseView::fresh(config);
    accepts_at_most_once(v, ops);
    pointers_are_conserved(v, ops);
    assert(held(v) =~= Seq::<usize>::empty());
    assert(held(v) + v.accepted(ops) =~= v.accepted(ops));
    let end = held(v.run(ops));
    assert(v.accepted(ops).len() == v.released(ops).len() + end.len());
    if v.released(ops).len() == 1 {
        assert((v.released(ops) + end)[0] == v.released(ops)[0]);
    }
}

/// How many handles a manager can still accept: one while uninitialized, none after.
pub open spec fn acceptances_left(v: DatabaseView) -> nat {
    match v.state {
        LifecycleState::Uninitialized => 1,
        _ => 0,
    }
}

/// A manager accepts a handle at most once, and never after it has been open.
pub proof fn accepts_at_most_once(v: DatabaseView, ops: Seq<Operation>)
    ensures
        v.accepted(ops).len() <= acceptances_left(v),
    decreases ops.len(),
{
    if ops.len() > 0 {
        accepts_at_most_once(v.step(ops[0]), ops.drop_first());
    }
}

} // verus!
