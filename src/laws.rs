use vstd::prelude::*;
use crate::camera::{has_bus, KeyedDevice};
use crate::camera_observer::{reconciled, CameraObserver};
use crate::state::{PreviousStateResult, State};

verus! {

/// One advancing call on a `State`: `successfull`, `failed`, `pass` or `skip`.
pub enum Advance<T, E> {
    Success(T),
    Failure(E),
    With(PreviousStateResult<T, E>),
    Auto,
}

/// The state after one advancing call, as the calls' contracts state it.
pub open spec fn advance_once<T, E>(s: State<T, E>, op: Advance<T, E>) -> State<T, E> {
    match op {
        Advance::Success(v) => s.advanced(Ok(v)),
        Advance::Failure(e) => s.advanced(Err(e)),
        Advance::With(o) => s.advanced(o),
        Advance::Auto => s.skipped(),
    }
}

/// The state after the advancing calls `ops`, in order.
pub open spec fn advance_all<T, E>(s: State<T, E>, ops: Seq<Advance<T, E>>) -> State<T, E>
    decreases ops.len(),
{
    if ops.len() == 0 {
        s
    } else {
        advance_once(advance_all(s, ops.drop_last()), ops.last())
    }
}

/// No advancing call moves a state to an earlier stage.
pub proof fn lemma_advance_once_never_goes_back<T, E>(s: State<T, E>, op: Advance<T, E>)
    ensures
        advance_once(s, op).stage() >= s.stage(),
{
}

/// Along any run of advancing calls the stage never decreases: the state
/// after the first `i` calls is at no later stage than after the first `j`.
pub proof fn lemma_advance_all_never_goes_back<T, E>(
    s: State<T, E>,
    ops: Seq<Advance<T, E>>,
    i: int,
    j: int,
)
    requires
        0 <= i <= j <= ops.len(),
    ensures
        advance_all(s, ops.take(i)).stage() <= advance_all(s, ops.take(j)).stage(),
    decreases j - i,
{
    if i < j {
        lemma_advance_all_never_goes_back(s, ops, i, j - 1);
        assert(ops.take(j).drop_last() =~= ops.take(j - 1));
        lemma_advance_once_never_goes_back(advance_all(s, ops.take(j - 1)), ops[j - 1]);
    }
}

/// An `Err` outcome with which a state leaves `Start` or `Run` always lands
/// in `Stop`, whichever call carries it.
pub proof fn lemma_error_leaving_start_or_run_stops<T, E>(s: State<T, E>, op: Advance<T, E>)
    requires
        s is Start || s is Run,
        advance_once(s, op).outcome()->0 is Err,
    ensures
        advance_once(s, op) is Stop,
{
}

/// `restart` from `Start`, `Run` or `Uninitialized` is refused and leaves
/// the state as it was.
pub proof fn lemma_restart_refused<T, E>(s: State<T, E>)
    requires
        s is Start || s is Run || s is Uninitialized,
    ensures
        !s.is_stop_or_done(),
        s.restarted() == s,
{
}

/// `restart_with(o)` is accepted from `Uninitialized`, `Stop` and `Done`,
/// entering `Start(o)`, and refused from `Start` and `Run`, changing nothing.
pub proof fn lemma_restart_with_acceptance<T, E>(s: State<T, E>, o: PreviousStateResult<T, E>)
    ensures
        (s is Uninitialized || s is Stop || s is Done) ==> s.can_restart_with()
            && s.restarted_with(o) == State::<T, E>::Start(o),
        (s is Start || s is Run) ==> !s.can_restart_with() && s.restarted_with(o) == s,
{
}

/// Advancing a `Done` state keeps it `Done`; only the carried outcome may
/// change, to the one the call brings (`skip` brings none and keeps it).
pub proof fn lemma_done_is_stable<T, E>(s: State<T, E>, op: Advance<T, E>)
    requires
        s is Done,
    ensures
        advance_once(s, op) is Done,
        op is Success ==> advance_once(s, op).outcome() == Some(
            Ok::<T, E>(op->Success_0),
        ),
        op is Failure ==> advance_once(s, op).outcome() == Some(
            Err::<T, E>(op->Failure_0),
        ),
        op is With ==> advance_once(s, op).outcome() == Some(op->With_0),
        op is Auto ==> advance_once(s, op) == s,
{
}

/// However many advancing calls follow, a `Done` state stays `Done`.
pub proof fn lemma_done_stays_done<T, E>(s: State<T, E>, ops: Seq<Advance<T, E>>)
    requires
        s is Done,
    ensures
        advance_all(s, ops) is Done,
    decreases ops.len(),
{
    if ops.len() > 0 {
        lemma_done_stays_done(s, ops.drop_last());
    }
}

/// A forced stop from `Run` takes effect and lands in `Stop` with the outcome
/// held at that moment; a second forced stop is refused.
pub proof fn lemma_force_stop_from_run<T, E>(s: State<T, E>)
    requires
        s is Run,
    ensures
        s.can_force_stop(),
        s.force_stopped() == State::<T, E>::Stop(s.outcome()->0),
        !s.force_stopped().can_force_stop(),
        s.force_stopped().force_stopped() == s.force_stopped(),
{
}

/// Reconciliation never finishes a session: one whose device disappeared is
/// `Done` afterwards only if it already was, so it is never collected in the
/// cycle that noticed the disappearance, and a forced stop always lands in
/// `Stop` first.
pub proof fn lemma_reconcile_never_finishes<H, E>(
    o: CameraObserver<H, E>,
    inventory: Seq<KeyedDevice>,
)
    ensures
        reconciled(o, inventory) is Done <==> o.lifecycle() is Done,
        (o.lifecycle() is Start || o.lifecycle() is Run) && !has_bus(inventory, o.bus_key())
            ==> reconciled(o, inventory) == State::<H, E>::Stop(o.lifecycle().outcome()->0),
{
}

} // verus!
