use vstd::prelude::*;

verus! {

/// The outcome carried from one stage of a lifecycle to the next.
pub type PreviousStateResult<T, E> = Result<T, E>;

/// A four-stage lifecycle (`Start -> Run -> Stop -> Done`), each stage holding
/// the last outcome produced before it was entered. `Uninitialized` carries
/// nothing and never advances on its own.
#[derive(Debug)]
pub enum State<T, E> {
    Uninitialized,
    Start(PreviousStateResult<T, E>),
    Run(PreviousStateResult<T, E>),
    Stop(PreviousStateResult<T, E>),
    Done(PreviousStateResult<T, E>),
}

impl<T, E> State<T, E> {
    /// Position of the stage in the lifecycle: `Uninitialized` 0, `Start` 1,
    /// `Run` 2, `Stop` 3, `Done` 4.
    pub open spec fn stage(self) -> nat {
        match self {
            State::Uninitialized => 0,
            State::Start(_) => 1,
            State::Run(_) => 2,
            State::Stop(_) => 3,
            State::Done(_) => 4,
        }
    }

    /// The carried outcome; nothing only for the uninitialised state.
    pub open spec fn outcome(self) -> Option<PreviousStateResult<T, E>> {
        match self {
            State::Uninitialized => Option::None,
            State::Start(r) => Some(r),
            State::Run(r) => Some(r),
            State::Stop(r) => Some(r),
            State::Done(r) => Some(r),
        }
    }

    /// Returns `State::Start` carrying the given outcome.
    pub fn new(initial_previous_state: PreviousStateResult<T, E>) -> (r: Self)
        ensures
            r == State::Start(initial_previous_state),
    {
        State::Start(initial_previous_state)
    }

    /// The state after a transition that leaves the current stage with
    /// outcome `o`: `Start -> Run`, `Run -> Stop`, `Stop -> Done`,
    /// `Done -> Done`. An `Err` outcome leaving `Start` goes straight to
    /// `Stop`, so that no failure enters `Run`. The uninitialised state stays.
    pub open spec fn advanced(self, o: PreviousStateResult<T, E>) -> State<T, E> {
        match self {
            State::Uninitialized => State::Uninitialized,
            State::Start(_) => if o is Ok {
                State::Run(o)
            } else {
                State::Stop(o)
            },
            State::Run(_) => State::Stop(o),
            State::Stop(_) => State::Done(o),
            State::Done(_) => State::Done(o),
        }
    }

    /// The state after carrying the current outcome one stage forward.
    pub open spec fn skipped(self) -> State<T, E> {
        match self {
            State::Uninitialized => State::Uninitialized,
            State::Start(o) => self.advanced(o),
            State::Run(o) => self.advanced(o),
            State::Stop(o) => self.advanced(o),
            State::Done(o) => self.advanced(o),
        }
    }

    /// The outcome handed back by an advancing transition: the displaced one
    /// when the state was already `Done`.
    pub open spec fn displaced(self) -> Option<PreviousStateResult<T, E>> {
        match self {
            State::Done(o) => Some(o),
            _ => Option::None,
        }
    }

    pub open spec fn is_stop_or_done(self) -> bool {
        self is Stop || self is Done
    }

    /// Whether `restart_with` is accepted from this state.
    pub open spec fn can_restart_with(self) -> bool {
        self is Uninitialized || self is Stop || self is Done
    }

    /// The state after `restart`.
    pub open spec fn restarted(self) -> State<T, E> {
        if self.is_stop_or_done() {
            State::Start(self.outcome()->0)
        } else {
            self
        }
    }

    /// The state after `restart_with(o)`.
    pub open spec fn restarted_with(self, o: PreviousStateResult<T, E>) -> State<T, E> {
        if self.can_restart_with() {
            State::Start(o)
        } else {
            self
        }
    }

    /// Whether a forced stop takes effect from this state.
    pub open spec fn can_force_stop(self) -> bool {
        self is Start || self is Run
    }

    /// The state after a forced stop that keeps the carried outcome.
    pub open spec fn force_stopped(self) -> State<T, E> {
        if self.can_force_stop() {
            State::Stop(self.outcome()->0)
        } else {
            self
        }
    }

    /// The state after a forced stop with outcome `o`.
    pub open spec fn force_stopped_with(self, o: PreviousStateResult<T, E>) -> State<T, E> {
        if self.can_force_stop() {
            State::Stop(o)
        } else {
            self
        }
    }

    /// This state with its stage kept and its outcome replaced by `o`.
    pub open spec fn with_outcome(self, o: PreviousStateResult<T, E>) -> State<T, E> {
        match self {
            State::Uninitialized => State::Uninitialized,
            State::Start(_) => State::Start(o),
            State::Run(_) => State::Run(o),
            State::Stop(_) => State::Stop(o),
            State::Done(_) => State::Done(o),
        }
    }

    fn take(&mut self) -> (r: Self)
        ensures
            r == *old(self),
            *final(self) == State::<T, E>::Uninitialized,
    {
        let mut r = State::Uninitialized;
        core::mem::swap(self, &mut r);
        r
    }

    /// Moves to the next stage with outcome `o`; see `advanced`. Returns the
    /// outcome displaced from a `Done` state, `None` from any other.
    pub fn pass(&mut self, new_previous_result: PreviousStateResult<T, E>) -> (r: Option<
        PreviousStateResult<T, E>,
    >)
        ensures
            *final(self) == old(self).advanced(new_previous_result),
            r == old(self).displaced(),
    {
        match self.take() {
            State::Uninitialized => {
                *self = State::Uninitialized;
                Option::None
            },
            State::Start(_) => {
                if new_previous_result.is_ok() {
                    *self = State::Run(new_previous_result);
                } else {
                    *self = State::Stop(new_previous_result);
                }
                Option::None
            },
            State::Run(_) => {
                *self = State::Stop(new_previous_result);
                Option::None
            },
            State::Stop(_) => {
                *self = State::Done(new_previous_result);
                Option::None
            },
            State::Done(last) => {
                *self = State::Done(new_previous_result);
                Some(last)
            },
        }
    }

    /// Moves to the next stage with a successful outcome:
    /// `Start -> Run -> Stop -> Done -> Done`. Returns the outcome displaced
    /// from a `Done` state.
    pub fn successfull(&mut self, ok: T) -> (r: Option<PreviousStateResult<T, E>>)
        ensures
            *final(self) == old(self).advanced(Ok(ok)),
            r == old(self).displaced(),
    {
        self.pass(Ok(ok))
    }

    /// Moves to the next stage with a failed outcome: `Start` and `Run` go to
    /// `Stop`, `Stop` and `Done` go to `Done`. Returns the outcome displaced
    /// from a `Done` state.
    pub fn failed(&mut self, err: E) -> (r: Option<PreviousStateResult<T, E>>)
        ensures
            *final(self) == old(self).advanced(Err(err)),
            r == old(self).displaced(),
    {
        self.pass(Err(err))
    }

    /// Carries the current outcome one stage forward; from `Start` an `Err`
    /// outcome goes straight to `Stop`.
    pub fn skip(&mut self)
        ensures
            *final(self) == old(self).skipped(),
    {
        match self.take() {
            State::Uninitialized => {
                *self = State::Uninitialized;
            },
            State::Start(previous_result) => {
                if previous_result.is_ok() {
                    *self = State::Run(previous_result);
                } else {
                    *self = State::Stop(previous_result);
                }
            },
            State::Run(previous_result) => {
                *self = State::Stop(previous_result);
            },
            State::Stop(previous_result) => {
                *self = State::Done(previous_result);
            },
            State::Done(previous_result) => {
                *self = State::Done(previous_result);
            },
        }
    }

    /// From `Stop` or `Done`, moves the carried outcome into a new `Start`
    /// and returns `true`; from any other state returns `false` and changes
    /// nothing.
    pub fn restart(&mut self) -> (r: bool)
        ensures
            r == old(self).is_stop_or_done(),
            *final(self) == old(self).restarted(),
    {
        match self.take() {
            State::Stop(last_result) => {
                *self = State::Start(last_result);
                true
            },
            State::Done(last_result) => {
                *self = State::Start(last_result);
                true
            },
            other => {
                *self = other;
                false
            },
        }
    }

    /// From `Uninitialized`, `Stop` or `Done`, enters `Start` with the given
    /// outcome and returns `true`; from `Start` or `Run` returns `false` and
    /// changes nothing.
    pub fn restart_with(&mut self, new_previous_result: PreviousStateResult<T, E>) -> (r: bool)
        ensures
            r == old(self).can_restart_with(),
            *final(self) == old(self).restarted_with(new_previous_result),
    {
        match self {
            State::Start(_) => false,
            State::Run(_) => false,
            _ => {
                *self = State::Start(new_previous_result);
                true
            },
        }
    }

    /// Exchanges the carried outcome for the given one and returns the old
    /// one. Nothing changes, and `None` comes back, when no outcome is given
    /// or the state carries none.
    pub fn replace(
        &mut self,
        new_previous_result: Option<PreviousStateResult<T, E>>,
    ) -> (r: Option<PreviousStateResult<T, E>>)
        ensures
            new_previous_result is None ==> *final(self) == *old(self) && r is None,
            new_previous_result is Some ==> *final(self) == old(self).with_outcome(
                new_previous_result->0,
            ) && r == old(self).outcome(),
    {
        match new_previous_result {
            Option::None => Option::None,
            Some(new_result) => match self.take() {
                State::Uninitialized => {
                    *self = State::Uninitialized;
                    Option::None
                },
                State::Start(last) => {
                    *self = State::Start(new_result);
                    Some(last)
                },
                State::Run(last) => {
                    *self = State::Run(new_result);
                    Some(last)
                },
                State::Stop(last) => {
                    *self = State::Stop(new_result);
                    Some(last)
                },
                State::Done(last) => {
                    *self = State::Done(new_result);
                    Some(last)
                },
            },
        }
    }

    /// A reference to the carried outcome, `None` for the uninitialised state.
    pub fn get_last_result(&self) -> (r: Option<&PreviousStateResult<T, E>>)
        ensures
            r is Some <==> self.outcome() is Some,
            r is Some ==> *r->0 == self.outcome()->0,
    {
        match self {
            State::Uninitialized => Option::None,
            State::Start(last_result) => Some(last_result),
            State::Run(last_result) => Some(last_result),
            State::Stop(last_result) => Some(last_result),
            State::Done(last_result) => Some(last_result),
        }
    }

    /// Whether the state is `Done`, the final stage.
    pub fn is_done(&self) -> (r: bool)
        ensures
            r == self is Done,
    {
        match self {
            State::Done(_) => true,
            _ => false,
        }
    }

    /// Whether the state carries an outcome (every state but `Uninitialized`).
    pub fn has_result(&self) -> (r: bool)
        ensures
            r == self.outcome() is Some,
            r == !(self is Uninitialized),
    {
        match self {
            State::Uninitialized => false,
            _ => true,
        }
    }

    /// In `Stop` with an `Err` outcome, moves that error on to `Done` and
    /// returns `false`. Otherwise changes nothing and returns `true`, meaning
    /// the caller may go on with its own transition.
    pub fn check_and_propagate_error(&mut self) -> (r: bool)
        ensures
            r == !((*old(self)) is Stop && old(self).outcome()->0 is Err),
            !r ==> *final(self) == State::Done(old(self).outcome()->0),
            r ==> *final(self) == *old(self),
    {
        match self.take() {
            State::Stop(last_result) => {
                if last_result.is_err() {
                    *self = State::Done(last_result);
                    false
                } else {
                    *self = State::Stop(last_result);
                    true
                }
            },
            other => {
                *self = other;
                true
            },
        }
    }
}

impl<T, E> State<T, E> {
    /// The words that introduce this state's outcome when it is shown.
    pub fn stage_label(&self) -> (r: &'static str)
        ensures
            self is Uninitialized ==> r@ == "None"@,
            self is Start ==> r@ == "Starting with: "@,
            self is Run ==> r@ == "Running with: "@,
            self is Stop ==> r@ == "Stopping with: "@,
            self is Done ==> r@ == "Done with:: "@,
    {
        match self {
            State::Uninitialized => "None",
            State::Start(_) => "Starting with: ",
            State::Run(_) => "Running with: ",
            State::Stop(_) => "Stopping with: ",
            State::Done(_) => "Done with:: ",
        }
    }
}

/// A sample handler step: from `Start` it fails when the carried outcome is
/// `Ok` and succeeds otherwise; from `Run` it succeeds; from `Stop` it moves
/// a carried error on to `Done`, or else succeeds; other states stay.
pub fn test_state(state: &mut State<String, String>)
    ensures
        (*old(state)) is Start && old(state).outcome()->0 is Ok ==> (*final(state)) is Stop
            && final(state).outcome()->0 is Err && final(state).outcome()->0->Err_0@
            == "Started unsucessfully!!!"@,
        (*old(state)) is Start && old(state).outcome()->0 is Err ==> (*final(state)) is Run
            && final(state).outcome()->0 is Ok && final(state).outcome()->0->Ok_0@
            == "Started sucessfully"@,
        (*old(state)) is Run ==> (*final(state)) is Stop && final(state).outcome()->0 is Ok
            && final(state).outcome()->0->Ok_0@ == "Running succesful"@,
        (*old(state)) is Stop && old(state).outcome()->0 is Err ==> *final(state) == State::<
            String,
            String,
        >::Done(old(state).outcome()->0),
        (*old(state)) is Stop && old(state).outcome()->0 is Ok ==> (*final(state)) is Done
            && final(state).outcome()->0 is Ok && final(state).outcome()->0->Ok_0@
            == "Stopped succesfully"@,
        (*old(state)) is Uninitialized || (*old(state)) is Done ==> *final(state) == *old(state),
{
    match state {
        State::Start(previous_state) => {
            if previous_state.is_ok() {
                state.failed("Started unsucessfully!!!".to_owned());
            } else {
                state.successfull("Started sucessfully".to_owned());
            }
        },
        State::Run(_) => {
            state.successfull("Running succesful".to_owned());
        },
        State::Stop(_) => {
            if state.check_and_propagate_error() {
                state.successfull("Stopped succesfully".to_owned());
            }
        },
        _ => {},
    }
}

impl<T, E> Default for State<T, E> {
    fn default() -> (r: Self)
        ensures
            r == State::<T, E>::Uninitialized,
    {
        State::Uninitialized
    }
}

/// A party that drives transitions of a state it is handed exclusively.
/// `handles` states what each call of `handle` does to the state.
pub trait StateHandler<T, E> {
    spec fn handles(&self, before: State<T, E>, after: State<T, E>) -> bool;

    /// Reads and mutates the state exclusively.
    fn handle(&mut self, state: &mut State<T, E>)
        ensures
            old(self).handles(*old(state), *final(state)),
    ;
}

/// Encapsulates a `State`: it changes only through `apply_handler`, or
/// through `force_stop` / `force_stop_with` as a last resort.
pub struct StateWrapper<T, E> {
    state: State<T, E>,
}

impl<T, E> View for StateWrapper<T, E> {
    type V = State<T, E>;

    closed spec fn view(&self) -> State<T, E> {
        self.state
    }
}

impl<T, E> StateWrapper<T, E> {
    pub fn new(state: State<T, E>) -> (r: Self)
        ensures
            r@ == state,
    {
        Self { state: state }
    }

    /// The wrapper around the uninitialised state.
    pub fn empty() -> (r: Self)
        ensures
            r@ == State::<T, E>::Uninitialized,
    {
        Self { state: State::Uninitialized }
    }

    /// A read-only reference to the inner state.
    pub fn get_inner_state(&self) -> (r: &State<T, E>)
        ensures
            *r == self@,
    {
        &self.state
    }

    pub fn get_last_result(&self) -> (r: Option<&PreviousStateResult<T, E>>)
        ensures
            r is Some <==> self@.outcome() is Some,
            r is Some ==> *r->0 == self@.outcome()->0,
    {
        self.state.get_last_result()
    }

    pub fn is_done(&self) -> (r: bool)
        ensures
            r == self@ is Done,
    {
        self.state.is_done()
    }

    pub fn has_result(&self) -> (r: bool)
        ensures
            r == self@.outcome() is Some,
    {
        self.state.has_result()
    }

    /// From `Start` or `Run`, jumps to `Stop` keeping the carried outcome and
    /// returns `true`; from any other state returns `false` and changes
    /// nothing. Meant for shutting many sessions down at once; it must not
    /// run while a handler is applied.
    pub fn force_stop(&mut self) -> (r: bool)
        ensures
            r == old(self)@.can_force_stop(),
            final(self)@ == old(self)@.force_stopped(),
    {
        match self.state.take() {
            State::Start(last_result) => {
                self.state = State::Stop(last_result);
                true
            },
            State::Run(last_result) => {
                self.state = State::Stop(last_result);
                true
            },
            other => {
                self.state = other;
                false
            },
        }
    }

    /// From `Start` or `Run`, jumps to `Stop` with the given outcome and
    /// returns `true`; from any other state returns `false` and changes
    /// nothing.
    pub fn force_stop_with(&mut self, new_previous_state: PreviousStateResult<T, E>) -> (r: bool)
        ensures
            r == old(self)@.can_force_stop(),
            final(self)@ == old(self)@.force_stopped_with(new_previous_state),
    {
        match self.state {
            State::Start(_) | State::Run(_) => {
                self.state = State::Stop(new_previous_state);
                true
            },
            _ => false,
        }
    }

    /// Hands the inner state to `handler` for exclusive mutation.
    pub fn apply_handler<H: StateHandler<T, E>>(&mut self, handler: &mut H)
        ensures
            old(handler).handles(old(self)@, final(self)@),
    {
        handler.handle(&mut self.state);
    }
}

impl<T, E> Default for StateWrapper<T, E> {
    fn default() -> (r: Self)
        ensures
            r@ == State::<T, E>::Uninitialized,
    {
        StateWrapper::empty()
    }
}

/// Holds the state shared by everything that belongs to one entity.
pub struct StateComponent<T, E> {
    pub state: StateWrapper<T, E>,
}

impl<T, E> StateComponent<T, E> {
    pub fn new() -> (r: Self)
        ensures
            r.state@ == State::<T, E>::Uninitialized,
    {
        StateComponent { state: StateWrapper::empty() }
    }
}

} // verus!
