use vstd::prelude::*;
use crate::state::{PreviousStateResult, State};

verus! {

/// Lets any part of the application ask it to stop with a final result.
pub struct ApplicationControls {
    result: Option<PreviousStateResult<String, String>>,
}

impl ApplicationControls {
    /// The result a stop was requested with, if any.
    pub closed spec fn requested(&self) -> Option<PreviousStateResult<String, String>> {
        self.result
    }

    pub fn new() -> (r: Self)
        ensures
            r.requested() is None,
    {
        ApplicationControls { result: None }
    }

    /// Requests a stop with `new_previous_result`; the first request wins.
    pub fn request_stop(&mut self, new_previous_result: PreviousStateResult<String, String>)
        ensures
            final(self).requested() == if old(self).requested() is None {
                Some(new_previous_result)
            } else {
                old(self).requested()
            },
    {
        if self.result.is_none() {
            self.result = Some(new_previous_result);
        }
    }

    fn take_request(&mut self) -> (r: Option<PreviousStateResult<String, String>>)
        ensures
            r == old(self).requested(),
            final(self).requested() is None,
    {
        let mut r = None;
        core::mem::swap(&mut r, &mut self.result);
        r
    }
}

impl Default for ApplicationControls {
    fn default() -> (r: Self)
        ensures
            r.requested() is None,
    {
        ApplicationControls::new()
    }
}

/// Outside work the application's driver must do after a step.
#[derive(PartialEq, Eq, Structural, Debug, Clone, Copy)]
pub enum AppAction {
    Nothing,
    /// Set up the entities and systems of the schedule.
    SetupEntities,
    /// Run the schedule once.
    RunSchedule,
}

/// The application's own lifecycle, driven one step per call.
pub struct Application {
    state: State<String, String>,
}

impl Application {
    pub closed spec fn lifecycle(&self) -> State<String, String> {
        self.state
    }

    /// An application that has not started yet.
    pub fn new() -> (r: Self)
        ensures
            r.lifecycle() is Uninitialized,
    {
        Application { state: State::Uninitialized }
    }

    /// One step of the application's lifecycle; returns the outside work
    /// the driver must then do:
    /// - uninitialised: enters `Start` with an empty `Ok` outcome;
    /// - `Start`: carries its outcome forward, asking for the entities to be
    ///   set up;
    /// - `Run`: asks for one run of the schedule while no stop is requested;
    ///   otherwise takes the requested result and advances with it;
    /// - `Stop`: carries its outcome on to `Done`;
    /// - `Done`: nothing.
    pub fn state_handler(&mut self, controls: &mut ApplicationControls) -> (r: AppAction)
        ensures
            old(self).lifecycle() is Uninitialized ==> {
                &&& r == AppAction::Nothing
                &&& final(self).lifecycle() is Start
                &&& final(self).lifecycle().outcome()->0 is Ok
                &&& final(self).lifecycle().outcome()->0->Ok_0@ == Seq::<char>::empty()
            },
            old(self).lifecycle() is Start ==> r == AppAction::SetupEntities
                && final(self).lifecycle() == old(self).lifecycle().skipped(),
            old(self).lifecycle() is Run && old(controls).requested() is None ==> r
                == AppAction::RunSchedule && final(self).lifecycle() == old(self).lifecycle(),
            old(self).lifecycle() is Run && old(controls).requested() is Some ==> r
                == AppAction::Nothing && final(self).lifecycle() == old(self).lifecycle().advanced(
                old(controls).requested()->0,
            ) && final(controls).requested() is None,
            old(self).lifecycle() is Stop ==> r == AppAction::Nothing && final(self).lifecycle()
                == old(self).lifecycle().skipped(),
            old(self).lifecycle() is Done ==> r == AppAction::Nothing && final(self).lifecycle()
                == old(self).lifecycle(),
            !(old(self).lifecycle() is Run && old(controls).requested() is Some)
                ==> final(controls).requested() == old(controls).requested(),
    {
        match &self.state {
            State::Uninitialized => {
                self.state.restart_with(Ok(String::new()));
                AppAction::Nothing
            },
            State::Start(_) => {
                self.state.skip();
                AppAction::SetupEntities
            },
            State::Run(_) => {
                match controls.take_request() {
                    None => AppAction::RunSchedule,
                    Some(result) => {
                        self.state.pass(result);
                        AppAction::Nothing
                    },
                }
            },
            State::Stop(_) => {
                self.state.skip();
                AppAction::Nothing
            },
            State::Done(_) => AppAction::Nothing,
        }
    }

    /// One step (see `state_handler`); also returns whether the application
    /// is still running afterwards, that is, not `Done`.
    pub fn run(&mut self, controls: &mut ApplicationControls) -> (r: (AppAction, bool))
        ensures
            r.1 == !(final(self).lifecycle() is Done),
    {
        let action = self.state_handler(controls);
        (action, !self.state.is_done())
    }

    /// The final result, once the application is `Done`.
    pub fn get_result(&self) -> (r: Option<&PreviousStateResult<String, String>>)
        ensures
            r is Some <==> self.lifecycle() is Done,
            r is Some ==> *r->0 == self.lifecycle().outcome()->0,
    {
        if self.state.is_done() {
            return self.state.get_last_result();
        }
        None
    }
}

impl Default for Application {
    fn default() -> (r: Self)
        ensures
            r.lifecycle() is Uninitialized,
    {
        Application::new()
    }
}

} // verus!
