use vstd::prelude::*;
use std::collections::HashSet;
use crate::camera::{has_bus, KeyedDevice, UniqueCameraDeviceList};
use crate::state::{PreviousStateResult, State, StateHandler, StateWrapper};

verus! {

broadcast use vstd::std_specs::hash::group_hash_axioms;

/// What the driver must do for a session in the current tick.
#[derive(PartialEq, Eq, Structural, Debug, Clone, Copy)]
pub enum TickAction {
    /// Seed the uninitialised lifecycle with a default handle.
    Seed,
    /// Try to acquire the device by its path.
    Acquire,
    /// Pull one data unit from the held handle and push it to subscribers.
    Pull,
    /// Report the carried error, if any, and carry the outcome forward.
    Settle,
    /// Nothing: the session is done.
    Idle,
}

/// What came of the work a `TickAction` asked for.
pub enum TickEvent<H, E> {
    Seeded(H),
    Acquired(PreviousStateResult<H, E>),
    Pulled(Result<(), E>),
    Settled,
}

/// The action owed to a session in lifecycle state `s`.
pub open spec fn action_for<H, E>(s: State<H, E>) -> TickAction {
    match s {
        State::Uninitialized => TickAction::Seed,
        State::Start(_) => TickAction::Acquire,
        State::Run(o) => if o is Ok {
            TickAction::Pull
        } else {
            TickAction::Settle
        },
        State::Stop(_) => TickAction::Settle,
        State::Done(_) => TickAction::Idle,
    }
}

/// The lifecycle state after event `ev`: a seed restarts with the default
/// handle, an acquisition advances with its result, a failed pull advances
/// with its error (a successful one keeps the stage), settling carries the
/// outcome forward.
pub open spec fn tick_step<H, E>(s: State<H, E>, ev: TickEvent<H, E>) -> State<H, E> {
    match ev {
        TickEvent::Seeded(h) => s.restarted_with(Ok(h)),
        TickEvent::Acquired(r) => s.advanced(r),
        TickEvent::Pulled(r) => match r {
            Ok(_) => s,
            Err(e) => s.advanced(Err(e)),
        },
        TickEvent::Settled => s.skipped(),
    }
}

/// Applies one tick event to a lifecycle state; the sole mutator a session
/// hands its state to.
pub struct TickHandler<H, E> {
    pub event: Option<TickEvent<H, E>>,
}

impl<H, E> StateHandler<H, E> for TickHandler<H, E> {
    open spec fn handles(&self, before: State<H, E>, after: State<H, E>) -> bool {
        match self.event {
            Some(ev) => after == tick_step(before, ev),
            None => after == before,
        }
    }

    fn handle(&mut self, state: &mut State<H, E>) {
        let mut event = None;
        core::mem::swap(&mut event, &mut self.event);
        match event {
            None => {},
            Some(TickEvent::Seeded(h)) => {
                state.restart_with(Ok(h));
            },
            Some(TickEvent::Acquired(r)) => {
                state.pass(r);
            },
            Some(TickEvent::Pulled(r)) => match r {
                Ok(_) => {},
                Err(e) => {
                    state.failed(e);
                },
            },
            Some(TickEvent::Settled) => {
                state.skip();
            },
        }
    }
}

/// A session: one capture device under its stable bus key, its lifecycle
/// over a handle of type `H`, and the entities subscribed to its frames.
pub struct CameraObserver<H, E> {
    state: StateWrapper<H, E>,
    bus: String,
    path: String,
    subscribed_entities: HashSet<u64>,
}

impl<H, E> CameraObserver<H, E> {
    pub closed spec fn bus_key(&self) -> Seq<char> {
        self.bus@
    }

    pub closed spec fn device_path(&self) -> Seq<char> {
        self.path@
    }

    pub closed spec fn lifecycle(&self) -> State<H, E> {
        self.state@
    }

    pub closed spec fn subscribers(&self) -> Set<u64> {
        self.subscribed_entities@
    }

    /// A session for the device at `path` under key `bus`, uninitialised
    /// and with no subscribers.
    pub fn new(bus: String, path: String) -> (r: Self)
        ensures
            r.bus_key() == bus@,
            r.device_path() == path@,
            r.lifecycle() == State::<H, E>::Uninitialized,
            r.subscribers() == Set::<u64>::empty(),
    {
        CameraObserver {
            state: StateWrapper::empty(),
            bus: bus,
            path: path,
            subscribed_entities: HashSet::new(),
        }
    }

    pub fn subscribe(&mut self, entity: u64)
        ensures
            final(self).subscribers() == old(self).subscribers().insert(entity),
            final(self).bus_key() == old(self).bus_key(),
            final(self).device_path() == old(self).device_path(),
            final(self).lifecycle() == old(self).lifecycle(),
    {
        self.subscribed_entities.insert(entity);
    }

    pub fn get_subscribers(&self) -> (r: &HashSet<u64>)
        ensures
            r@ == self.subscribers(),
    {
        &self.subscribed_entities
    }

    pub fn is_subscribed(&self, entity: &u64) -> (r: bool)
        ensures
            r == self.subscribers().contains(*entity),
    {
        self.subscribed_entities.contains(entity)
    }

    /// Whether any of `entities` is subscribed to this session.
    pub fn any_subscribed(&self, entities: &Vec<u64>) -> (r: bool)
        ensures
            r == exists|i: int| 0 <= i < entities@.len() && self.subscribers().contains(entities@[i]),
    {
        let mut i: usize = 0;
        while i < entities.len()
            invariant
                0 <= i <= entities@.len(),
                forall|j: int| 0 <= j < i ==> !self.subscribers().contains(entities@[j]),
            decreases entities@.len() - i,
        {
            if self.subscribed_entities.contains(&entities[i]) {
                return true;
            }
            i = i + 1;
        }
        false
    }

    pub fn get_bus(&self) -> (r: &String)
        ensures
            r@ == self.bus_key(),
    {
        &self.bus
    }

    pub fn get_path(&self) -> (r: &String)
        ensures
            r@ == self.device_path(),
    {
        &self.path
    }

    /// The session's lifecycle, read-only.
    pub fn get_state(&self) -> (r: &StateWrapper<H, E>)
        ensures
            r@ == self.lifecycle(),
    {
        &self.state
    }

    /// The one step the driver owes this session in the current tick.
    pub fn tick_action(&self) -> (r: TickAction)
        ensures
            r == action_for(self.lifecycle()),
    {
        match self.state.get_inner_state() {
            State::Uninitialized => TickAction::Seed,
            State::Start(_) => TickAction::Acquire,
            State::Run(o) => if o.is_ok() {
                TickAction::Pull
            } else {
                TickAction::Settle
            },
            State::Stop(_) => TickAction::Settle,
            State::Done(_) => TickAction::Idle,
        }
    }

    /// Feeds the outcome of this tick's work into the lifecycle, through the
    /// state's exclusive handler.
    pub fn update(&mut self, event: TickEvent<H, E>)
        ensures
            final(self).lifecycle() == tick_step(old(self).lifecycle(), event),
            final(self).bus_key() == old(self).bus_key(),
            final(self).device_path() == old(self).device_path(),
            final(self).subscribers() == old(self).subscribers(),
    {
        let mut handler = TickHandler { event: Some(event) };
        self.state.apply_handler(&mut handler);
    }
}

/// Whether some session of `list` has bus key `bus`.
pub open spec fn tracks<H, E>(list: Seq<CameraObserver<H, E>>, bus: Seq<char>) -> bool {
    exists|i: int| 0 <= i < list.len() && list[i].bus_key() == bus
}

/// Whether an inventory entry is claimed by no session of `list`.
pub open spec fn is_unclaimed<H, E>(list: Seq<CameraObserver<H, E>>) -> spec_fn(KeyedDevice) -> bool {
    |e: KeyedDevice| !tracks(list, e.bus@)
}

pub open spec fn is_done<H, E>() -> spec_fn(CameraObserver<H, E>) -> bool {
    |o: CameraObserver<H, E>| o.lifecycle() is Done
}

pub open spec fn is_not_done<H, E>() -> spec_fn(CameraObserver<H, E>) -> bool {
    |o: CameraObserver<H, E>| !(o.lifecycle() is Done)
}

/// The inventory entries that no session of `list` claims, in inventory order.
pub open spec fn unclaimed<H, E>(list: Seq<CameraObserver<H, E>>, inventory: Seq<KeyedDevice>) -> Seq<
    KeyedDevice,
> {
    inventory.filter(is_unclaimed(list))
}

/// The lifecycle state of session `o` once the inventory is known: kept when
/// its device is listed, otherwise forced to `Stop` from `Start` or `Run`
/// (`Stop`, `Done` and the uninitialised state stay as they are).
pub open spec fn reconciled<H, E>(o: CameraObserver<H, E>, inventory: Seq<KeyedDevice>) -> State<H, E> {
    if has_bus(inventory, o.bus_key()) {
        o.lifecycle()
    } else {
        o.lifecycle().force_stopped()
    }
}

/// `a` is session `b` with the same key, path and subscribers.
pub open spec fn same_session<H, E>(a: CameraObserver<H, E>, b: CameraObserver<H, E>) -> bool {
    a.bus_key() == b.bus_key() && a.device_path() == b.device_path() && a.subscribers()
        == b.subscribers()
}

/// `o` is the new session created for inventory entry `e`.
pub open spec fn fresh_for<H, E>(o: CameraObserver<H, E>, e: KeyedDevice) -> bool {
    o.bus_key() == e.bus@ && o.device_path() == e.device.path@ && o.lifecycle()
        == State::<H, E>::Uninitialized && o.subscribers() == Set::<u64>::empty()
}

proof fn lemma_filter_take_step<A>(s: Seq<A>, pred: spec_fn(A) -> bool, j: int)
    requires
        0 <= j < s.len(),
    ensures
        s.take(j + 1).filter(pred) == if pred(s[j]) {
            s.take(j).filter(pred).push(s[j])
        } else {
            s.take(j).filter(pred)
        },
{
    reveal(Seq::filter);
    assert(s.take(j + 1).drop_last() =~= s.take(j));
    assert(s.take(j + 1).last() == s[j]);
}

/// All sessions currently tracked.
pub struct CameraObservers<H, E> {
    pub list: Vec<CameraObserver<H, E>>,
}

impl<H, E> CameraObservers<H, E> {
    pub fn new() -> (r: Self)
        ensures
            r.list@ == Seq::<CameraObserver<H, E>>::empty(),
    {
        CameraObservers { list: Vec::new() }
    }

    /// Whether some tracked session has bus key `bus`.
    pub fn tracks_bus(&self, bus: &String) -> (r: bool)
        ensures
            r == tracks(self.list@, bus@),
    {
        let mut i: usize = 0;
        while i < self.list.len()
            invariant
                0 <= i <= self.list@.len(),
                forall|j: int| 0 <= j < i ==> self.list@[j].bus_key() != bus@,
            decreases self.list@.len() - i,
        {
            if self.list[i].get_bus().eq(bus) {
                return true;
            }
            i = i + 1;
        }
        false
    }

    /// New sessions for the inventory entries that no tracked session claims.
    fn discover(&self, inventory: &UniqueCameraDeviceList) -> (r: Vec<CameraObserver<H, E>>)
        ensures
            r@.len() == unclaimed(self.list@, inventory@).len(),
            forall|k: int|
                0 <= k < r@.len() ==> fresh_for(r@[k], unclaimed(self.list@, inventory@)[k]),
    {
        let entries = inventory.entries();
        let ghost inv = entries@;
        let ghost pred = is_unclaimed(self.list@);
        let mut fresh: Vec<CameraObserver<H, E>> = Vec::new();
        let mut j: usize = 0;
        while j < entries.len()
            invariant
                entries@ == inv,
                inv == inventory@,
                pred == is_unclaimed(self.list@),
                0 <= j <= inv.len(),
                fresh@.len() == inv.take(j as int).filter(pred).len(),
                forall|k: int|
                    0 <= k < fresh@.len() ==> fresh_for(
                        fresh@[k],
                        inv.take(j as int).filter(pred)[k],
                    ),
            decreases inv.len() - j,
        {
            let e = &entries[j];
            proof {
                lemma_filter_take_step(inv, pred, j as int);
            }
            if !self.tracks_bus(&e.bus) {
                let o = CameraObserver::new(e.bus.clone(), e.device.path.clone());
                fresh.push(o);
            }
            j = j + 1;
        }
        assert(inv.take(inv.len() as int) =~= inv);
        fresh
    }

    /// One reconciliation cycle against the devices found by the latest scan
    /// (an empty list when the scan failed):
    /// - a session whose device is listed keeps its state;
    /// - a session whose device is gone is forced from `Start` or `Run` to
    ///   `Stop`, keeping its outcome; `Stop` and `Done` are left alone;
    /// - each listed device that no session claims gets a new, uninitialised
    ///   session with no subscribers, appended in inventory order;
    /// - sessions that were already `Done` are removed and handed back, with
    ///   their subscribers, for the caller to release.
    /// Returns the removed sessions and the number of sessions added (the
    /// last ones of the list).
    pub fn assignment_system(&mut self, inventory: &UniqueCameraDeviceList) -> (r: (
        Vec<CameraObserver<H, E>>,
        usize,
    ))
        ensures
            r.0@ == old(self).list@.filter(is_done()),
            r.1 == unclaimed(old(self).list@, inventory@).len(),
            final(self).list@.len() == old(self).list@.filter(is_not_done()).len() + r.1,
            forall|i: int|
                0 <= i < old(self).list@.filter(is_not_done()).len() ==> {
                    let o = old(self).list@.filter(is_not_done())[i];
                    &&& same_session(#[trigger] final(self).list@[i], o)
                    &&& final(self).list@[i].lifecycle() == reconciled(o, inventory@)
                },
            forall|k: int|
                0 <= k < r.1 ==> fresh_for(
                    final(self).list@[old(self).list@.filter(is_not_done()).len() + k],
                    unclaimed(old(self).list@, inventory@)[k],
                ),
    {
        let mut fresh = self.discover(inventory);
        let ghost orig = self.list@;
        let total = self.list.len();
        let ghost nd = is_not_done::<H, E>();
        let ghost dn = is_done::<H, E>();
        let mut pending: Vec<CameraObserver<H, E>> = Vec::new();
        core::mem::swap(&mut pending, &mut self.list);
        let mut kept: Vec<CameraObserver<H, E>> = Vec::new();
        let mut removed: Vec<CameraObserver<H, E>> = Vec::new();
        let mut i: usize = 0;
        while pending.len() > 0
            invariant
                orig.len() == i + pending@.len(),
                orig.len() == total,
                pending@ == orig.skip(i as int),
                nd == is_not_done::<H, E>(),
                dn == is_done::<H, E>(),
                removed@ == orig.take(i as int).filter(dn),
                kept@.len() == orig.take(i as int).filter(nd).len(),
                forall|k: int|
                    0 <= k < kept@.len() ==> {
                        let o = orig.take(i as int).filter(nd)[k];
                        &&& same_session(#[trigger] kept@[k], o)
                        &&& kept@[k].lifecycle() == reconciled(o, inventory@)
                    },
            decreases pending@.len(),
        {
            proof {
                lemma_filter_take_step(orig, nd, i as int);
                lemma_filter_take_step(orig, dn, i as int);
            }
            let mut o = pending.remove(0);
            assert(o == orig[i as int]);
            if o.state.is_done() {
                removed.push(o);
            } else {
                if !inventory.contains_key(&o.bus) {
                    o.state.force_stop();
                }
                kept.push(o);
            }
            i = i + 1;
            assert(pending@ =~= orig.skip(i as int));
        }
        assert(orig.take(i as int) =~= orig);
        let added = fresh.len();
        kept.append(&mut fresh);
        self.list = kept;
        (removed, added)
    }
}

} // verus!
