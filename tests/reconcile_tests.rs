use tracker_lifecycle::camera::{CameraDevice, UniqueCameraDeviceList};
use tracker_lifecycle::camera_observer::{
    CameraObserver, CameraObservers, TickAction, TickEvent,
};
use tracker_lifecycle::state::State;

fn inventory(entries: &[(&str, &str, &str)]) -> UniqueCameraDeviceList {
    let mut list = UniqueCameraDeviceList::new();
    for (bus, name, path) in entries {
        CameraDevice::assign_device(&mut list, bus.to_string(), name.to_string(), path.to_string());
    }
    list
}

fn running(bus: &str, handle: u32) -> CameraObserver<u32, String> {
    let mut o = CameraObserver::new(bus.to_owned(), format!("/dev/{bus}"));
    o.update(TickEvent::Seeded(0));
    o.update(TickEvent::Acquired(Ok(handle)));
    o
}

fn find<'a>(obs: &'a CameraObservers<u32, String>, bus: &str) -> Option<&'a CameraObserver<u32, String>> {
    obs.list.iter().find(|o| o.get_bus() == bus)
}

#[test]
fn greater_path_wins_for_shared_key() {
    let list = inventory(&[
        ("usb-1", "cam", "/dev/video0"),
        ("usb-2", "other", "/dev/video4"),
        ("usb-1", "cam-alias", "/dev/video1"),
    ]);
    assert_eq!(list.len(), 2);
    let e = &list.entries()[0];
    assert_eq!(e.bus, "usb-1");
    assert_eq!(e.device.path, "/dev/video1");
    assert_eq!(e.device.name, "cam");
    assert_eq!(list.entries()[1].device.path, "/dev/video4");
}

#[test]
fn lesser_path_does_not_replace() {
    let list = inventory(&[("usb-1", "cam", "/dev/video3"), ("usb-1", "cam", "/dev/video10")]);
    assert_eq!(list.len(), 1);
    assert_eq!(list.entries()[0].device.path, "/dev/video3");
    let list = inventory(&[("usb-1", "cam", "/dev/video1"), ("usb-1", "cam", "/dev/video10")]);
    assert_eq!(list.entries()[0].device.path, "/dev/video10");
    let list = inventory(&[("usb-1", "cam", "/dev/video1"), ("usb-1", "cam", "/dev/video1")]);
    assert_eq!(list.len(), 1);
    assert_eq!(list.entries()[0].device.path, "/dev/video1");
}

#[test]
fn contains_key_finds_listed_buses() {
    let list = inventory(&[("a", "n", "p")]);
    assert!(list.contains_key(&"a".to_owned()));
    assert!(!list.contains_key(&"b".to_owned()));
}

#[test]
fn reconciliation_scenario() {
    let mut obs: CameraObservers<u32, String> = CameraObservers::new();
    obs.list.push(running("A", 1));
    obs.list.push(running("B", 2));
    let mut c = CameraObserver::new("C".to_owned(), "/dev/C".to_owned());
    c.update(TickEvent::Seeded(3));
    obs.list.push(c);

    let (removed, added) = obs.assignment_system(&inventory(&[("A", "a", "/dev/A"), ("D", "d", "/dev/D")]));
    assert!(removed.is_empty());
    assert_eq!(added, 1);
    let buses: Vec<&str> = obs.list.iter().map(|o| o.get_bus().as_str()).collect();
    assert_eq!(buses, vec!["A", "B", "C", "D"]);
    assert!(matches!(find(&obs, "A").unwrap().get_state().get_inner_state(), State::Run(Ok(1))));
    assert!(matches!(find(&obs, "B").unwrap().get_state().get_inner_state(), State::Stop(Ok(2))));
    assert!(matches!(find(&obs, "C").unwrap().get_state().get_inner_state(), State::Stop(Ok(3))));
    let d = find(&obs, "D").unwrap();
    assert!(matches!(d.get_state().get_inner_state(), State::Uninitialized));
    assert_eq!(d.get_path(), "/dev/D");
    assert!(d.get_subscribers().is_empty());

    // one tick: B and C settle into Done, D is seeded.
    for o in obs.list.iter_mut() {
        match o.tick_action() {
            TickAction::Settle => o.update(TickEvent::Settled),
            TickAction::Seed => o.update(TickEvent::Seeded(4)),
            _ => {}
        }
    }
    assert!(find(&obs, "B").unwrap().get_state().is_done());
    assert!(find(&obs, "C").unwrap().get_state().is_done());

    let (removed, added) = obs.assignment_system(&inventory(&[]));
    assert_eq!(added, 0);
    let gone: Vec<&str> = removed.iter().map(|o| o.get_bus().as_str()).collect();
    assert_eq!(gone, vec!["B", "C"]);
    let buses: Vec<&str> = obs.list.iter().map(|o| o.get_bus().as_str()).collect();
    assert_eq!(buses, vec!["A", "D"]);
    assert!(matches!(find(&obs, "D").unwrap().get_state().get_inner_state(), State::Stop(Ok(4))));
    assert!(matches!(find(&obs, "A").unwrap().get_state().get_inner_state(), State::Stop(Ok(1))));
}

#[test]
fn done_session_still_claims_its_device_for_one_cycle() {
    let mut obs: CameraObservers<u32, String> = CameraObservers::new();
    let mut a = running("A", 1);
    a.update(TickEvent::Pulled(Err("unplugged".to_owned())));
    a.update(TickEvent::Settled);
    assert!(a.get_state().is_done());
    a.subscribe(42);
    obs.list.push(a);
    let (removed, added) = obs.assignment_system(&inventory(&[("A", "a", "/dev/A")]));
    assert_eq!(added, 0);
    assert_eq!(removed.len(), 1);
    assert!(removed[0].is_subscribed(&42));
    assert!(obs.list.is_empty());
    let (removed, added) = obs.assignment_system(&inventory(&[("A", "a", "/dev/A")]));
    assert!(removed.is_empty());
    assert_eq!(added, 1);
    assert_eq!(obs.list[0].get_bus(), "A");
}

#[test]
fn stop_session_is_left_alone_when_absent() {
    let mut obs: CameraObservers<u32, String> = CameraObservers::new();
    let mut a = running("A", 1);
    a.update(TickEvent::Pulled(Err("io".to_owned())));
    obs.list.push(a);
    let (removed, _) = obs.assignment_system(&inventory(&[]));
    assert!(removed.is_empty());
    assert!(matches!(obs.list[0].get_state().get_inner_state(), State::Stop(Err(e)) if e == "io"));
}

#[test]
fn tick_driver_walks_the_lifecycle() {
    let mut o: CameraObserver<u32, String> = CameraObserver::new("bus".to_owned(), "/dev/video0".to_owned());
    assert_eq!(o.tick_action(), TickAction::Seed);
    o.update(TickEvent::Seeded(0));
    assert_eq!(o.tick_action(), TickAction::Acquire);
    o.update(TickEvent::Acquired(Ok(5)));
    assert_eq!(o.tick_action(), TickAction::Pull);
    o.update(TickEvent::Pulled(Ok(())));
    assert_eq!(o.tick_action(), TickAction::Pull);
    assert!(matches!(o.get_state().get_inner_state(), State::Run(Ok(5))));
    o.update(TickEvent::Pulled(Err("lost".to_owned())));
    assert_eq!(o.tick_action(), TickAction::Settle);
    o.update(TickEvent::Settled);
    assert_eq!(o.tick_action(), TickAction::Idle);
    assert!(matches!(o.get_state().get_inner_state(), State::Done(Err(e)) if e == "lost"));
}

#[test]
fn failed_acquisition_goes_to_stop() {
    let mut o: CameraObserver<u32, String> = CameraObserver::new("bus".to_owned(), "/dev/video0".to_owned());
    o.update(TickEvent::Seeded(0));
    o.update(TickEvent::Acquired(Err("busy".to_owned())));
    assert!(matches!(o.get_state().get_inner_state(), State::Stop(Err(e)) if e == "busy"));
    assert_eq!(o.tick_action(), TickAction::Settle);
}

#[test]
fn subscribers_are_a_set() {
    let mut o: CameraObserver<u32, String> = CameraObserver::new("bus".to_owned(), "p".to_owned());
    o.subscribe(1);
    o.subscribe(1);
    o.subscribe(2);
    assert_eq!(o.get_subscribers().len(), 2);
    assert!(o.is_subscribed(&2));
    assert!(!o.is_subscribed(&3));
    assert!(o.any_subscribed(&vec![9, 2]));
    assert!(!o.any_subscribed(&vec![9, 3]));
    assert!(!o.any_subscribed(&vec![]));
}

#[test]
fn tracks_bus_reports_tracked_keys() {
    let mut obs: CameraObservers<u32, String> = CameraObservers::new();
    obs.list.push(running("A", 1));
    assert!(obs.tracks_bus(&"A".to_owned()));
    assert!(!obs.tracks_bus(&"B".to_owned()));
}
