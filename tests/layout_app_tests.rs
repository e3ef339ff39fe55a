use tracker_lifecycle::application::{AppAction, Application, ApplicationControls};
use tracker_lifecycle::layout::{Point2i, Size2i, WindowLayout};

#[test]
fn layout_places_row_by_row() {
    let mut l = WindowLayout::new_with_origin(Size2i::new(100, 50), Point2i::new(10, 20));
    let size = Size2i::new(40, 20);
    assert_eq!(l.get_new_poition(&size), Point2i::new(10, 20));
    assert_eq!(*l.get_offset(), Point2i::new(51, 20));
    assert_eq!(l.get_new_poition(&size), Point2i::new(51, 20));
    // 51 + 41 = 92 <= 100: stays in the row
    assert_eq!(*l.get_offset(), Point2i::new(92, 20));
    assert_eq!(l.get_new_poition(&size), Point2i::new(92, 20));
    // 92 + 41 > 100: next row at y = 41
    assert_eq!(*l.get_offset(), Point2i::new(10, 41));
    l.get_new_poition(&size);
    l.get_new_poition(&size);
    l.get_new_poition(&size);
    // 41 + 21 = 62 > 50: back to the origin
    assert_eq!(*l.get_offset(), Point2i::new(10, 20));
}

#[test]
fn layout_setters() {
    let mut l = WindowLayout::new(Size2i::new(2560, 1440));
    assert_eq!(*l.get_origin(), Point2i::new(0, 0));
    assert_eq!(*l.get_offset(), Point2i::new(0, 0));
    l.set_origin(Point2i::new(30, 60));
    assert_eq!(*l.get_origin(), Point2i::new(30, 60));
    assert_eq!(*l.get_offset(), Point2i::new(30, 60));
    l.set_boundaries(Size2i::new(10, 10));
    assert_eq!(*l.get_boundries(), Size2i::new(10, 10));
}

#[test]
fn application_runs_until_stop_requested() {
    let mut app = Application::default();
    let mut controls = ApplicationControls::default();
    assert_eq!(app.run(&mut controls), (AppAction::Nothing, true));
    assert_eq!(app.run(&mut controls), (AppAction::SetupEntities, true));
    assert_eq!(app.run(&mut controls), (AppAction::RunSchedule, true));
    assert_eq!(app.run(&mut controls), (AppAction::RunSchedule, true));
    assert!(app.get_result().is_none());
    controls.request_stop(Ok("Stop".to_owned()));
    controls.request_stop(Err("later".to_owned()));
    assert_eq!(app.run(&mut controls), (AppAction::Nothing, true));
    assert_eq!(app.run(&mut controls), (AppAction::Nothing, false));
    assert!(matches!(app.get_result(), Some(Ok(v)) if v == "Stop"));
    assert_eq!(app.state_handler(&mut controls), AppAction::Nothing);
}
