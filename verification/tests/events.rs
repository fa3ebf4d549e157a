use shady::frame::{process_events, Event};
use shady::images::ImageSource;
use shady::options::Options;
use shady::windows::{DisplayState, WindowSet};

fn display() -> DisplayState {
    DisplayState {
        handle: 0,
        source: ImageSource("frag".to_string()),
        uniforms: Vec::new(),
        mouse_x: 0,
        mouse_y: 0,
        done: false,
    }
}

#[test]
fn click_inside_requests_a_snapshot() {
    let mut d = display();
    let events = vec![Event::MouseMoved(250, 250), Event::LeftPressed];
    let snap = process_events(&mut d, &events, 500, 500);
    assert!(snap);
    assert_eq!(d.mouse_x, 250);
    assert_eq!(d.mouse_y, 250);
    assert!(!d.done);
}

#[test]
fn click_outside_requests_none() {
    let mut d = display();
    let events = vec![Event::MouseMoved(-5, 250), Event::LeftPressed];
    assert!(!process_events(&mut d, &events, 500, 500));
}

#[test]
fn click_on_boundary_pixel_requests_none() {
    // the bounds test is strict on every edge
    let mut d = display();
    let events = vec![Event::MouseMoved(0, 250), Event::LeftPressed];
    assert!(!process_events(&mut d, &events, 500, 500));

    let mut d = display();
    let events = vec![Event::MouseMoved(250, 0), Event::LeftPressed];
    assert!(!process_events(&mut d, &events, 500, 500));

    let mut d = display();
    let events = vec![Event::MouseMoved(500, 250), Event::LeftPressed];
    assert!(!process_events(&mut d, &events, 500, 500));

    let mut d = display();
    let events = vec![Event::MouseMoved(250, 500), Event::LeftPressed];
    assert!(!process_events(&mut d, &events, 500, 500));

    let mut d = display();
    let events = vec![Event::MouseMoved(1, 1), Event::LeftPressed];
    assert!(process_events(&mut d, &events, 500, 500));
}

#[test]
fn click_uses_the_position_cached_at_the_press() {
    // the press sees the position of the earlier move, not the later one
    let mut d = display();
    let events = vec![
        Event::MouseMoved(-1, -1),
        Event::LeftPressed,
        Event::MouseMoved(10, 10),
    ];
    assert!(!process_events(&mut d, &events, 500, 500));
    assert_eq!((d.mouse_x, d.mouse_y), (10, 10));

    let mut d = display();
    let events = vec![
        Event::MouseMoved(10, 10),
        Event::LeftPressed,
        Event::MouseMoved(-1, -1),
    ];
    assert!(process_events(&mut d, &events, 500, 500));
}

#[test]
fn close_event_marks_the_display_done() {
    let mut d = display();
    let events = vec![Event::Closed, Event::Other];
    let snap = process_events(&mut d, &events, 500, 500);
    assert!(!snap);
    assert!(d.done);
}

#[test]
fn closed_windows_are_removed_after_the_frame() {
    let mut ws = WindowSet::new();
    ws.apply_script_result(Ok(vec![
        shady::images::ImageDescriptor {
            source: ImageSource("a".to_string()),
            uniforms: Vec::new(),
        },
        shady::images::ImageDescriptor {
            source: ImageSource("b".to_string()),
            uniforms: Vec::new(),
        },
    ]))
    .unwrap();
    let snap = ws.poll_display(0, &vec![Event::Closed], 500, 500);
    assert!(!snap);
    ws.retain_open();
    assert_eq!(ws.count(), 1);
    // the surviving window is the second one, order kept
    assert_eq!(ws.get(0).source.0, "b");
    assert_eq!(ws.get(0).handle, 1);
}

#[test]
fn closing_all_windows_ends_the_loop_unless_keep_is_set() {
    let opts = Options::from_flags(false, false);
    let mut ws = WindowSet::new();
    ws.apply_script_result(Ok(vec![shady::images::ImageDescriptor {
        source: ImageSource("a".to_string()),
        uniforms: Vec::new(),
    }]))
    .unwrap();
    ws.poll_display(0, &vec![Event::Closed], 500, 500);
    ws.retain_open();
    assert_eq!(ws.count(), 0);
    assert!(opts.should_exit(ws.count()));

    let kept = Options::from_flags(false, true);
    assert!(!kept.should_exit(0));
}

#[test]
fn once_disables_keep_and_watching() {
    let o = Options::from_flags(true, true);
    assert!(o.once);
    assert!(!o.keep);
    assert!(!o.watches());
    let o = Options::from_flags(false, true);
    assert!(o.keep);
    assert!(o.watches());
    assert!(!o.should_exit(0));
    assert!(!Options::from_flags(false, false).should_exit(3));
}
