use mandelbrot::view::{
    Button, InputEvent, Key, Pan, View, ViewController, MAX_ZOOM, MOVE_STEP_DEN, MOVE_STEP_NUM,
    SCALE_STEP_DEN, SCALE_STEP_NUM, START_STEPS_X,
};

fn press(key: Key) -> InputEvent {
    InputEvent::Key { key, pressed: true }
}

fn scale_at(zoom: i64) -> f32 {
    (SCALE_STEP_NUM as f32 / SCALE_STEP_DEN as f32).powi(zoom as i32)
}

fn scale_of(v: &View) -> f32 {
    scale_at(v.zoom)
}

fn key_offset(v: &View) -> [f32; 2] {
    let step = MOVE_STEP_NUM as f32 / MOVE_STEP_DEN as f32;
    [v.steps_x as f32 * step, v.steps_y as f32 * step]
}

#[test]
fn starts_at_defaults() {
    let (v, c) = View::new();
    assert_eq!(v, View { zoom: 0, steps_x: START_STEPS_X, steps_y: 0, width: 1, height: 1 });
    assert_eq!(c, ViewController { panning: false, cursor_x: 0, cursor_y: 0 });
    assert_eq!(scale_of(&v), 1.0);
    assert_eq!(key_offset(&v), [-0.5, 0.0]);
    assert_eq!(v.width as f32 / v.height as f32, 1.0);
}

#[test]
fn zoom_in_then_out_returns_scale() {
    let (mut v, mut c) = View::new();
    let before = v;
    for _ in 0..25 {
        assert!(c.input(&press(Key::Equals), &mut v).handled);
    }
    assert_eq!(v.zoom, 25);
    for _ in 0..25 {
        assert!(c.input(&press(Key::Minus), &mut v).handled);
    }
    assert_eq!(v, before);
    assert_eq!(scale_of(&v), 1.0);
}

#[test]
fn one_zoom_step_is_five_percent() {
    let (mut v, mut c) = View::new();
    c.input(&press(Key::Equals), &mut v);
    assert_eq!(v.zoom, 1);
    assert!((scale_of(&v) - 1.05).abs() < 1e-6);
    c.input(&press(Key::Minus), &mut v);
    c.input(&press(Key::Minus), &mut v);
    assert_eq!(v.zoom, -1);
    assert!((scale_of(&v) - 1.0 / 1.05).abs() < 1e-6);
}

#[test]
fn opposite_nudges_cancel() {
    let (mut v, mut c) = View::new();
    let before = v;
    for _ in 0..7 {
        c.input(&press(Key::W), &mut v);
        c.input(&press(Key::S), &mut v);
    }
    assert_eq!(v, before);
    for _ in 0..3 {
        c.input(&press(Key::A), &mut v);
    }
    assert_eq!(v.steps_x, START_STEPS_X - 3);
    for _ in 0..3 {
        c.input(&press(Key::D), &mut v);
    }
    assert_eq!(v, before);
}

#[test]
fn interleaved_nudges_cancel() {
    let (mut v, mut c) = View::new();
    let before = v;
    for k in [Key::W, Key::A, Key::A, Key::S, Key::D, Key::W, Key::D, Key::S] {
        c.input(&press(k), &mut v);
    }
    assert_eq!(v, before);
}

#[test]
fn nudges_move_along_their_axes() {
    let (mut v, mut c) = View::new();
    c.input(&press(Key::W), &mut v);
    assert_eq!((v.steps_x, v.steps_y), (START_STEPS_X, 1));
    c.input(&press(Key::D), &mut v);
    c.input(&press(Key::D), &mut v);
    assert_eq!((v.steps_x, v.steps_y), (START_STEPS_X + 2, 1));
    let offset = key_offset(&v);
    assert!((offset[0] - (-0.4)).abs() < 1e-6);
    assert!((offset[1] - 0.05).abs() < 1e-6);
}

#[test]
fn scale_stays_positive_at_the_zoom_bounds() {
    let (mut v, mut c) = View::new();
    for _ in 0..(MAX_ZOOM + 40) {
        c.input(&InputEvent::Scroll { up: false }, &mut v);
    }
    assert_eq!(v.zoom, -MAX_ZOOM);
    assert!(scale_of(&v) > 0.0);
    assert!(scale_at(MAX_ZOOM - 1) * 1.05 < f32::MAX);
    for _ in 0..(2 * MAX_ZOOM + 40) {
        c.input(&press(Key::Equals), &mut v);
    }
    assert_eq!(v.zoom, MAX_ZOOM);
    assert!(scale_of(&v).is_finite());
    assert!(!(scale_of(&v) * 1.05).is_finite());
}

#[test]
fn zero_area_resize_keeps_aspect() {
    let (mut v, c) = View::new();
    assert!(c.resize(&mut v, 800, 600));
    assert!(!c.resize(&mut v, 0, 600));
    assert_eq!((v.width, v.height), (800, 600));
    assert!(!c.resize(&mut v, 1024, 0));
    assert_eq!((v.width, v.height), (800, 600));
}

#[test]
fn resize_sets_aspect() {
    let (mut v, c) = View::new();
    assert!(c.resize(&mut v, 800, 600));
    assert_eq!((v.width, v.height), (800, 600));
    assert_eq!(v.width as f32 / v.height as f32, 800.0f32 / 600.0f32);
}

#[test]
fn drag_pans_by_live_surface_size() {
    let (mut v, mut c) = View::new();
    c.resize(&mut v, 1600, 1600);
    let mut offset = key_offset(&v);
    assert_eq!(offset, [-0.5, 0.0]);
    let mut apply = |pan: Option<Pan>| {
        if let Some(p) = pan {
            offset[0] += p.dx as f32 / scale_at(p.zoom) / p.width as f32;
            offset[1] += p.dy as f32 / scale_at(p.zoom) / p.height as f32;
        }
    };
    let r = c.input(&InputEvent::CursorMoved { x: 100, y: 100 }, &mut v);
    assert!(r.handled);
    assert_eq!(r.pan, None);
    let r = c.input(&InputEvent::Mouse { button: Button::Left, pressed: true }, &mut v);
    assert!(r.handled && c.panning);
    let r = c.input(&InputEvent::CursorMoved { x: 200, y: 150 }, &mut v);
    assert_eq!(r.pan, Some(Pan { dx: -100, dy: 50, zoom: 0, width: 1600, height: 1600 }));
    apply(r.pan);
    assert_eq!((c.cursor_x, c.cursor_y), (200, 150));
    let r = c.input(&InputEvent::Mouse { button: Button::Left, pressed: false }, &mut v);
    assert!(r.handled && !c.panning);
    let r = c.input(&InputEvent::CursorMoved { x: 400, y: 400 }, &mut v);
    assert!(r.handled);
    assert_eq!(r.pan, None);
    apply(r.pan);
    assert_eq!((c.cursor_x, c.cursor_y), (400, 400));
    assert!((offset[0] - (-0.5625)).abs() < 1e-6);
    assert!((offset[1] - 0.03125).abs() < 1e-6);
}

#[test]
fn drag_is_divided_by_scale() {
    let (mut v, mut c) = View::new();
    c.resize(&mut v, 800, 400);
    c.input(&press(Key::Equals), &mut v);
    c.input(&press(Key::Equals), &mut v);
    c.input(&InputEvent::Mouse { button: Button::Left, pressed: true }, &mut v);
    let r = c.input(&InputEvent::CursorMoved { x: -30, y: 7 }, &mut v);
    assert_eq!(r.pan, Some(Pan { dx: 30, dy: 7, zoom: 2, width: 800, height: 400 }));
    c.resize(&mut v, 1000, 500);
    let r = c.input(&InputEvent::CursorMoved { x: -40, y: 7 }, &mut v);
    assert_eq!(r.pan, Some(Pan { dx: 10, dy: 0, zoom: 2, width: 1000, height: 500 }));
}

#[test]
fn scroll_zooms_like_keys() {
    let (mut a, mut ca) = View::new();
    let (mut b, mut cb) = View::new();
    let r = ca.input(&InputEvent::Scroll { up: true }, &mut a);
    cb.input(&press(Key::Equals), &mut b);
    assert!(r.handled);
    assert_eq!(a, b);
    assert_eq!(a.zoom, 1);
    ca.input(&InputEvent::Scroll { up: false }, &mut a);
    ca.input(&InputEvent::Scroll { up: false }, &mut a);
    cb.input(&press(Key::Minus), &mut b);
    cb.input(&press(Key::Minus), &mut b);
    assert_eq!(a, b);
    assert_eq!(a.zoom, -1);
}

#[test]
fn unrecognised_events_change_nothing() {
    let (mut v, mut c) = View::new();
    c.resize(&mut v, 640, 480);
    c.input(&press(Key::Equals), &mut v);
    let (v0, c0) = (v, c);
    let events = [
        press(Key::Other),
        InputEvent::Key { key: Key::W, pressed: false },
        InputEvent::Mouse { button: Button::Right, pressed: true },
        InputEvent::Mouse { button: Button::Middle, pressed: true },
        InputEvent::Resized { width: 10, height: 10 },
        InputEvent::CloseRequested,
        InputEvent::Other,
    ];
    for e in events.iter() {
        let r = c.input(e, &mut v);
        assert!(!r.handled);
        assert_eq!(r.pan, None);
        assert_eq!(v, v0);
        assert_eq!(c, c0);
    }
}
