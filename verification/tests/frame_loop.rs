use square_loop::frame::{dispatch, event_fits_now, keys_fit_now, step_frame, Event};
use square_loop::render::{Color, Frame, Rect};
use square_loop::state::{handle_key, key_fits_now, App, Key, Player};

fn initial() -> App {
    App::new()
}

#[test]
fn initial_state() {
    let a = initial();
    assert_eq!(a.player, Player { x: 50, y: 50 });
    assert_eq!(a.expand, 0);
}

#[test]
fn trigger_then_decay_then_move_then_render() {
    // Dispatch Trigger: the effect magnitude becomes 10.
    let mut a = initial();
    handle_key(Key::Trigger, &mut a);
    assert_eq!(a.expand, 10);

    // Ten update steps bring it back to exactly 0.
    for _ in 0..10 {
        a.update();
    }
    assert_eq!(a.expand, 0);

    // Dispatch Right: the position becomes (60, 50).
    handle_key(Key::Right, &mut a);
    assert_eq!(a.player, Player { x: 60, y: 50 });

    // With no effect the square is the base 10x10 at the exact position
    // (in half units: corner (120, 100), sides 20).
    let f = a.render(640, 480);
    assert_eq!(f.rect, Rect { x2: 120, y2: 100, w2: 20, h2: 20 });
    assert_eq!(f.clear_color, Color::Background);
    assert_eq!(f.rect_color, Color::Foreground);
    assert_eq!((f.width, f.height), (640, 480));
}

#[test]
fn double_trigger_renders_centered() {
    // Trigger twice without an update step: magnitude 20, and the square is
    // 30x30 with its corner at (40, 40) (in half units: 60 and 80).
    let mut a = initial();
    handle_key(Key::Trigger, &mut a);
    handle_key(Key::Trigger, &mut a);
    assert_eq!(a.expand, 20);
    let f = a.render(640, 480);
    assert_eq!(f.rect, Rect { x2: 80, y2: 80, w2: 60, h2: 60 });
}

#[test]
fn decay_counts_down_and_clamps() {
    let mut a = App { expand: 3, player: Player { x: 0, y: 0 } };
    let mut seen = Vec::new();
    for _ in 0..5 {
        a.update();
        seen.push(a.expand);
    }
    assert_eq!(seen, vec![2, 1, 0, 0, 0]);
}

#[test]
fn movement_inverse_pairs() {
    let mut a = initial();
    handle_key(Key::Right, &mut a);
    handle_key(Key::Left, &mut a);
    assert_eq!(a, initial());
    handle_key(Key::Up, &mut a);
    handle_key(Key::Down, &mut a);
    assert_eq!(a, initial());
}

#[test]
fn each_direction_moves_one_axis() {
    let mut a = initial();
    handle_key(Key::Up, &mut a);
    assert_eq!(a.player, Player { x: 50, y: 40 });
    handle_key(Key::Down, &mut a);
    handle_key(Key::Down, &mut a);
    assert_eq!(a.player, Player { x: 50, y: 60 });
    handle_key(Key::Left, &mut a);
    assert_eq!(a.player, Player { x: 40, y: 60 });
    assert_eq!(a.expand, 0);
}

#[test]
fn unrecognized_key_is_a_noop() {
    let mut a = initial();
    handle_key(Key::Trigger, &mut a);
    let before = a;
    handle_key(Key::Other, &mut a);
    assert_eq!(a, before);
}

#[test]
fn render_is_pure_and_deterministic() {
    let mut a = initial();
    handle_key(Key::Trigger, &mut a);
    let before = a;
    let f1 = a.render(320, 200);
    let f2 = a.render(320, 200);
    assert_eq!(f1, f2);
    assert_eq!(a, before);
}

#[test]
fn render_with_odd_magnitude_uses_half_units() {
    // Magnitude 9: the corner shifts by four and a half units, exact in
    // half units.
    let mut a = initial();
    handle_key(Key::Trigger, &mut a);
    a.update();
    assert_eq!(a.expand, 9);
    let f = a.render(100, 100);
    assert_eq!(f.rect, Rect { x2: 91, y2: 91, w2: 38, h2: 38 });
}

#[test]
fn key_fits_rejects_only_the_machine_edge() {
    let a = initial();
    assert!(key_fits_now(&a, Key::Right));
    assert!(key_fits_now(&a, Key::Trigger));
    let edge = App { expand: i64::MAX - 5, player: Player { x: i64::MAX - 5, y: i64::MIN + 5 } };
    assert!(!key_fits_now(&edge, Key::Right));
    assert!(!key_fits_now(&edge, Key::Up));
    assert!(!key_fits_now(&edge, Key::Trigger));
    assert!(key_fits_now(&edge, Key::Left));
    assert!(key_fits_now(&edge, Key::Down));
    assert!(key_fits_now(&edge, Key::Other));
}

#[test]
fn dispatch_routes_each_event() {
    let mut a = initial();
    assert_eq!(dispatch(&mut a, Event::Press(Key::Trigger)), None::<Frame>);
    assert_eq!(a.expand, 10);
    assert_eq!(dispatch(&mut a, Event::Update), None::<Frame>);
    assert_eq!(a.expand, 9);
    let before = a;
    let out = dispatch(&mut a, Event::Render { width: 320, height: 200 });
    assert_eq!(out, Some(a.render(320, 200)));
    assert_eq!(a, before);
}

#[test]
fn event_fits_only_constrains_presses() {
    let edge = App { expand: i64::MAX, player: Player { x: 0, y: 0 } };
    assert!(!event_fits_now(&edge, &Event::Press(Key::Trigger)));
    assert!(event_fits_now(&edge, &Event::Update));
    assert!(event_fits_now(&edge, &Event::Render { width: 1, height: 1 }));
}

#[test]
fn step_frame_applies_inputs_then_update_then_render() {
    let mut a = initial();
    let keys = vec![Key::Trigger, Key::Right];
    assert!(keys_fit_now(&a, &keys));
    let f = step_frame(&mut a, &keys, 640, 480);
    // Trigger then Right, then one decay step: (60, 50) with magnitude 9.
    assert_eq!(a.player, Player { x: 60, y: 50 });
    assert_eq!(a.expand, 9);
    assert_eq!(f, a.render(640, 480));
    assert_eq!(f.rect, Rect { x2: 111, y2: 91, w2: 38, h2: 38 });
}

#[test]
fn step_frame_keeps_input_order() {
    // Right before Other before Left: applied in order, the pair cancels.
    let mut a = initial();
    let keys = vec![Key::Right, Key::Other, Key::Left];
    assert!(keys_fit_now(&a, &keys));
    step_frame(&mut a, &keys, 10, 10);
    assert_eq!(a.player, Player { x: 50, y: 50 });
}

#[test]
fn keys_fit_now_walks_the_whole_sequence() {
    let a = App { expand: 0, player: Player { x: i64::MAX - 15, y: 0 } };
    // One step right fits; two in a row leave the machine range.
    assert!(keys_fit_now(&a, &vec![Key::Right]));
    assert!(!keys_fit_now(&a, &vec![Key::Right, Key::Right]));
}
