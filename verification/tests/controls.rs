use playform::controls::{mouse_fits, mouse_move, Action, Controls, InputEvent, Key};

const KEYS: [Key; 12] = [
    Key::A, Key::D, Key::W, Key::S, Key::Space, Key::Left, Key::Right, Key::Up, Key::Down, Key::M, Key::L,
    Key::Other,
];

fn accel(a: Action) -> (i32, i32, i32, i32) {
    match a {
        Action::Walk { x, y, z } => (x as i32, y as i32, z as i32, 0),
        Action::Jump { rising } => (0, 0, 0, if rising { 1 } else { -1 }),
        _ => (0, 0, 0, 0),
    }
}

#[test]
fn walking_keys() {
    let mut c = Controls::new();
    assert_eq!(c.key_press(Key::A), Action::Walk { x: -1, y: 0, z: 0 });
    assert_eq!(c.key_press(Key::D), Action::Walk { x: 1, y: 0, z: 0 });
    assert_eq!(c.key_press(Key::W), Action::Walk { x: 0, y: 0, z: -1 });
    assert_eq!(c.key_press(Key::S), Action::Walk { x: 0, y: 0, z: 1 });
    assert_eq!(c.key_release(Key::A), Action::Walk { x: 1, y: 0, z: 0 });
    assert_eq!(c.key_release(Key::W), Action::Walk { x: 0, y: 0, z: 1 });
    assert_eq!(c, Controls::new());
}

#[test]
fn turning_keys() {
    let mut c = Controls::new();
    assert_eq!(c.key_press(Key::Left), Action::RotateLateral { steps: 1 });
    assert_eq!(c.key_press(Key::Right), Action::RotateLateral { steps: -1 });
    assert_eq!(c.key_press(Key::Up), Action::RotateVertical { steps: 1 });
    assert_eq!(c.key_press(Key::Down), Action::RotateVertical { steps: -1 });
    assert_eq!(c.key_release(Key::Left), Action::Nothing);
    assert_eq!(c.key_press(Key::M), Action::DrawLineOfSight);
    assert_eq!(c.key_press(Key::Other), Action::Nothing);
}

#[test]
fn jumping() {
    let mut c = Controls::new();
    assert_eq!(c.key_press(Key::Space), Action::Jump { rising: true });
    assert!(c.is_jumping);
    assert_eq!(c.key_press(Key::Space), Action::Nothing);
    assert_eq!(c.key_release(Key::Space), Action::Jump { rising: false });
    assert!(!c.is_jumping);
    assert_eq!(c.key_release(Key::Space), Action::Nothing);
}

#[test]
fn outline_key_toggles() {
    let mut c = Controls::new();
    assert_eq!(c.key_press(Key::L), Action::Nothing);
    assert!(c.render_outlines);
    assert_eq!(c.key_release(Key::L), Action::Nothing);
    assert!(c.render_outlines);
    c.key_press(Key::L);
    assert!(!c.render_outlines);
}

#[test]
fn release_undoes_press() {
    for &k in KEYS.iter() {
        if k == Key::L {
            continue;
        }
        let start = Controls::new();
        let mut c = start;
        let a1 = c.key_press(k);
        let a2 = c.key_release(k);
        assert_eq!(c, start);
        let (p, r) = (accel(a1), accel(a2));
        assert_eq!((p.0 + r.0, p.1 + r.1, p.2 + r.2, p.3 + r.3), (0, 0, 0, 0));
    }
}

#[test]
fn mouse_offset_from_centre() {
    assert_eq!(mouse_move(400, 300, 800, 600), Action::Look { dx: 0, dy: 0 });
    assert_eq!(mouse_move(410, 250, 800, 600), Action::Look { dx: 10, dy: 50 });
    assert_eq!(mouse_move(0, 600, 801, 601), Action::Look { dx: -400, dy: -300 });
}

#[test]
fn events_dispatch() {
    let mut c = Controls::new();
    assert_eq!(
        c.process_event(InputEvent::KeyDown { key: Key::D, repeat: false }, 800, 600),
        Action::Walk { x: 1, y: 0, z: 0 }
    );
    assert_eq!(
        c.process_event(InputEvent::KeyUp { key: Key::D, repeat: false }, 800, 600),
        Action::Walk { x: -1, y: 0, z: 0 }
    );
    assert_eq!(c.process_event(InputEvent::MouseMotion { x: 0, y: 0 }, 800, 600), Action::Look { dx: -400, dy: 300 });
    assert_eq!(c.process_event(InputEvent::Other, 800, 600), Action::Nothing);
}

#[test]
fn repeated_key_events_are_ignored() {
    for &k in KEYS.iter() {
        let mut c = Controls::new();
        assert_eq!(c.process_event(InputEvent::KeyDown { key: k, repeat: true }, 800, 600), Action::Nothing);
        assert_eq!(c.process_event(InputEvent::KeyUp { key: k, repeat: true }, 800, 600), Action::Nothing);
        assert_eq!(c, Controls::new());
    }
}

#[test]
fn mouse_range_check() {
    assert!(mouse_fits(400, 300, 800, 600));
    assert!(mouse_fits(i32::MIN + 400, i32::MIN + 300, 800, 600) == false);
    assert!(mouse_fits(i32::MAX, 0, 0, 0));
    assert!(!mouse_fits(0, 0, u32::MAX, 600));
    assert!(!mouse_fits(i32::MIN, 0, 2, 0));
    assert!(mouse_fits(i32::MIN, 0, 0, 0));
}

#[test]
fn look_points_where_the_mouse_went() {
    let look = |x, y| match mouse_move(x, y, 800, 600) {
        Action::Look { dx, dy } => (dx, dy),
        _ => unreachable!(),
    };
    assert_eq!(look(400, 300), (0, 0));
    assert!(look(401, 300).0 > 0 && look(399, 300).0 < 0);
    assert!(look(400, 299).1 > 0 && look(400, 301).1 < 0);
    assert!(look(10, 0).0 < look(20, 0).0);
    assert!(look(0, 10).1 > look(0, 20).1);
}
