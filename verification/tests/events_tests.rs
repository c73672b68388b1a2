use bounded_rect::events::step;
use bounded_rect::events::Key;
use bounded_rect::events::LoopState;
use bounded_rect::rect::Rectangle;

#[test]
fn escape_stops_the_loop() {
    let mut r = Rectangle::new(1, 1, "#", " ");
    let state = step(&mut r, Key::Esc, 80, 24);
    assert_eq!(state, LoopState::Stopped);
    assert_eq!((r.x, r.y), (1, 1));
}

#[test]
fn upper_q_stops_the_loop() {
    let mut r = Rectangle::new(3, 7, "#", " ");
    let state = step(&mut r, Key::Char('Q'), 80, 24);
    assert_eq!(state, LoopState::Stopped);
    assert_eq!((r.x, r.y), (3, 7));
}

#[test]
fn lower_q_stops_the_loop() {
    let mut r = Rectangle::new(0, 23, "#", " ");
    let state = step(&mut r, Key::Char('q'), 80, 24);
    assert_eq!(state, LoopState::Stopped);
    assert_eq!((r.x, r.y), (0, 23));
}

#[test]
fn quit_keys_stop_whatever_came_before() {
    let mut r = Rectangle::new(1, 1, "#", " ");
    assert_eq!(step(&mut r, Key::Right, 80, 24), LoopState::Running);
    assert_eq!(step(&mut r, Key::Down, 80, 24), LoopState::Running);
    assert_eq!(step(&mut r, Key::Char('x'), 80, 24), LoopState::Running);
    assert_eq!(step(&mut r, Key::Esc, 80, 24), LoopState::Stopped);
}

#[test]
fn arrow_keys_dispatch_bounded_moves() {
    let mut r = Rectangle::new(1, 1, "#", " ");
    assert_eq!(step(&mut r, Key::Right, 80, 24), LoopState::Running);
    assert_eq!((r.x, r.y), (2, 1));
    assert_eq!(step(&mut r, Key::Down, 80, 24), LoopState::Running);
    assert_eq!((r.x, r.y), (2, 2));
    assert_eq!(step(&mut r, Key::Left, 80, 24), LoopState::Running);
    assert_eq!((r.x, r.y), (1, 2));
    assert_eq!(step(&mut r, Key::Up, 80, 24), LoopState::Running);
    assert_eq!((r.x, r.y), (1, 1));
}

#[test]
fn arrow_keys_clamp_at_the_border() {
    let mut r = Rectangle::new(0, 0, "#", " ");
    assert_eq!(step(&mut r, Key::Up, 80, 24), LoopState::Running);
    assert_eq!(step(&mut r, Key::Left, 80, 24), LoopState::Running);
    assert_eq!((r.x, r.y), (0, 0));
    let mut q = Rectangle::new(79, 23, "#", " ");
    assert_eq!(step(&mut q, Key::Down, 80, 24), LoopState::Running);
    assert_eq!(step(&mut q, Key::Right, 80, 24), LoopState::Running);
    assert_eq!((q.x, q.y), (79, 23));
}

#[test]
fn other_keys_are_ignored() {
    let mut r = Rectangle::new(4, 5, "#", " ");
    assert_eq!(step(&mut r, Key::Char('x'), 80, 24), LoopState::Running);
    assert_eq!((r.x, r.y), (4, 5));
    assert_eq!(step(&mut r, Key::Char(' '), 80, 24), LoopState::Running);
    assert_eq!((r.x, r.y), (4, 5));
    assert_eq!(step(&mut r, Key::Other, 80, 24), LoopState::Running);
    assert_eq!((r.x, r.y), (4, 5));
}
