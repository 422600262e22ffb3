use invaders_core::frame::Frame;
use invaders_core::shot::Shot;

#[test]
fn travel_tick_flips_once_per_fifty_ms() {
    // one 50 ms period in two uneven pieces
    let mut s = Shot::new(5, 10);
    s.update(25);
    assert!(!s.anim_flip);
    assert_eq!(s.y, 10);
    s.update(25);
    assert!(s.anim_flip);
    assert_eq!(s.y, 9);

    // the same 50 ms in ten fine pieces gives the same single toggle
    let mut t = Shot::new(5, 10);
    for _ in 0..10 {
        t.update(5);
    }
    assert!(t.anim_flip);
    assert_eq!(t.y, 9);

    // another full period toggles back
    for _ in 0..10 {
        t.update(5);
    }
    assert!(!t.anim_flip);
    assert_eq!(t.y, 8);
}

#[test]
fn explosion_kills_at_exactly_250_ms() {
    let mut s = Shot::new(5, 10);
    s.explode();
    assert!(s.exploding);
    s.update(249);
    assert!(!s.dead());
    s.update(1);
    assert!(s.dead());

    let mut t = Shot::new(5, 10);
    t.explode();
    t.update(250);
    assert!(t.dead());
}

#[test]
fn exploding_shot_neither_moves_nor_flips() {
    let mut s = Shot::new(5, 10);
    s.explode();
    s.update(100);
    assert_eq!(s.y, 10);
    assert!(!s.anim_flip);
}

#[test]
fn shot_dies_on_the_top_row() {
    let mut s = Shot::new(5, 1);
    assert!(!s.dead());
    s.update(50);
    assert_eq!(s.y, 0);
    assert!(s.dead());
}

#[test]
fn shot_glyphs_follow_its_state() {
    let mut s = Shot::new(2, 3);
    let mut frame = Frame::new();
    s.draw(&mut frame);
    assert_eq!(frame.get(2, 3), '|');

    s.update(50);
    let mut frame = Frame::new();
    s.draw(&mut frame);
    assert_eq!(frame.get(2, 2), '!');

    s.explode();
    let mut frame = Frame::new();
    s.draw(&mut frame);
    assert_eq!(frame.get(2, 2), '*');
}
