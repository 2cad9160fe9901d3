use platformer_core::gfx::AnimatedSprite;

#[test]
fn construction_rejects_empty_or_zero_duration_cycles() {
    assert!(AnimatedSprite::new(0, 10).is_none());
    assert!(AnimatedSprite::new(5, 0).is_none());
    assert!(AnimatedSprite::new(5, -3).is_none());
    assert!(AnimatedSprite::new(5, 10).is_some());
    assert!(AnimatedSprite::with_fps(5, 0).is_none());
    assert!(AnimatedSprite::with_fps(5, -1).is_none());
    assert!(AnimatedSprite::with_fps(0, 15).is_none());
}

#[test]
fn with_fps_sets_the_truncated_delay() {
    let s = AnimatedSprite::with_fps(10, 15).unwrap();
    assert_eq!(s.frames(), 10);
    // 1000 / 15 truncates to 66 milliseconds per frame
    assert_eq!(s.current_time(), 0);
    let mut s = s;
    s.add_time(66);
    assert_eq!(s.current_frame(), 1);
}

#[test]
fn frame_index_advances_with_time() {
    let mut s = AnimatedSprite::new(3, 100).unwrap();
    assert_eq!(s.current_frame(), 0);
    s.add_time(99);
    assert_eq!(s.current_frame(), 0);
    s.add_time(1);
    assert_eq!(s.current_frame(), 1);
    s.add_time(150);
    assert_eq!(s.current_frame(), 2);
}

#[test]
fn the_clock_wraps_at_the_cycle_end() {
    let mut s = AnimatedSprite::new(3, 100).unwrap();
    s.add_time(250);
    assert_eq!(s.current_time(), 250);
    s.add_time(100);
    assert_eq!(s.current_time(), 50);
    assert_eq!(s.current_frame(), 0);
    // a large step wraps all the way around
    s.add_time(900);
    assert_eq!(s.current_time(), 50);
}

#[test]
fn rewinding_wraps_backwards() {
    let mut s = AnimatedSprite::new(3, 100).unwrap();
    s.add_time(-100);
    assert_eq!(s.current_time(), 200);
    assert_eq!(s.current_frame(), 2);
}

#[test]
fn set_frame_delay_keeps_the_cycle_duration() {
    let mut s = AnimatedSprite::new(2, 1000).unwrap();
    s.set_frame_delay(500);
    // the accumulated time still wraps at the 2000 ms cycle fixed at construction
    s.add_time(1700);
    assert_eq!(s.current_time(), 1700);
    assert_eq!(s.current_frame(), 1); // 1700 / 500 = 3, and 3 mod 2 = 1
    s.add_time(300);
    assert_eq!(s.current_time(), 0);
}

#[test]
fn set_fps_translates_to_a_delay() {
    let mut s = AnimatedSprite::new(4, 100).unwrap();
    s.set_fps(10);
    s.add_time(250);
    assert_eq!(s.current_frame(), 2); // 250 / 100 = 2
    s.set_fps(2);
    assert_eq!(s.current_frame(), 0); // 250 / 500 = 0
}
