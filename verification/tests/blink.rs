use pixel_timer::blink::Blink;

#[test]
fn fresh_blink_shows_the_colon() {
    let b = Blink::new();
    assert!(b.show_colon);
    assert_eq!(b.colon_timer_ms, 0);
    let d = Blink::default();
    assert!(d.show_colon);
    assert_eq!(d.colon_timer_ms, 0);
}

#[test]
fn colon_flips_every_half_second_while_running() {
    let mut b = Blink::new();
    b.step(300, true);
    assert!(b.show_colon);
    assert_eq!(b.colon_timer_ms, 300);
    b.step(250, true);
    assert!(!b.show_colon);
    assert_eq!(b.colon_timer_ms, 0);
    b.step(499, true);
    assert!(!b.show_colon);
    b.step(1, true);
    assert!(b.show_colon);
}

#[test]
fn colon_is_forced_visible_while_not_running() {
    let mut b = Blink::new();
    b.step(450, true);
    b.step(100, true);
    assert!(!b.show_colon);
    b.step(10, false);
    assert!(b.show_colon);
    // The accumulator is held, not cleared, while the timer is off.
    assert_eq!(b.colon_timer_ms, 0);
    b.step(200, true);
    assert_eq!(b.colon_timer_ms, 200);
}

#[test]
fn one_huge_frame_flips_at_most_once() {
    let mut b = Blink::new();
    b.step(10_000, true);
    assert!(!b.show_colon);
    assert_eq!(b.colon_timer_ms, 0);
}
