use minimal_gui::governor::{Action, EventLoop, Signal, FRAME_INTERVAL};

fn governor_stamped_at(reading: u128) -> EventLoop {
    let mut governor = EventLoop::new();
    assert_eq!(governor.advance(Signal::Collected { count: 1 }, reading), Action::Yield);
    governor
}

#[test]
fn interval_is_sixteen_milliseconds() {
    assert_eq!(FRAME_INTERVAL, 16_000_000);
}

#[test]
fn new_governor_owes_a_redraw() {
    let governor = EventLoop::new();
    assert!(governor.ui_needs_update());
    assert_eq!(governor.last_update(), 0);
}

#[test]
fn rest_is_what_is_missing_to_the_interval() {
    let governor = governor_stamped_at(1_000);
    assert_eq!(governor.rest(1_000), 16_000_000);
    assert_eq!(governor.rest(1_001), 15_999_999);
    assert_eq!(governor.rest(5_001_000), 11_000_000);
    assert_eq!(governor.rest(16_000_999), 1);
    assert_eq!(governor.rest(16_001_000), 0);
    assert_eq!(governor.rest(16_001_001), 0);
    assert_eq!(governor.rest(u128::MAX), 0);
}

#[test]
fn clock_that_ran_backwards_gives_no_wait() {
    let governor = governor_stamped_at(1_000);
    assert_eq!(governor.rest(999), 0);
    assert_eq!(governor.rest(0), 0);
    let late = governor_stamped_at(u128::MAX);
    assert_eq!(late.rest(u128::MAX), 16_000_000);
    assert_eq!(late.rest(u128::MAX - 1), 0);
}

#[test]
fn entering_early_asks_for_the_rest_as_sleep() {
    let mut governor = EventLoop::new();
    assert_eq!(governor.advance(Signal::Entered, 4_000_000), Action::Sleep { nanos: 12_000_000 });
    assert_eq!(governor.advance(Signal::Rested, 16_000_000), Action::Poll);
    assert!(governor.ui_needs_update());
    assert_eq!(governor.last_update(), 0);
}

#[test]
fn entering_late_polls_at_once() {
    let mut governor = EventLoop::new();
    assert_eq!(governor.advance(Signal::Entered, 16_000_000), Action::Poll);
    assert_eq!(governor.advance(Signal::Entered, 90_000_000), Action::Poll);
    assert_eq!(governor.last_update(), 0);
}

#[test]
fn bursts_are_held_to_the_interval() {
    let starts: Vec<u128> = vec![0, 1, 15_999_999, 16_000_000, 1_000_000_000];
    let gaps: Vec<u128> = vec![0, 1, 7_000_000, 15_999_999, 16_000_000, 16_000_001, 40_000_000];
    for last in starts.iter() {
        for gap in gaps.iter() {
            let mut governor = governor_stamped_at(*last);
            let now: u128 = last + gap;
            let wake: u128 = match governor.advance(Signal::Entered, now) {
                Action::Sleep { nanos } => now + u128::from(nanos),
                Action::Poll => now,
                other => panic!("unexpected action {:?}", other),
            };
            assert!(wake >= last + u128::from(FRAME_INTERVAL));
            assert_eq!(governor.advance(Signal::Collected { count: 3 }, wake), Action::Yield);
            assert!(governor.last_update() >= last + u128::from(FRAME_INTERVAL));
        }
    }
}

#[test]
fn first_iteration_does_not_block() {
    let mut governor = EventLoop::new();
    assert_eq!(governor.advance(Signal::Collected { count: 0 }, 20_000_000), Action::Yield);
    assert!(!governor.ui_needs_update());
    assert_eq!(governor.last_update(), 20_000_000);
}

#[test]
fn idle_governor_blocks_until_an_event() {
    let mut governor = governor_stamped_at(5);
    assert!(governor.must_block(0));
    assert_eq!(governor.advance(Signal::Collected { count: 0 }, 7), Action::Block);
    assert_eq!(governor.last_update(), 5);
    assert_eq!(governor.advance(Signal::Collected { count: 0 }, 8), Action::Block);
    assert_eq!(governor.advance(Signal::Collected { count: 1 }, 9), Action::Yield);
    assert_eq!(governor.last_update(), 9);
    assert!(!governor.ui_needs_update());
}

#[test]
fn waiting_events_are_handed_out_without_blocking() {
    let mut governor = governor_stamped_at(5);
    assert!(!governor.must_block(1));
    assert_eq!(governor.advance(Signal::Collected { count: 1 }, 6), Action::Yield);
    assert_eq!(governor.advance(Signal::Collected { count: usize::MAX }, 7), Action::Yield);
    assert_eq!(governor.last_update(), 7);
}

#[test]
fn owed_redraw_keeps_the_governor_from_blocking() {
    let mut governor = governor_stamped_at(5);
    assert!(!governor.ui_needs_update());
    governor.needs_update();
    assert!(governor.ui_needs_update());
    assert_eq!(governor.last_update(), 5);
    assert!(!governor.must_block(0));
    assert_eq!(governor.advance(Signal::Collected { count: 0 }, 6), Action::Yield);
    assert_eq!(governor.advance(Signal::Collected { count: 0 }, 7), Action::Block);
}

#[test]
fn governor_on_its_own_clock_follows_the_rule() {
    let mut governor = EventLoop::new();
    match governor.next(Signal::Entered) {
        Action::Sleep { nanos } => assert!(0 < nanos && nanos <= FRAME_INTERVAL),
        Action::Poll => (),
        other => panic!("unexpected action {:?}", other),
    }
    assert_eq!(governor.last_update(), 0);
    assert_eq!(governor.next(Signal::Rested), Action::Poll);
    assert_eq!(governor.next(Signal::Collected { count: 0 }), Action::Yield);
    let first: u128 = governor.last_update();
    assert!(!governor.ui_needs_update());
    assert_eq!(governor.next(Signal::Collected { count: 0 }), Action::Block);
    assert_eq!(governor.last_update(), first);
    assert_eq!(governor.next(Signal::Collected { count: 2 }), Action::Yield);
    assert!(governor.last_update() >= first);
}

#[test]
fn governor_on_its_own_clock_polls_once_the_interval_is_over() {
    let mut governor = EventLoop::new();
    assert_eq!(governor.next(Signal::Collected { count: 1 }), Action::Yield);
    let last: u128 = governor.last_update();
    loop {
        match governor.next(Signal::Entered) {
            Action::Poll => break,
            Action::Sleep { nanos } => assert!(0 < nanos && nanos <= FRAME_INTERVAL),
            other => panic!("unexpected action {:?}", other),
        }
    }
    assert_eq!(governor.last_update(), last);
    assert_eq!(governor.next(Signal::Collected { count: 1 }), Action::Yield);
    assert!(governor.last_update() >= last + u128::from(FRAME_INTERVAL));
}
