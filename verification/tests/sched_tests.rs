use paber::sched::{CycleError, CycleScheduler};

#[test]
fn empty_image_list_is_rejected_before_the_loop() {
    assert_eq!(CycleScheduler::new(0, 10, 0), Err(CycleError::EmptyList));
}

#[test]
fn first_tick_shows_the_first_image_immediately() {
    let mut s = CycleScheduler::new(3, 10, 0).unwrap();
    assert_eq!(s.tick(0), Some(0));
}

#[test]
fn tick_before_the_deadline_changes_nothing() {
    let mut s = CycleScheduler::new(3, 10, 0).unwrap();
    assert_eq!(s.tick(0), Some(0));
    let before = s;
    assert_eq!(s.tick(5), None);
    assert_eq!(s, before);
}

#[test]
fn three_images_after_three_and_a_half_intervals() {
    // With a 3-image list and interval I, polling through elapsed time
    // 3.5 * I switches exactly 3 times after the initial display, and the
    // image on show is index 3 % 3 = 0.
    let interval = 10;
    let mut s = CycleScheduler::new(3, interval, 0).unwrap();
    let mut shown: Vec<usize> = Vec::new();
    let mut t = 0;
    while t <= 35 {
        if let Some(idx) = s.tick(t) {
            shown.push(idx);
        }
        t += 5;
    }
    assert_eq!(shown, vec![0, 1, 2, 0]);
    // Three switches after the initial display, currently showing index 0.
    assert_eq!(shown.len() - 1, 3);
    assert_eq!(*shown.last().unwrap(), 0);
    // The next switch is scheduled one interval past the last one.
    assert_eq!(s.next_switch, 40);
    assert_eq!(s.index, 1);
}

#[test]
fn zero_interval_switches_every_tick() {
    let mut s = CycleScheduler::new(2, 0, 0).unwrap();
    assert_eq!(s.tick(0), Some(0));
    assert_eq!(s.tick(0), Some(1));
    assert_eq!(s.tick(1), Some(0));
}

#[test]
fn index_wraps_modulo_list_length() {
    let mut s = CycleScheduler::new(2, 1, 0).unwrap();
    assert_eq!(s.tick(0), Some(0));
    assert_eq!(s.tick(1), Some(1));
    assert_eq!(s.tick(2), Some(0));
    assert_eq!(s.tick(3), Some(1));
}
