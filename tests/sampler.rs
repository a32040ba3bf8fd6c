use pet_cli::{Event, Key, Sampler};

#[test]
fn timeout_shrinks_with_elapsed_time() {
    let s = Sampler::new(200, 1000);
    assert_eq!(s.timeout(1000), 200);
    assert_eq!(s.timeout(1050), 150);
    assert_eq!(s.timeout(1200), 0);
    assert_eq!(s.timeout(5000), 0);
    assert_eq!(s.timeout(900), 200);
}

#[test]
fn key_goes_out_before_due_tick() {
    let mut s = Sampler::new(200, 0);
    assert_eq!(s.sample(210, Some(Key::Char('a'))), vec![Event::Input(Key::Char('a')), Event::Tick]);
    assert_eq!(s.last_tick_ms, 210);
}

#[test]
fn key_does_not_restart_tick_clock() {
    let mut s = Sampler::new(200, 0);
    assert_eq!(s.sample(120, Some(Key::Other)), vec![Event::Input(Key::Other)]);
    assert_eq!(s.last_tick_ms, 0);
    assert_eq!(s.timeout(120), 80);
}

#[test]
fn quiet_round_sends_nothing() {
    let mut s = Sampler::new(200, 0);
    assert_eq!(s.sample(199, None), Vec::<Event<Key>>::new());
    assert_eq!(s, Sampler::new(200, 0));
}

fn idle_run(rate: u64, duration: u64, lag: u64) -> (usize, usize) {
    let mut s = Sampler::new(rate, 0);
    let mut now: u64 = 0;
    let (mut ticks, mut inputs) = (0, 0);
    loop {
        now += s.timeout(now) + lag;
        if now > duration {
            break;
        }
        for e in s.sample(now, None) {
            match e {
                Event::Tick => ticks += 1,
                Event::Input(_) => inputs += 1,
            }
        }
    }
    (ticks, inputs)
}

#[test]
fn idle_for_650ms_gives_three_ticks() {
    assert_eq!(idle_run(200, 650, 0), (3, 0));
    let (ticks, inputs) = idle_run(200, 650, 5);
    assert!(ticks >= 3);
    assert_eq!(inputs, 0);
}

#[test]
fn idle_ticks_once_per_interval() {
    let mut s = Sampler::new(200, 0);
    let mut now: u64 = 0;
    let mut last_tick_at: u64 = 0;
    for _ in 0..20 {
        now += s.timeout(now) + 3;
        let out = s.sample(now, None);
        assert_eq!(out, vec![Event::Tick]);
        assert!(now - last_tick_at <= 200 + 3);
        last_tick_at = now;
    }
}

#[test]
fn late_clock_reads_keep_ticks_within_interval_plus_lag() {
    let mut s = Sampler::new(200, 0);
    let mut now: u64 = 0;
    let mut prev_tick: u64 = 0;
    for lag in [0u64, 7, 1, 12, 3, 0, 9] {
        now += s.timeout(now) + lag;
        assert_eq!(s.sample(now, None), vec![Event::Tick]);
        assert!(now - prev_tick <= 200 + 12);
        prev_tick = now;
    }
}
