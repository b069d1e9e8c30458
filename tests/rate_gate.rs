use deluge_api::options::{DelugeClientOptions, DEFAULT_RATE_LIMIT_COUNT, DEFAULT_RATE_LIMIT_DURATION};
use deluge_api::rate_gate::{Decision, RateGate};

#[test]
fn five_callers_two_per_window_in_fifo_order() {
    let mut gate = RateGate::new(2, 1000);
    let tickets: Vec<u64> = (0..5).map(|_| gate.enqueue()).collect();
    assert_eq!(tickets, vec![0, 1, 2, 3, 4]);

    let mut granted: Vec<(u64, u64)> = Vec::new();
    let mut now: u64 = 10;
    while granted.len() < 5 {
        let mut next_wake = u64::MAX;
        let mut in_this_pass = 0;
        // Every waiting caller polls, latest first, to show order does not matter.
        for &t in tickets.iter().rev() {
            if granted.iter().any(|&(g, _)| g == t) {
                continue;
            }
            match gate.poll(t, now) {
                Decision::Grant => {
                    granted.push((t, now));
                    in_this_pass += 1;
                }
                Decision::WaitUntil(at) => next_wake = next_wake.min(at),
                Decision::WaitTurn => {}
            }
        }
        // Callers told to wait for their turn poll again after a grant.
        if in_this_pass > 0 {
            continue;
        }
        now = next_wake;
    }
    let order: Vec<u64> = granted.iter().map(|&(t, _)| t).collect();
    assert_eq!(order, vec![0, 1, 2, 3, 4]);
    let times: Vec<u64> = granted.iter().map(|&(_, at)| at).collect();
    assert_eq!(times, vec![10, 10, 1010, 1010, 2010]);
}

#[test]
fn later_ticket_waits_for_its_turn() {
    let mut gate = RateGate::new(1, 100);
    let first = gate.enqueue();
    let second = gate.enqueue();
    assert_eq!(gate.poll(second, 0), Decision::WaitTurn);
    assert_eq!(gate.poll(first, 0), Decision::Grant);
    assert_eq!(gate.poll(second, 50), Decision::WaitUntil(100));
    assert_eq!(gate.poll(second, 100), Decision::Grant);
    assert_eq!(gate.used, 1);
    assert_eq!(gate.window_end, 200);
}

#[test]
fn window_end_saturates() {
    let mut gate = RateGate::new(1, 10);
    let t = gate.enqueue();
    assert_eq!(gate.poll(t, u64::MAX - 3), Decision::Grant);
    assert_eq!(gate.window_end, u64::MAX);
}

#[test]
fn options_give_gate_defaults() {
    let gate = DelugeClientOptions::default().rate_gate();
    assert_eq!(gate.quota, DEFAULT_RATE_LIMIT_COUNT);
    assert_eq!(gate.window, DEFAULT_RATE_LIMIT_DURATION);
    let options = DelugeClientOptions {
        rate_limit_count: Some(0),
        rate_limit_duration: Some(250),
        ..DelugeClientOptions::default()
    };
    let gate = options.rate_gate();
    assert_eq!(gate.quota, 1);
    assert_eq!(gate.window, 250);
}
