use hlc::{HLTimespec, State, Timespec};

fn ts(s: i64, ns: i32) -> Timespec {
    Timespec { sec: s, nsec: ns }
}

fn hlts(s: i64, ns: i32, l: u16) -> HLTimespec {
    HLTimespec::new(s, ns, l)
}

#[test]
fn it_works() {
    let zero = hlts(0, 0, 0);
    let ops = vec![
        // (wall, event, outcome): a zero event stands for `get_time`,
        // any other for `update`.
        (ts(1, 0), zero, hlts(1, 0, 0)),
        (ts(1, 0), zero, hlts(1, 0, 1)), // clock didn't move
        (ts(0, 9), zero, hlts(1, 0, 2)), // clock moved back
        (ts(2, 0), zero, hlts(2, 0, 0)), // finally ahead again
        (ts(3, 0), hlts(1, 2, 3), hlts(3, 0, 0)), // event happens, but wall ahead
        (ts(3, 0), hlts(1, 2, 3), hlts(3, 0, 1)), // event happens, wall ahead but unchanged
        (ts(3, 0), hlts(3, 0, 1), hlts(3, 0, 2)), // event happens at wall, which is still unchanged
        (ts(3, 0), hlts(3, 0, 99), hlts(3, 0, 100)), // event with larger logical, wall unchanged
        (ts(3, 5), hlts(4, 4, 100), hlts(4, 4, 101)), // event with larger wall, our wall behind
        (ts(5, 0), hlts(4, 5, 0), hlts(5, 0, 0)), // event behind wall, but ahead of previous state
        (ts(4, 9), hlts(5, 0, 99), hlts(5, 0, 100)),
        (ts(0, 0), hlts(5, 0, 50), hlts(5, 0, 101)), // event at state, lower logical than state
    ];

    // A source that replays the scripted readings in order.
    let mut times = ops.iter().rev().map(|op| op.0).collect::<Vec<Timespec>>();
    let mut s = State::new_with(move || times.pop().unwrap());

    for op in &ops {
        let t = if op.1 == zero {
            s.get_time()
        } else {
            s.update(op.1.clone())
        };
        assert_eq!(t, op.2);
    }
}

#[test]
fn scripted_readings_then_two_events() {
    let mut times = vec![ts(3, 0), ts(3, 0), ts(2, 0), ts(0, 900_000_000), ts(1, 0), ts(1, 0)];
    let mut s = State::new_with(move || times.pop().unwrap());
    assert_eq!(s.get_time(), hlts(1, 0, 0));
    assert_eq!(s.get_time(), hlts(1, 0, 1));
    assert_eq!(s.get_time(), hlts(1, 0, 2));
    assert_eq!(s.get_time(), hlts(2, 0, 0));
    assert_eq!(s.update(hlts(1, 2, 3)), hlts(3, 0, 0));
    assert_eq!(s.update(hlts(3, 0, 1)), hlts(3, 0, 2));
}

#[test]
fn transitions_for_a_given_reading() {
    let mut s = State::new_with(|| ts(0, 0));
    assert_eq!(s.get_time_at(ts(7, 5)), hlts(7, 5, 0));
    assert_eq!(s.get_time_at(ts(7, 5)), hlts(7, 5, 1));
    assert_eq!(s.get_time_at(ts(7, 4)), hlts(7, 5, 2));
    assert_eq!(s.get_time_at(ts(7, 6)), hlts(7, 6, 0));
    // the reading is ahead of both
    assert_eq!(s.update_at(ts(8, 0), hlts(7, 9, 40)), hlts(8, 0, 0));
    // the event is ahead of the clock, the reading is not ahead of the event
    assert_eq!(s.update_at(ts(8, 0), hlts(9, 1, 40)), hlts(9, 1, 41));
    // the clock is ahead of the event
    assert_eq!(s.update_at(ts(8, 0), hlts(9, 0, 500)), hlts(9, 1, 42));
    // equal wall times: one past the larger counter
    assert_eq!(s.update_at(ts(9, 1), hlts(9, 1, 7)), hlts(9, 1, 43));
    assert_eq!(s.update_at(ts(9, 1), hlts(9, 1, 70)), hlts(9, 1, 71));
    // a reading ahead of the clock but not of the event
    assert_eq!(s.update_at(ts(10, 0), hlts(10, 0, 3)), hlts(10, 0, 4));
}

#[test]
fn a_new_clock_starts_at_zero() {
    let mut s = State::new_with(|| ts(0, 0));
    assert_eq!(s.get_time(), hlts(0, 0, 1));
    let mut t = State::new_with(|| ts(-1, 0));
    assert_eq!(t.update(hlts(-5, 0, 9)), hlts(0, 0, 1));
}

#[test]
fn local_events_increase_whatever_the_source_reads() {
    let readings = vec![ts(5, 0), ts(5, 0), ts(4, 999), ts(-3, 0), ts(5, 1), ts(0, 0), ts(6, 0)];
    let mut s = State::new_with(|| ts(0, 0));
    let mut issued: Vec<HLTimespec> = Vec::new();
    for r in &readings {
        let t = s.get_time_at(*r);
        for earlier in &issued {
            assert!(*earlier < t);
        }
        issued.push(t);
    }
}

#[test]
fn received_events_are_exceeded() {
    let events = vec![hlts(1, 0, 0), hlts(9, 9, 9), hlts(9, 9, 8), hlts(-4, 0, 65534), hlts(9, 9, 65534)];
    let readings = vec![ts(0, 0), ts(9, 9), ts(20, 0), ts(9, 8)];
    for start in &readings {
        for e in &events {
            for r in &readings {
                let mut s = State::new_with(|| ts(0, 0));
                let prior = s.get_time_at(*start);
                let t = s.update_at(*r, *e);
                assert!(prior < t);
                assert!(*e < t);
            }
        }
    }
}

#[test]
fn the_same_script_gives_the_same_timestamps() {
    let script = vec![
        (ts(1, 0), None),
        (ts(1, 0), Some(hlts(4, 0, 2))),
        (ts(0, 5), None),
        (ts(9, 0), Some(hlts(4, 0, 2))),
        (ts(9, 0), Some(hlts(9, 0, 7))),
    ];
    let mut runs: Vec<Vec<HLTimespec>> = Vec::new();
    for _ in 0..2 {
        let mut s = State::new_with(|| ts(0, 0));
        let mut out = Vec::new();
        for (reading, event) in &script {
            out.push(match event {
                None => s.get_time_at(*reading),
                Some(e) => s.update_at(*reading, *e),
            });
        }
        runs.push(out);
    }
    assert_eq!(runs[0], runs[1]);
    assert_eq!(
        runs[0],
        vec![hlts(1, 0, 0), hlts(4, 0, 3), hlts(4, 0, 4), hlts(9, 0, 0), hlts(9, 0, 8)]
    );
}

#[test]
fn the_logical_counter_wraps_to_zero() {
    let mut s = State::new_with(|| ts(0, 0));
    assert_eq!(s.update_at(ts(1, 0), hlts(2, 0, 65535)), hlts(2, 0, 0));
    assert_eq!(s.update_at(ts(1, 0), hlts(2, 0, 65534)), hlts(2, 0, 65535));
    let stalled = s.get_time_at(ts(2, 0));
    assert_eq!(stalled, hlts(2, 0, 0));
    assert!(stalled < hlts(2, 0, 65535));
    assert_eq!(s.update_at(ts(0, 0), hlts(2, 0, 65535)), hlts(2, 0, 0));
    assert_eq!(s.get_time_at(ts(2, 1)), hlts(2, 1, 0));
}

#[test]
fn the_system_clock_is_read() {
    let mut s = State::new();
    let a = s.get_time();
    assert!(a.wall.sec > 0);
    assert!(a.wall.nsec >= 0 && a.wall.nsec < 1_000_000_000);
    assert_eq!(a.logical, 0);
    let b = s.get_time();
    assert!(a < b);
    let c = s.update(hlts(1, 2, 3));
    assert!(b < c);
    assert!(hlts(1, 2, 3) < c);
}

#[test]
fn a_shared_clock_is_locked_for_each_call() {
    let mu = State::new_sendable();
    let a = {
        let mut s = mu.lock().unwrap();
        s.get_time()
    };
    let b = {
        let mut s = mu.lock().unwrap();
        s.update(a)
    };
    assert!(a < b);
}
