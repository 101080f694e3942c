use flush_safety::config::Args;
use flush_safety::fault::{CrashPoint, FaultPolicy, DEFAULT_CRASH_CHANCE};
use flush_safety::keys::{make_key, make_value};
use flush_safety::partition::Partition;
use flush_safety::reset::{apply_plan, reset_plan};
use flush_safety::scan::{verify_store, Verdict, VerifyAction, Verifier};
use flush_safety::schedule::{simulate, SchedAction, Scheduler};
use flush_safety::store::{MemStore, StoreOp};

fn store_with(secondary: &[usize], primary: &[usize]) -> MemStore {
    let mut s = MemStore::new();
    for &i in secondary {
        s.put(Partition::Secondary, i);
    }
    for &i in primary {
        s.put(Partition::Primary, i);
    }
    s
}

#[test]
fn keys_and_values_are_decimal() {
    assert_eq!(make_key(0), "test_key-0");
    assert_eq!(make_key(7), "test_key-7");
    assert_eq!(make_key(10), "test_key-10");
    assert_eq!(make_key(123456), "test_key-123456");
    assert_eq!(make_value(0), "0");
    assert_eq!(make_value(42), "42");
    assert_eq!(make_value(usize::MAX), usize::MAX.to_string());
    assert_ne!(make_key(1), make_key(10));
}

#[test]
fn partition_names() {
    assert_eq!(Partition::Primary.name(), "vector");
    assert_eq!(Partition::Secondary.name(), "mapping");
}

#[test]
fn default_args() {
    let a = Args::defaults();
    assert_eq!(a.storage_dir, "storage");
    assert_eq!(a.flush_interval_ms, 1000);
    assert!(!a.wal_enabled);
}

#[test]
fn violation_reported_with_its_index() {
    let s = store_with(&[0, 1, 2, 3], &[0, 2, 3]);
    assert_eq!(verify_store(&s, 100), Verdict::Violation { index: 1 });
}

#[test]
fn consistent_store_passes() {
    let s = store_with(&[0, 1, 2], &[0, 1, 2, 3, 4]);
    assert_eq!(verify_store(&s, 100), Verdict::Consistent { gap: 3 });
}

#[test]
fn scan_stops_at_first_gap() {
    // 6 and 7 are in Secondary without their Primary record, past the gap.
    let s = store_with(&[0, 1, 2, 3, 4, 6, 7], &[0, 1, 2, 3, 4]);
    assert_eq!(verify_store(&s, 100), Verdict::Consistent { gap: 5 });
}

#[test]
fn scan_probes_nothing_past_the_gap() {
    let s = store_with(&[0, 1, 2, 3, 4, 6, 7], &[0, 1, 2, 3, 4]);
    let mut v = Verifier::new(100);
    let mut probed = Vec::new();
    loop {
        match v.next_action() {
            VerifyAction::Finished(verdict) => {
                assert_eq!(verdict, Verdict::Consistent { gap: 5 });
                break;
            }
            VerifyAction::Probe { partition, index } => {
                probed.push(index);
                v.answer(s.has_record(partition, index));
            }
        }
    }
    assert!(probed.iter().all(|&i| i <= 5));
    assert_eq!(*probed.last().unwrap(), 5);
}

#[test]
fn scan_reaches_ceiling() {
    let s = store_with(&[0, 1, 2, 3], &[0, 1, 2, 3]);
    assert_eq!(verify_store(&s, 3), Verdict::Consistent { gap: 3 });
    assert_eq!(verify_store(&s, 0), Verdict::Consistent { gap: 0 });
    let v = Verifier::new(0);
    assert_eq!(v.next_action(), VerifyAction::Finished(Verdict::Consistent { gap: 0 }));
}

#[test]
fn verification_is_idempotent() {
    let s = store_with(&[0, 1, 2, 5], &[0, 2]);
    let first = verify_store(&s, 50);
    let second = verify_store(&s, 50);
    assert_eq!(first, second);
    assert_eq!(first, Verdict::Violation { index: 1 });
    let ok = store_with(&[0, 1], &[0, 1]);
    assert_eq!(verify_store(&ok, 50), verify_store(&ok, 50));
}

#[test]
fn reset_is_complete_and_durable() {
    let mut s = store_with(&[0, 1, 2], &[0, 1, 2]);
    s.flush(Partition::Primary);
    s.flush(Partition::Secondary);
    let plan = reset_plan();
    assert_eq!(
        plan,
        vec![
            StoreOp::Recreate(Partition::Secondary),
            StoreOp::Flush(Partition::Secondary),
            StoreOp::Recreate(Partition::Primary),
            StoreOp::Flush(Partition::Primary),
        ]
    );
    apply_plan(&mut s, &plan);
    for i in 0..3 {
        assert!(!s.has_record(Partition::Primary, i));
        assert!(!s.has_record(Partition::Secondary, i));
    }
    s.crash();
    for i in 0..3 {
        assert!(!s.has_record(Partition::Primary, i));
        assert!(!s.has_record(Partition::Secondary, i));
    }
    assert_eq!(verify_store(&s, 10), Verdict::Consistent { gap: 0 });
}

#[test]
fn recreate_without_flush_is_not_durable() {
    let mut s = store_with(&[0], &[0]);
    s.flush(Partition::Secondary);
    s.recreate(Partition::Secondary);
    assert!(!s.has_record(Partition::Secondary, 0));
    s.crash();
    assert!(s.has_record(Partition::Secondary, 0));
}

#[test]
fn unflushed_secondary_is_lost_in_a_crash() {
    let mut s = MemStore::new();
    for i in 0..3 {
        s.put(Partition::Primary, i);
        s.put(Partition::Secondary, i);
    }
    s.flush(Partition::Primary);
    s.crash();
    assert_eq!(verify_store(&s, 1000), Verdict::Consistent { gap: 0 });
    for i in 0..3 {
        assert!(s.has_record(Partition::Primary, i));
        assert!(!s.has_record(Partition::Secondary, i));
    }
}

#[test]
fn scheduler_cycle_order() {
    let mut sch = Scheduler::new(2, 100, 0);
    let s = Partition::Secondary;
    let p = Partition::Primary;
    assert_eq!(sch.step(10), SchedAction::Store(StoreOp::Put(s, 0)));
    assert_eq!(sch.step(20), SchedAction::Store(StoreOp::Put(p, 0)));
    assert_eq!(sch.step(30), SchedAction::Crash(CrashPoint::AfterWrites));
    // not yet due: the next pair starts
    assert_eq!(sch.step(100), SchedAction::Store(StoreOp::Put(s, 1)));
    assert_eq!(sch.step(110), SchedAction::Store(StoreOp::Put(p, 1)));
    assert_eq!(sch.step(120), SchedAction::Crash(CrashPoint::AfterWrites));
    // due: flush Primary first, crash point, then Secondary
    assert_eq!(sch.step(101), SchedAction::Store(StoreOp::Flush(p)));
    assert_eq!(sch.last_flush_ms, 101);
    assert_eq!(sch.step(130), SchedAction::Crash(CrashPoint::BetweenFlushes));
    assert_eq!(sch.step(140), SchedAction::Store(StoreOp::Flush(s)));
    assert_eq!(sch.step(150), SchedAction::Finished);
    assert_eq!(sch.step(160), SchedAction::Finished);
}

#[test]
fn scheduler_with_no_records_finishes() {
    let mut sch = Scheduler::new(0, 5, 0);
    assert_eq!(sch.step(0), SchedAction::Finished);
}

#[test]
fn kill_between_flushes_never_breaks_the_invariant() {
    for limit in 1..12usize {
        for interval in [0u64, 1, 3, 7] {
            let mut store = MemStore::new();
            let mut sch = Scheduler::new(limit, interval, 0);
            let clock: Vec<u64> = (1..2000u64).collect();
            let killed = simulate(&mut store, &mut sch, &FaultPolicy::At(CrashPoint::BetweenFlushes), &clock);
            match verify_store(&store, 1000) {
                Verdict::Consistent { .. } => {}
                v => panic!("limit {} interval {}: {:?}", limit, interval, v),
            }
            if killed {
                // Primary was flushed, Secondary was not: Secondary lags.
                let gap_s = (0..limit).find(|&i| !store.has_record(Partition::Secondary, i));
                assert!(gap_s.is_some());
                assert!(store.has_record(Partition::Primary, 0));
            }
        }
    }
}

#[test]
fn kill_after_writes_leaves_only_flushed_pairs() {
    let mut store = MemStore::new();
    let mut sch = Scheduler::new(10, 1000, 0);
    let clock: Vec<u64> = (0..100u64).collect();
    let killed = simulate(&mut store, &mut sch, &FaultPolicy::At(CrashPoint::AfterWrites), &clock);
    assert!(killed);
    assert_eq!(verify_store(&store, 100), Verdict::Consistent { gap: 0 });
}

#[test]
fn run_without_faults_completes() {
    let mut store = MemStore::new();
    let mut sch = Scheduler::new(5, 2, 0);
    let clock: Vec<u64> = (0..1000u64).collect();
    let killed = simulate(&mut store, &mut sch, &FaultPolicy::Never, &clock);
    assert!(!killed);
    assert_eq!(sch.step(5000), SchedAction::Finished);
    for i in 0..5 {
        assert!(store.has_record(Partition::Primary, i));
        assert!(store.has_record(Partition::Secondary, i));
    }
    assert_eq!(verify_store(&store, 100), Verdict::Consistent { gap: 5 });
}

#[test]
fn random_runs_stay_ordered() {
    for _ in 0..20 {
        let mut store = MemStore::new();
        let mut sch = Scheduler::new(200, 3, 0);
        let clock: Vec<u64> = (0..5000u64).collect();
        simulate(&mut store, &mut sch, &FaultPolicy::Random { chance: 20_000 }, &clock);
        store.crash();
        assert!(matches!(verify_store(&store, 1000), Verdict::Consistent { .. }));
    }
}

#[test]
fn fault_decisions() {
    let r = FaultPolicy::Random { chance: DEFAULT_CRASH_CHANCE };
    assert!(r.decide(CrashPoint::AfterWrites, 9));
    assert!(!r.decide(CrashPoint::AfterWrites, 10));
    assert!(r.decide(CrashPoint::BetweenFlushes, 1_000_003));
    assert!(!r.decide(CrashPoint::BetweenFlushes, 999_999));
    assert!(!FaultPolicy::Never.decide(CrashPoint::AfterWrites, 0));
    let at = FaultPolicy::At(CrashPoint::BetweenFlushes);
    assert!(at.decide(CrashPoint::BetweenFlushes, 12345));
    assert!(!at.decide(CrashPoint::AfterWrites, 0));
    assert!(at.trial(CrashPoint::BetweenFlushes));
    assert!(!at.trial(CrashPoint::AfterWrites));
    assert!(!FaultPolicy::Never.trial(CrashPoint::BetweenFlushes));
    assert!(FaultPolicy::Random { chance: 1_000_000 }.trial(CrashPoint::AfterWrites));
    assert!(!FaultPolicy::Random { chance: 0 }.trial(CrashPoint::AfterWrites));
}
