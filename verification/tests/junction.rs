use caligula::junction::{JunctionStorage, TransferStat};
use std::time::{Duration, Instant};

#[test]
fn transfer_stat_offsets() {
    let work = Instant::now();
    let s = work + Duration::from_nanos(1500);
    let e = work + Duration::from_nanos(4000);
    let stat = TransferStat::new(work, s, e, 42);
    assert_eq!(stat.time_started(), Duration::from_nanos(1500));
    assert_eq!(stat.time_ended(), Duration::from_nanos(4000));
    assert_eq!(stat.duration(), Duration::from_nanos(2500));
    assert_eq!(stat.bytes(), 42);
}

#[test]
fn transfer_before_work_start_saturates() {
    let work = Instant::now() + Duration::from_secs(1);
    let stat = TransferStat::new(work, work - Duration::from_nanos(10), work, 1);
    assert_eq!(stat.time_started(), Duration::ZERO);
}

#[test]
fn junction_ids_are_sequential() {
    let mut js = JunctionStorage::new();
    let a = js.create();
    let b = js.create();
    let c = js.create();
    assert_eq!((a.get_id(), b.get_id(), c.get_id()), (0, 1, 2));
}

#[test]
fn take_transfers_returns_log_in_order_and_empties() {
    let mut js = JunctionStorage::new();
    let a = js.create();
    let b = js.create();
    a.log(&mut js, TransferStat::from_nanos(0, 5, 10));
    b.log(&mut js, TransferStat::from_nanos(5, 9, 20));
    a.log(&mut js, TransferStat::from_nanos(9, 12, 30));
    let taken = js.take_transfers();
    let summary: Vec<(u32, u64)> = taken.iter().map(|(id, s)| (*id, s.bytes())).collect();
    assert_eq!(summary, vec![(0, 10), (1, 20), (0, 30)]);
    assert!(js.take_transfers().is_empty());
    let d = js.create();
    assert_eq!(d.get_id(), 2);
}

#[test]
fn one_junction_snapshot_in_log_order() {
    let mut js = JunctionStorage::new();
    let j = js.create();
    assert_eq!(j.get_id(), 0);
    for k in 0..5u64 {
        j.log(&mut js, TransferStat::from_nanos(k, k + 1, 100 + k));
    }
    let taken: Vec<(u32, u64, u64)> = js
        .take_transfers()
        .iter()
        .map(|(id, s)| (*id, s.time_started().as_nanos() as u64, s.bytes()))
        .collect();
    assert_eq!(taken, (0..5u64).map(|k| (0, k, 100 + k)).collect::<Vec<_>>());
    assert!(js.take_transfers().is_empty());
}
