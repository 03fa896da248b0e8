use cell_lock::cell::{signal_all, Cell, CellLocker, WaitQueueEntry};
use std::sync::Arc;

#[test]
fn basic_assumptions() {
    assert_eq!(std::mem::size_of::<Cell<u64, bool>>(), 64)
}

#[test]
fn default_cell_is_unlocked_and_empty() {
    let cell: Cell<u64, bool> = Default::default();
    assert_eq!(cell.lock_word(), 0);
    assert!(cell.has_empty_chain());
    assert_eq!(cell.partial_hashes(), [0u32; 10]);
    assert_eq!(cell.wakeup(), 0);
}

#[test]
fn try_lock_exclusive_excludes_a_second_holder() {
    let cell: Cell<bool, u8> = Default::default();
    let first = CellLocker::try_lock_exclusive(&cell).expect("free cell");
    assert_eq!(first.observed_word(), 0x8000_0000);
    assert_eq!(cell.lock_word(), 0x8000_0000);
    assert!(CellLocker::try_lock_exclusive(&cell).is_none());
    assert_eq!(first.unlock(), (true, 0x8000_0000));
    assert_eq!(cell.lock_word(), 0);
    let again = CellLocker::try_lock_exclusive(&cell).expect("released cell");
    assert!(again.unlock().0);
}

#[test]
fn sequential_critical_sections_count_every_increment() {
    let cell: Cell<u64, bool> = Default::default();
    let mut counter: u64 = 0;
    for _ in 0..4096 {
        let locker = CellLocker::try_lock_exclusive(&cell).expect("uncontended");
        assert!(CellLocker::try_lock_exclusive(&cell).is_none());
        counter += 1;
        assert!(locker.unlock().0);
    }
    assert_eq!(counter, 4096);
    assert_eq!(cell.lock_word(), 0);
}

#[test]
fn wakeup_signals_only_records_queued_before_it() {
    let cell: Cell<u64, bool> = Default::default();
    let a = cell.enqueue();
    let b = cell.enqueue();
    assert!(!a.is_completed());
    assert!(!b.is_completed());
    assert_eq!(cell.wakeup(), 2);
    assert!(a.is_completed());
    assert!(b.is_completed());
    let c = cell.enqueue();
    assert!(!c.is_completed());
    assert_eq!(cell.wakeup(), 1);
    assert!(c.is_completed());
    assert_eq!(cell.wakeup(), 0);
}

#[test]
fn wait_exclusive_on_a_free_cell_acquires_and_wakes_its_own_record() {
    let cell: Cell<u64, bool> = Default::default();
    let (locked, node) = CellLocker::wait_exclusive(&cell);
    let locker = locked.expect("free cell");
    assert!(node.is_completed());
    assert_eq!(*node.flag().lock().unwrap(), true);
    assert!(locker.unlock().0);
}

#[test]
fn wait_exclusive_on_a_held_cell_parks_until_release() {
    let cell: Cell<u64, bool> = Default::default();
    let holder = CellLocker::try_lock_exclusive(&cell).expect("free cell");
    let (locked, node) = CellLocker::wait_exclusive(&cell);
    assert!(locked.is_none());
    assert!(!node.is_completed());
    assert_eq!(holder.unlock(), (true, 0x8000_0000));
    assert!(node.is_completed());
    assert_eq!(cell.lock_word(), 0);
}

#[test]
fn signal_all_signals_and_counts_every_record() {
    let waiters = vec![Arc::new(WaitQueueEntry::new()), Arc::new(WaitQueueEntry::new())];
    assert_eq!(signal_all(&waiters), 2);
    assert!(waiters.iter().all(|w| w.is_completed()));
    assert_eq!(signal_all(&Vec::new()), 0);
}
