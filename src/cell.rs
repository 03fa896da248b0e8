use std::sync::atomic::{AtomicBool, AtomicU32, Ordering};
use std::sync::{Arc, Condvar, Mutex};
use vstd::prelude::*;

use crate::lock_word::{
    acquire_exclusive, exclusively_locked, locked, release, released_spec, XLOCK,
};

verus! {

#[verifier::external_type_specification]
#[verifier::external_body]
#[verifier::reject_recursive_types(T)]
pub struct ExMutex<T: ?Sized>(Mutex<T>);

#[verifier::external_type_specification]
#[verifier::external_body]
pub struct ExCondvar(Condvar);

/// Relies on Mutex::new: an unlocked mutex; nothing is stated of it.
pub assume_specification<T>[ Mutex::<T>::new ](t: T) -> Mutex<T>;

/// Relies on Condvar::new: a fresh condition variable; nothing is stated of it.
pub assume_specification[ Condvar::new ]() -> Condvar;

/// Relies on Condvar::notify_one: wakes at most one waiter; nothing is stated.
pub assume_specification[ Condvar::notify_one ](c: &Condvar);

/// One bucket of a concurrent hash table: its entry chain, its lock word, the
/// threads parked on it and a cache of partial hash values.
pub struct Cell<K, V> {
    link: Option<Box<EntryLink<K, V>>>,
    metadata: AtomicU32,
    wait_queue: Box<Mutex<Vec<Arc<WaitQueueEntry>>>>,
    partial_hash_array: [u32; 10],
}

struct EntryLink<K, V> {
    key_value_pair: (K, V),
    next: Option<Box<EntryLink<K, V>>>,
}

/// A held lock on a cell, with the lock word as it stood once acquired.
///
/// Dropping it does not give the lock up: call `unlock`, or hold it in a
/// wrapper that calls `unlock` when it goes out of scope. A lock that is
/// dropped unreleased stays held.
#[must_use]
pub struct CellLocker<'a, K, V> {
    cell: &'a Cell<K, V>,
    metadata: u32,
}

/// A parked thread's record: a flag under a mutex with its condition variable,
/// and a second flag set once the signalling thread is done with the record.
pub struct WaitQueueEntry {
    mutex: Mutex<bool>,
    condvar: Condvar,
    completed: AtomicBool,
}

/// Relies on Mutex::lock: stores `v` in the guarded flag, also under a
/// poisoned lock.
#[verifier::external_body]
fn set_flag(m: &Mutex<bool>, v: bool) {
    match m.lock() {
        Ok(mut g) => *g = v,
        Err(e) => *e.into_inner() = v,
    }
}

/// Relies on AtomicU32::fetch_update: it retries a compare-exchange with the
/// successor that `release` computes from the word it read, until one takes or
/// `release` refuses; it returns `Ok` with the word it replaced, or `Err` with
/// the word it left untouched.
#[verifier::external_body]
fn apply_release(a: &AtomicU32) -> (r: Result<u32, u32>)
    ensures
        match r {
            Ok(w) => released_spec(w) is Some,
            Err(w) => released_spec(w) is None,
        },
{
    a.fetch_update(Ordering::Release, Ordering::Relaxed, |w| release(w))
}

/// Relies on Mutex::lock: appends a record to the guarded queue.
#[verifier::external_body]
fn push_waiter(q: &Mutex<Vec<Arc<WaitQueueEntry>>>, e: Arc<WaitQueueEntry>) {
    match q.lock() {
        Ok(mut g) => g.push(e),
        Err(p) => p.into_inner().push(e),
    }
}

/// Relies on Mutex::lock: takes the whole guarded queue, leaving it empty.
#[verifier::external_body]
fn take_waiters(q: &Mutex<Vec<Arc<WaitQueueEntry>>>) -> Vec<Arc<WaitQueueEntry>> {
    match q.lock() {
        Ok(mut g) => std::mem::take(&mut *g),
        Err(p) => std::mem::take(&mut *p.into_inner()),
    }
}

impl<K, V> Cell<K, V> {
    pub closed spec fn chain_is_empty(&self) -> bool {
        self.link is None
    }

    pub closed spec fn hash_cache(&self) -> Seq<u32> {
        self.partial_hash_array@
    }

    pub fn has_empty_chain(&self) -> (r: bool)
        ensures
            r == self.chain_is_empty(),
    {
        self.link.is_none()
    }

    pub fn partial_hashes(&self) -> (r: [u32; 10])
        ensures
            r@ == self.hash_cache(),
    {
        self.partial_hash_array
    }

    /// The lock word as this thread reads it now.
    pub fn lock_word(&self) -> u32 {
        self.metadata.load(Ordering::Acquire)
    }

    /// Detaches every record parked on this cell and signals each, the most
    /// recently parked first; records parked after the detach stay queued.
    /// Returns how many were signalled.
    pub fn wakeup(&self) -> (r: usize) {
        let waiters = take_waiters(&self.wait_queue);
        signal_all(&waiters)
    }

    /// Parks a fresh record on this cell and hands it to the caller.
    pub fn enqueue(&self) -> (r: Arc<WaitQueueEntry>) {
        let node = Arc::new(WaitQueueEntry::new());
        push_waiter(&self.wait_queue, node.clone());
        node
    }
}

/// Signals every record of a detached queue, from the last queued to the first,
/// and returns how many were signalled.
pub fn signal_all(waiters: &Vec<Arc<WaitQueueEntry>>) -> (r: usize)
    ensures
        r == waiters@.len(),
{
    let n = waiters.len();
    let mut i: usize = n;
    while i > 0
        invariant
            i <= n,
            n == waiters@.len(),
        decreases i,
    {
        i = i - 1;
        waiters[i].signal();
    }
    n
}

impl<K, V> Default for Cell<K, V> {
    fn default() -> (r: Self)
        ensures
            r.chain_is_empty(),
            r.hash_cache() == Seq::new(10, |i: int| 0u32),
    {
        let r = Cell {
            link: None,
            metadata: AtomicU32::new(0),
            wait_queue: Box::new(Mutex::new(Vec::new())),
            partial_hash_array: [0u32; 10],
        };
        assert(r.hash_cache() =~= Seq::new(10, |i: int| 0u32));
        r
    }
}

impl<'a, K, V> CellLocker<'a, K, V> {
    /// Every lock this library hands out is exclusive.
    #[verifier::type_invariant]
    spec fn inv(&self) -> bool {
        exclusively_locked(self.metadata)
    }

    pub closed spec fn cell(&self) -> &'a Cell<K, V> {
        self.cell
    }

    pub closed spec fn word(&self) -> u32 {
        self.metadata
    }

    /// The lock word as it stood once this lock was acquired.
    pub fn observed_word(&self) -> (r: u32)
        ensures
            r == self.word(),
            exclusively_locked(r),
    {
        proof {
            use_type_invariant(self);
        }
        self.metadata
    }

    /// Sets the exclusive flag of the cell's lock word, and nothing else, when
    /// it is clear; fails at once when it is set.
    pub fn try_lock_exclusive(cell: &'a Cell<K, V>) -> (r: Option<CellLocker<'a, K, V>>)
        ensures
            r matches Some(l) ==> l.cell() == cell && exclusively_locked(l.word()),
    {
        let prev = cell.metadata.fetch_or(XLOCK, Ordering::Acquire);
        match acquire_exclusive(prev) {
            Some(w) => {
                assert(prev & XLOCK == 0 ==> (prev | XLOCK) & XLOCK != 0) by (bit_vector);
                Some(CellLocker { cell, metadata: w })
            },
            None => None,
        }
    }

    /// Parks a record on the cell, then tries once more, which closes the race
    /// with a release that came before the record was queued. On success every
    /// parked record, this one included, is woken. The caller waits on the
    /// record in either case.
    pub fn wait_exclusive(cell: &'a Cell<K, V>) -> (r: (
        Option<CellLocker<'a, K, V>>,
        Arc<WaitQueueEntry>,
    ))
        ensures
            r.0 matches Some(l) ==> l.cell() == cell && exclusively_locked(l.word()),
    {
        let node = cell.enqueue();
        let locked = Self::try_lock_exclusive(cell);
        if locked.is_some() {
            cell.wakeup();
        }
        (locked, node)
    }

    /// Gives the lock up: replaces the cell's word by its successor under
    /// `release` (the exclusive flag cleared, or one shared unit less), then
    /// wakes every parked record. Returns whether the word found recorded a
    /// hold, with that word. Where it recorded none the release was a misuse:
    /// the word is left as it was and nobody is woken.
    pub fn unlock(self) -> (r: (bool, u32))
        ensures
            r.0 == locked(r.1),
            r.0 == (released_spec(r.1) is Some),
    {
        match apply_release(&self.cell.metadata) {
            Ok(w) => {
                self.cell.wakeup();
                (true, w)
            },
            Err(w) => (false, w),
        }
    }
}

impl WaitQueueEntry {
    pub fn new() -> (r: WaitQueueEntry) {
        WaitQueueEntry {
            mutex: Mutex::new(false),
            condvar: Condvar::new(),
            completed: AtomicBool::new(false),
        }
    }

    /// Raises the guarded flag, notifies the waiter, and only then marks the
    /// record completed.
    pub fn signal(&self) {
        set_flag(&self.mutex, true);
        self.condvar.notify_one();
        self.completed.store(true, Ordering::Release);
    }

    /// The mutex that guards the signalled flag. A caller that holds it must
    /// not signal this record from the same thread.
    pub fn flag(&self) -> &Mutex<bool> {
        &self.mutex
    }

    /// The condition variable the waiter blocks on.
    pub fn condvar(&self) -> &Condvar {
        &self.condvar
    }

    /// Whether the signalling thread is done with this record.
    pub fn is_completed(&self) -> bool {
        self.completed.load(Ordering::Acquire)
    }
}

} // verus!
