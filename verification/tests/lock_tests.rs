//! Tests of the guarded payload locks and the end-to-end scenarios a
//! cooperative driver would produce.

use lock::future::future_mcslock::FutureMCSLock;
use lock::future::future_mutex::FutureMutex;
use lock::future::future_rwdlock::FutureRwdLock;
use lock::future::future_rwlock::FutureRwLock;
use lock::future::lslock::LsLock;
use lock::future::rw_semaphore::AcquireFuture;
use lock::nest::{IrqState, MockNest};
use lock::spinlock::mcslock::{LockChannel, MCSLock};
use lock::spinlock::spin::SpinMutex;
use lock::spinlock::ticket::TicketMutex;

fn irq() -> IrqState {
    IrqState::new()
}

#[test]
fn spin_mutex_lock_unlock() {
    let mut m = SpinMutex::<u32, MockNest>::new(5);
    let mut i = irq();
    assert!(!m.is_locked());
    let g = m.lock(&mut i);
    assert!(m.is_locked());
    *m.get_mut() += 1;
    m.unlock(g, &mut i);
    assert!(!m.is_locked());
    assert_eq!(m.into_inner(), 6);
}

#[test]
fn spin_mutex_try_lock_contended() {
    let mut m = SpinMutex::<u32, MockNest>::new(0);
    let mut i = irq();
    let g = m.try_lock(&mut i).unwrap();
    assert!(m.try_lock(&mut i).is_none());
    m.unlock(g, &mut i);
    assert!(m.try_lock(&mut i).is_some());
}

#[test]
fn ticket_mutex_serves_in_order() {
    let mut m = TicketMutex::<u32, MockNest>::new(1);
    let mut i = irq();
    let g = m.lock(&mut i);
    assert_eq!(g.ticket, 0);
    assert!(m.is_locked());
    assert!(m.try_lock(&mut i).is_none());
    m.unlock(g, &mut i);
    let g = m.try_lock(&mut i).unwrap();
    assert_eq!(g.ticket, 1);
    m.unlock(g, &mut i);
    assert!(!m.is_locked());
    assert_eq!(m.into_inner(), 1);
}

#[test]
fn mcslock_channels_are_independent() {
    let mut m = MCSLock::<u32, MockNest>::new(9);
    let gn = m.lock(LockChannel::Normal);
    // The interrupt channel never contends with the normal one.
    assert!(!m.is_locked(LockChannel::Interrupt));
    let gi = m.try_lock(LockChannel::Interrupt).unwrap();
    assert!(m.is_locked(LockChannel::Normal));
    assert!(m.is_locked(LockChannel::Interrupt));
    assert!(m.try_lock(LockChannel::Normal).is_none());
    m.unlock(gn);
    assert!(!m.is_locked(LockChannel::Normal));
    assert!(m.is_locked(LockChannel::Interrupt));
    m.unlock(gi);
    assert_eq!(m.into_inner(), 9);
}

#[test]
fn future_mutex_try_and_spin() {
    let mut m = FutureMutex::<u32, MockNest>::new(3);
    let mut i = irq();
    assert!(!m.is_locked());
    let g = m.try_lock(&mut i).unwrap();
    assert!(m.is_locked());
    assert!(m.try_lock(&mut i).is_none());
    m.unlock(g, &mut i);
    let g = m.spin_lock(&mut i);
    *m.get_mut() = 30;
    m.unlock(g, &mut i);
    assert_eq!(m.into_inner(), 30);
}

/// Ten concurrent tasks each increment a shared counter five hundred times
/// through the mutex; a round-robin driver interleaves their resume steps and
/// performs the wakes the releases hand back. The final count is exactly
/// five thousand.
#[test]
fn mutex_test1() {
    const TASKS: usize = 10;
    const LOOPS: u64 = 500;
    let mut m = FutureMutex::<u64, MockNest>::new(0);
    let mut i = irq();
    let mut attempts: Vec<Option<AcquireFuture>> = (0..TASKS).map(|_| None).collect();
    let mut done: Vec<u64> = vec![0; TASKS];
    let mut runnable: Vec<bool> = vec![true; TASKS];
    let mut finished = 0usize;
    let mut t = 0usize;
    while finished < TASKS {
        if done[t] >= LOOPS || !runnable[t] {
            t = (t + 1) % TASKS;
            continue;
        }
        if attempts[t].is_none() {
            attempts[t] = Some(m.lock());
        }
        let got = m.poll_lock(attempts[t].as_mut().unwrap(), &mut i, t as u64);
        if let Some(guard) = got {
            // Inside the critical section: increment, then release.
            *m.get_mut() += 1;
            let woken = m.unlock(guard, &mut i);
            attempts[t] = None;
            done[t] += 1;
            if done[t] == LOOPS {
                finished += 1;
            }
            // Perform the wake action: woken tasks become runnable again.
            for w in woken {
                runnable[w as usize] = true;
            }
        } else {
            // Parked: sleep until a release hands the wake back.
            runnable[t] = false;
        }
        t = (t + 1) % TASKS;
    }
    assert_eq!(m.into_inner(), TASKS as u64 * LOOPS);
}

/// One writer sets a shared integer to a sentinel below zero and then
/// corrects it upward, ten times, while readers probe concurrently: while the
/// writer holds the lock every read attempt fails, so no reader ever observes
/// a negative value; after the writer finishes the value is ten.
#[test]
fn rwlock_test1() {
    let mut l = FutureRwLock::<i64, MockNest>::new(0);
    let mut i = irq();
    for _ in 0..10 {
        let g = l.spin_write(&mut i);
        let tmp = *l.get_mut();
        *l.get_mut() = -1;
        // Readers try to catch the writer in the act — and cannot.
        for _ in 0..5 {
            assert!(l.try_read(&mut i).is_none());
        }
        *l.get_mut() = tmp + 1;
        g.release(&mut l, &mut i);
        // Between increments, readers see only completed values.
        let r = l.try_read(&mut i).unwrap();
        assert!(*l.get_mut() >= 0);
        r.release(&mut l, &mut i);
    }
    let r = l.spin_read(&mut i);
    assert_eq!(*l.get_mut(), 10);
    r.release(&mut l, &mut i);
    assert_eq!(l.into_inner(), 10);
}

#[test]
fn rwlock_reader_count_matches_guards() {
    let mut l = FutureRwLock::<u8, MockNest>::new(0);
    let mut i = irq();
    let g1 = l.try_read(&mut i).unwrap();
    let g2 = l.try_read(&mut i).unwrap();
    let g3 = l.spin_read(&mut i);
    assert_eq!(l.reader_count(), 3);
    g2.release(&mut l, &mut i);
    assert_eq!(l.reader_count(), 2);
    g1.release(&mut l, &mut i);
    g3.release(&mut l, &mut i);
    assert_eq!(l.reader_count(), 0);
    assert_eq!(l.writer_count(), 0);
}

/// Acquire read; upgrading fails while a second read guard is alive and the
/// caller keeps its read guard; dropping the second guard and retrying
/// succeeds.
#[test]
fn rwdlock_upgrade_scenario() {
    let mut l = FutureRwdLock::<u32, MockNest>::new(0);
    let mut i = irq();
    let g1 = l.try_read(&mut i).unwrap();
    let g2 = l.try_read(&mut i).unwrap();
    assert_eq!(l.reader_count(), 2);
    let g1 = match g1.try_upgrade_write(&mut l) {
        Ok(_) => panic!("upgrade must fail while a second reader is alive"),
        Err(g) => g,
    };
    assert_eq!(l.reader_count(), 2);
    g2.release(&mut l, &mut i);
    let gw = match g1.try_upgrade_write(&mut l) {
        Ok(g) => g,
        Err(_) => panic!("upgrade must succeed once the other reader released"),
    };
    assert_eq!(l.writer_count(), 1);
    assert_eq!(l.reader_count(), 0);
    *l.get_mut() = 77;
    gw.release(&mut l, &mut i);
    assert_eq!(l.into_inner(), 77);
}

/// Acquire disk and downgrade to read: a read acquisition that had failed and
/// parked becomes ready without any further release.
#[test]
fn rwdlock_downgrade_wakes_parked_reader_scenario() {
    let mut l = FutureRwdLock::<u32, MockNest>::new(0);
    let mut i = irq();
    let gd = l.try_disk(&mut i).unwrap();
    assert_eq!(l.disk_count(), 1);
    // An independently queued read acquisition fails and parks.
    let mut attempt = l.read();
    assert!(l.poll_read(&mut attempt, &mut i, 42).is_none());
    // Downgrade disk -> read: the parked reader is woken at once.
    let (gr, woken) = gd.downgrade_read(&mut l);
    assert_eq!(woken, vec![42]);
    assert_eq!(l.disk_count(), 0);
    assert_eq!(l.reader_count(), 1);
    // The woken attempt re-validates and succeeds with no release in between.
    let gr2 = l.poll_read(&mut attempt, &mut i, 42).unwrap();
    assert_eq!(l.reader_count(), 2);
    gr.release(&mut l, &mut i);
    gr2.release(&mut l, &mut i);
    assert_eq!(l.reader_count(), 0);
}

#[test]
fn rwdlock_write_disk_transitions() {
    let mut l = FutureRwdLock::<u32, MockNest>::new(0);
    let mut i = irq();
    let gw = l.try_write(&mut i).unwrap();
    assert_eq!(l.writer_count(), 1);
    let gd = gw.upgrade_disk(&mut l);
    assert_eq!(l.disk_count(), 1);
    assert_eq!(l.writer_count(), 0);
    let gw = gd.downgrade_write(&mut l);
    assert_eq!(l.writer_count(), 1);
    let (gr, _) = gw.downgrade_read(&mut l);
    assert_eq!(l.reader_count(), 1);
    gr.release(&mut l, &mut i);
    let gd = l.spin_disk(&mut i);
    let (gr, _) = gd.downgrade_read(&mut l);
    gr.release(&mut l, &mut i);
    assert_eq!(l.lock.get_permit(), 0);
}

#[test]
fn future_mcslock_channels_are_independent() {
    let mut m = FutureMCSLock::<u32, MockNest>::new(4);
    let mut i = irq();
    let gn = m.try_lock(LockChannel::Normal, &mut i).unwrap();
    let gi = m.spin_lock(LockChannel::Interrupt, &mut i);
    assert!(m.try_lock(LockChannel::Normal, &mut i).is_none());
    assert!(m.try_lock(LockChannel::Interrupt, &mut i).is_none());
    m.unlock(gn, &mut i);
    assert!(m.try_lock(LockChannel::Normal, &mut i).is_some());
    m.unlock(gi, &mut i);
    *m.get_mut() = 40;
    assert_eq!(m.into_inner(), 40);
}

#[test]
fn lslock_read_write_phases() {
    let mut l = LsLock::<u32, MockNest>::new(8);
    let mut i = irq();
    let (g1, _) = l.spin_read(&mut i);
    let (g2, _) = l.try_read(&mut i);
    let g2 = g2.unwrap();
    assert_eq!(l.reader_count(), 2);
    g1.release(&mut l, &mut i);
    g2.release(&mut l, &mut i);
    let (gw, _) = l.spin_write(&mut i);
    assert_eq!(l.writer_count(), 1);
    // The short write phase has already let the outer mutex go: a reader is
    // stopped only at the inner lock.
    let (blocked, _) = l.try_read(&mut i);
    assert!(blocked.is_none());
    *l.get_mut() = 80;
    gw.release(&mut l, &mut i);
    assert_eq!(l.into_inner(), 80);
}

#[test]
fn lslock_long_phase_blocks_outer_mutex() {
    let mut l = LsLock::<u32, MockNest>::new(0);
    let mut i = irq();
    let g = l.disk(&mut i);
    // The long phase holds the outer mutex: a reader fails there, before even
    // reaching the inner lock.
    let (blocked, woken) = l.try_read(&mut i);
    assert!(blocked.is_none());
    assert!(woken.is_empty());
    // A suspending contender parks at the outer mutex.
    let mut attempt = l.llock.lock();
    assert!(l.llock.poll_lock(&mut attempt, &mut i, 5).is_none());
    // Ending the long phase wakes the parked contender.
    let woken = g.release(&mut l, &mut i);
    assert_eq!(woken, vec![5]);
    let lg = l.llock.poll_lock(&mut attempt, &mut i, 5).unwrap();
    l.llock.unlock(lg, &mut i);
    let (gr, _) = l.try_read(&mut i);
    let gr = gr.unwrap();
    gr.release(&mut l, &mut i);
    assert_eq!(l.reader_count(), 0);
}
