//! Tests of the semaphore engines: permit-word transitions, the waiter
//! queue's wake policy, and the upgrade/downgrade protocol.

use lock::binary_semaphore::Semaphore;
use lock::future::rw_semaphore::RwSemaphore;
use lock::future::rwd_semaphore::{RwdSemaphore, DISK, READER, WRITER};
use lock::nest::{IrqState, MockNest};

fn irq() -> IrqState {
    IrqState::new()
}

#[test]
fn binary_semaphore_try_acquire_release() {
    let mut s = Semaphore::new();
    assert!(s.get_permit());
    assert!(s.try_acquire().is_ok());
    assert!(!s.get_permit());
    assert!(s.try_acquire().is_err());
    assert_eq!(s.release(), None);
    assert!(s.get_permit());
    assert!(s.try_acquire().is_ok());
}

#[test]
fn binary_semaphore_poll_parks_and_release_wakes() {
    let mut s = Semaphore::new();
    assert!(s.try_acquire().is_ok());
    let mut attempt = s.acquire();
    // Not ready: the waiter parks with its handle.
    assert!(!attempt.poll(&mut s, 7));
    // Repeated polls do not enqueue a second time.
    assert!(!attempt.poll(&mut s, 7));
    let woken = s.release();
    assert_eq!(woken, Some(7));
    // Woken means "retry": the permit is there now.
    assert!(attempt.poll(&mut s, 7));
}

#[test]
fn rw_semaphore_readers_share_writer_excludes() {
    let mut s = RwSemaphore::<MockNest>::new();
    let mut i = irq();
    assert!(s.try_acquire_read(&mut i).is_ok());
    assert!(s.try_acquire_read(&mut i).is_ok());
    assert_eq!(s.reader_count(), 2);
    assert_eq!(s.writer_count(), 0);
    // A writer cannot join readers.
    assert!(s.try_acquire_write(&mut i).is_err());
    s.release_read(&mut i);
    s.release_read(&mut i);
    assert_eq!(s.reader_count(), 0);
    assert!(s.try_acquire_write(&mut i).is_ok());
    assert_eq!(s.writer_count(), 1);
    // No reader can join a writer.
    assert!(s.try_acquire_read(&mut i).is_err());
    s.release_write(&mut i);
    assert_eq!(s.get_permit(), 0);
}

#[test]
fn rw_semaphore_wake_order_batches_readers() {
    let mut s = RwSemaphore::<MockNest>::new();
    let mut i = irq();
    assert!(s.try_acquire_write(&mut i).is_ok());
    // Park: reader(1), writer(2), reader(3) — in that order.
    let mut r1 = s.acquire_read();
    let mut w2 = s.acquire_write();
    let mut r3 = s.acquire_read();
    assert!(!r1.poll(&mut s, &mut i, 1));
    assert!(!w2.poll(&mut s, &mut i, 2));
    assert!(!r3.poll(&mut s, &mut i, 3));
    // The head is a reader, so the batched wake also pulls reader 3 past the
    // queued writer; the writer stays parked.
    let woken = s.release_write(&mut i);
    assert_eq!(woken, vec![1, 3]);
    assert!(r1.poll(&mut s, &mut i, 1));
    assert!(r3.poll(&mut s, &mut i, 3));
    assert_eq!(s.reader_count(), 2);
    s.release_read(&mut i);
    let woken = s.release_read(&mut i);
    // The last reader out wakes the parked writer.
    assert_eq!(woken, vec![2]);
    assert!(w2.poll(&mut s, &mut i, 2));
    assert_eq!(s.get_permit(), 1);
}

#[test]
fn rwd_semaphore_tier_exclusion() {
    let mut s = RwdSemaphore::<MockNest>::new();
    let mut i = irq();
    assert!(s.try_acquire_disk(&mut i).is_ok());
    assert_eq!(s.disk_count(), 1);
    // Disk excludes everyone else.
    assert_eq!(s.try_acquire_read(&mut i), Err(DISK));
    assert_eq!(s.try_acquire_write(&mut i), Err(DISK));
    assert_eq!(s.try_acquire_disk(&mut i), Err(DISK));
    s.release_disk(&mut i);
    assert!(s.try_acquire_write(&mut i).is_ok());
    assert_eq!(s.writer_count(), 1);
    // A writer excludes everyone else.
    assert_eq!(s.try_acquire_read(&mut i), Err(WRITER));
    assert_eq!(s.try_acquire_disk(&mut i), Err(WRITER));
    s.release_write(&mut i);
    assert_eq!(s.get_permit(), 0);
}

#[test]
fn rwd_permit_returns_to_all_clear() {
    // Any sequence of acquire-then-release pairs leaves no bit behind.
    let mut s = RwdSemaphore::<MockNest>::new();
    let mut i = irq();
    assert!(s.try_acquire_read(&mut i).is_ok());
    s.release_read(&mut i);
    assert_eq!(s.get_permit(), 0);
    assert!(s.try_acquire_write(&mut i).is_ok());
    s.release_write(&mut i);
    assert_eq!(s.get_permit(), 0);
    assert!(s.try_acquire_disk(&mut i).is_ok());
    s.release_disk(&mut i);
    assert_eq!(s.get_permit(), 0);
    // Nested reads drain back to all-clear too.
    assert!(s.try_acquire_read(&mut i).is_ok());
    assert!(s.try_acquire_read(&mut i).is_ok());
    assert!(s.try_acquire_read(&mut i).is_ok());
    s.release_read(&mut i);
    s.release_read(&mut i);
    s.release_read(&mut i);
    assert_eq!(s.get_permit(), 0);
}

#[test]
fn rwd_reader_count_tracks_outstanding_reads() {
    let mut s = RwdSemaphore::<MockNest>::new();
    let mut i = irq();
    assert_eq!(s.reader_count(), 0);
    for k in 1..=5usize {
        assert!(s.try_acquire_read(&mut i).is_ok());
        assert_eq!(s.reader_count(), k);
    }
    for k in (0..5usize).rev() {
        s.release_read(&mut i);
        assert_eq!(s.reader_count(), k);
    }
}

#[test]
fn rwd_downgrade_write_to_read_keeps_word_occupied() {
    let mut s = RwdSemaphore::<MockNest>::new();
    let mut i = irq();
    assert!(s.try_acquire_write(&mut i).is_ok());
    // Write -> read without passing through all-clear.
    let woken = s.try_downgrade_read(WRITER).unwrap();
    assert!(woken.is_empty());
    assert_eq!(s.get_permit(), READER);
    // A second, fresh reader joins at once.
    assert!(s.try_acquire_read(&mut i).is_ok());
    assert_eq!(s.reader_count(), 2);
    s.release_read(&mut i);
    s.release_read(&mut i);
    assert_eq!(s.get_permit(), 0);
}

#[test]
fn rwd_downgrade_ladder_disk_write_read() {
    let mut s = RwdSemaphore::<MockNest>::new();
    let mut i = irq();
    assert!(s.try_acquire_disk(&mut i).is_ok());
    assert!(s.try_downgrade_write(DISK).is_ok());
    assert_eq!(s.get_permit(), WRITER);
    assert!(s.try_upgrade_disk(WRITER).is_ok());
    assert_eq!(s.get_permit(), DISK);
    let woken = s.try_downgrade_read(DISK).unwrap();
    assert!(woken.is_empty());
    assert_eq!(s.get_permit(), READER);
    s.release_read(&mut i);
    assert_eq!(s.get_permit(), 0);
}

#[test]
fn rwd_downgrade_fails_with_conflicting_word() {
    let mut s = RwdSemaphore::<MockNest>::new();
    let mut i = irq();
    assert!(s.try_acquire_read(&mut i).is_ok());
    // The permit shows one reader, not the writer bit.
    assert_eq!(s.try_downgrade_read(WRITER).unwrap_err(), READER);
    assert_eq!(s.try_downgrade_write(DISK).unwrap_err(), READER);
    assert_eq!(s.try_upgrade_disk(WRITER).unwrap_err(), READER);
    s.release_read(&mut i);
}

#[test]
fn rwd_read_upgrade_needs_sole_reader() {
    let mut s = RwdSemaphore::<MockNest>::new();
    let mut i = irq();
    assert!(s.try_acquire_read(&mut i).is_ok());
    assert!(s.try_acquire_read(&mut i).is_ok());
    // A second reader is outstanding: the upgrade fails with the observed
    // word and the caller keeps its read permit.
    assert_eq!(s.read_upgrade_write(READER).unwrap_err(), 2 * READER);
    assert_eq!(s.reader_count(), 2);
    s.release_read(&mut i);
    // Sole reader now: the upgrade succeeds.
    assert!(s.read_upgrade_write(READER).is_ok());
    assert_eq!(s.get_permit(), WRITER);
    s.release_write(&mut i);
    // Same for the disk upgrade.
    assert!(s.try_acquire_read(&mut i).is_ok());
    assert!(s.read_upgrade_disk(READER).is_ok());
    assert_eq!(s.get_permit(), DISK);
    s.release_disk(&mut i);
    assert_eq!(s.get_permit(), 0);
}

#[test]
fn rwd_downgrade_wakes_parked_readers() {
    let mut s = RwdSemaphore::<MockNest>::new();
    let mut i = irq();
    assert!(s.try_acquire_disk(&mut i).is_ok());
    // A read acquisition fails and parks; a writer parks behind it.
    let mut r1 = s.acquire_read();
    let mut w2 = s.acquire_write();
    assert!(!r1.poll(&mut s, &mut i, 11));
    assert!(!w2.poll(&mut s, &mut i, 12));
    // Disk -> read opens the reader path: the parked reader is woken without
    // any release; the writer stays parked.
    let woken = s.try_downgrade_read(DISK).unwrap();
    assert_eq!(woken, vec![11]);
    assert!(r1.poll(&mut s, &mut i, 11));
    assert_eq!(s.reader_count(), 2);
    s.release_read(&mut i);
    let woken = s.release_read(&mut i);
    assert_eq!(woken, vec![12]);
    assert!(w2.poll(&mut s, &mut i, 12));
    assert_eq!(s.get_permit(), WRITER);
}

#[test]
fn rwd_poll_parks_once_and_carries_conflict_word() {
    let mut s = RwdSemaphore::<MockNest>::new();
    let mut i = irq();
    assert!(s.try_acquire_write(&mut i).is_ok());
    let mut d = s.acquire_disk();
    assert!(!d.poll(&mut s, &mut i, 21));
    assert!(!d.poll(&mut s, &mut i, 21));
    assert!(!d.poll(&mut s, &mut i, 21));
    // One parked waiter only, despite three polls.
    let woken = s.release_write(&mut i);
    assert_eq!(woken, vec![21]);
    assert!(d.poll(&mut s, &mut i, 21));
    assert_eq!(s.get_permit(), DISK);
}
