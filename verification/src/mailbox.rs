//! A mailbox of three slots that hands the newest frame from one writer to the
//! readers.
//!
//! `latest` names the slot that was written last. A reader locks that slot for
//! reading. A writer locks one of the other two for writing and, when it is
//! done, makes its slot the latest. Every slot sits behind a reader-writer lock,
//! so a reader never sees a frame that is still being written.

use parking_lot::RwLock;
use parking_lot::RwLockReadGuard;
use parking_lot::RwLockWriteGuard;
use std::sync::atomic::AtomicUsize;
use std::sync::atomic::Ordering;
use std::time::Duration;
use vstd::prelude::*;

verus! {

/// What a slot holds: a frame of 32-bit pixels, once one has been written.
pub type MailboxItem = Option<Vec<u32>>;

/// Number of slots.
pub const MAILBOX_SLOTS: usize = 3;

/// `lock_api::RwLock`, the lock behind `parking_lot::RwLock`. Nothing of what it
/// guards is visible to the proofs.
#[verifier::external_type_specification]
#[verifier::external_body]
#[verifier::reject_recursive_types(R)]
#[verifier::reject_recursive_types(T)]
pub struct ExRwLock<R, T: ?Sized>(parking_lot::lock_api::RwLock<R, T>);

/// `parking_lot::RawRwLock`, the raw lock of `parking_lot::RwLock`.
#[verifier::external_type_specification]
#[verifier::external_body]
pub struct ExRawRwLock(parking_lot::RawRwLock);

/// Holds a `parking_lot::RwLockReadGuard`: shared access to a slot, given up
/// when this is dropped.
#[verifier::external_body]
pub struct SlotReadGuard<'a> {
    guard: RwLockReadGuard<'a, MailboxItem>,
}

/// Holds a `parking_lot::RwLockWriteGuard`: exclusive access to a slot, given
/// up when this is dropped.
#[verifier::external_body]
pub struct SlotWriteGuard<'a> {
    guard: RwLockWriteGuard<'a, MailboxItem>,
}

/// What the slot holds to which `guard` gives shared access. No writer can
/// hold the slot while the guard lives.
pub uninterp spec fn read_item(guard: SlotReadGuard) -> MailboxItem;

/// What the slot holds to which `guard` gives exclusive access. Nobody else
/// can hold the slot while the guard lives.
pub uninterp spec fn write_item(guard: SlotWriteGuard) -> MailboxItem;

/// `RwLock::new`: an unlocked lock that guards an empty slot.
#[verifier::external_body]
fn new_slot() -> RwLock<MailboxItem> {
    RwLock::new(None)
}

/// `RwLock::read`: waits until no writer holds the lock, then returns shared
/// access. Nothing is known of what the slot holds.
#[verifier::external_body]
fn lock_read<'a>(slot: &'a RwLock<MailboxItem>) -> SlotReadGuard<'a> {
    SlotReadGuard { guard: slot.read() }
}

/// `RwLock::try_write`: exclusive access if nobody holds the lock now, `None`
/// otherwise. It does not wait.
#[verifier::external_body]
fn lock_try_write<'a>(slot: &'a RwLock<MailboxItem>) -> Option<SlotWriteGuard<'a>> {
    match slot.try_write() {
        Some(guard) => Some(SlotWriteGuard { guard }),
        None => None,
    }
}

/// `RwLock::try_write_for`: exclusive access if the lock comes free within
/// `timeout`, `None` otherwise.
#[verifier::external_body]
fn lock_try_write_for<'a>(slot: &'a RwLock<MailboxItem>, timeout: Duration) -> Option<
    SlotWriteGuard<'a>,
> {
    match slot.try_write_for(timeout) {
        Some(guard) => Some(SlotWriteGuard { guard }),
        None => None,
    }
}

/// `Deref::deref` of the read guard: the slot behind it.
#[verifier::external_body]
fn read_guard_item<'g>(guard: &'g SlotReadGuard<'_>) -> (item: &'g MailboxItem)
    ensures
        *item == read_item(*guard),
{
    &*guard.guard
}

/// `Deref::deref` of the write guard: the slot behind it.
#[verifier::external_body]
fn write_guard_item<'g>(guard: &'g SlotWriteGuard<'_>) -> (item: &'g MailboxItem)
    ensures
        *item == write_item(*guard),
{
    &*guard.guard
}

/// `DerefMut::deref_mut` of the write guard: the slot behind it, to write to.
/// What is written through the reference is what the slot holds afterwards.
#[verifier::external_body]
fn write_guard_item_mut<'g>(guard: &'g mut SlotWriteGuard<'_>) -> (item: &'g mut MailboxItem)
    ensures
        *item == write_item(*old(guard)),
        write_item(*final(guard)) == *final(item),
{
    &mut *guard.guard
}

/// `Duration::from_secs` of std: a duration of `secs` whole seconds.
#[verifier::external_body]
fn seconds(secs: u64) -> Duration {
    Duration::from_secs(secs)
}

/// Reads `latest` with no ordering.
fn load_latest(latest: &AtomicUsize) -> usize {
    latest.load(Ordering::Relaxed)
}

/// `AtomicUsize::store` of std, with relaxed ordering, under which it never
/// panics.
#[verifier::external_body]
fn store_latest(latest: &AtomicUsize, index: usize)
    opens_invariants none
    no_unwind
{
    latest.store(index, Ordering::Relaxed)
}

/// The slot `step` slots after `latest`, going round.
pub open spec fn slot_after(latest: int, step: int) -> int {
    (latest + step) % (MAILBOX_SLOTS as int)
}

/// The slot `step` slots after `latest`, going round. One or two slots after
/// the latest is never the latest itself.
pub fn next_slot(latest: usize, step: usize) -> (index: usize)
    requires
        step < MAILBOX_SLOTS,
    ensures
        index == slot_after(latest as int, step as int),
        index < MAILBOX_SLOTS,
        step != 0 ==> index != latest % MAILBOX_SLOTS,
{
    (latest % MAILBOX_SLOTS + step) % MAILBOX_SLOTS
}

/// The three slots and the index of the one written last.
pub struct Mailbox {
    latest: AtomicUsize,
    arr: [RwLock<MailboxItem>; 3],
}

/// Exclusive access to one slot. Dropping the writer makes its slot the latest.
pub struct MailboxWriter<'a> {
    obj: &'a Mailbox,
    index: usize,
    target: SlotWriteGuard<'a>,
}

/// Shared access to the slot that was the latest when the reader was made.
pub struct MailboxReader<'a> {
    target: SlotReadGuard<'a>,
}

impl<'a> MailboxWriter<'a> {
    /// Index of the slot that the writer holds.
    pub closed spec fn slot(&self) -> usize {
        self.index
    }

    /// Index of the slot that the writer holds.
    pub fn index(&self) -> (index: usize)
        ensures
            index == self.slot(),
    {
        self.index
    }

    /// What the slot holds.
    pub closed spec fn item(&self) -> MailboxItem {
        write_item(self.target)
    }

    /// The slot, as the last writer left it.
    pub fn get(&self) -> (item: &MailboxItem)
        ensures
            *item == self.item(),
    {
        write_guard_item(&self.target)
    }

    /// The slot, to write the next frame to.
    pub fn get_mut(&mut self) -> (item: &mut MailboxItem)
        ensures
            *item == old(self).item(),
            final(self).item() == *final(item),
            final(self).slot() == old(self).slot(),
    {
        write_guard_item_mut(&mut self.target)
    }
}

impl Drop for MailboxWriter<'_> {
    fn drop(&mut self)
        opens_invariants none
        no_unwind
    {
        store_latest(&self.obj.latest, self.index);
    }
}

impl<'a> MailboxReader<'a> {
    /// What the slot holds.
    pub closed spec fn item(&self) -> MailboxItem {
        read_item(self.target)
    }

    /// The frame in the slot, if one was ever written.
    pub fn get(&self) -> (item: &MailboxItem)
        ensures
            *item == self.item(),
    {
        read_guard_item(&self.target)
    }
}

impl Mailbox {
    /// A mailbox of empty slots, the first of which counts as the latest.
    pub fn new() -> Self {
        Mailbox { latest: AtomicUsize::new(0), arr: [new_slot(), new_slot(), new_slot()] }
    }

    /// Tries the two slots after `latest`, the nearer first, without waiting.
    /// A writer that comes back holds one of these two, never `latest` itself.
    fn try_others(&self, latest: usize) -> (r: Option<MailboxWriter<'_>>)
        ensures
            r matches Some(writer) ==> {
                &&& writer.slot() == slot_after(latest as int, 1) || writer.slot() == slot_after(
                    latest as int,
                    2,
                )
                &&& writer.slot() != latest % MAILBOX_SLOTS
            },
    {
        let mut step: usize = 1;
        while step < MAILBOX_SLOTS
            invariant
                1 <= step <= MAILBOX_SLOTS,
            decreases MAILBOX_SLOTS - step,
        {
            let idx: usize = next_slot(latest, step);
            match lock_try_write(&self.arr[idx]) {
                Some(target) => {
                    return Some(MailboxWriter { obj: self, index: idx, target });
                },
                None => {},
            }
            step = step + 1;
        }
        None
    }

    /// Waits up to a second for the slot after `latest`. A writer that comes
    /// back holds that slot.
    fn wait_for_next(&self, latest: usize) -> (r: Option<MailboxWriter<'_>>)
        ensures
            r matches Some(writer) ==> {
                &&& writer.slot() == slot_after(latest as int, 1)
                &&& writer.slot() != latest % MAILBOX_SLOTS
            },
    {
        let idx: usize = next_slot(latest, 1);
        match lock_try_write_for(&self.arr[idx], seconds(1)) {
            Some(target) => Some(MailboxWriter { obj: self, index: idx, target }),
            None => None,
        }
    }

    /// Takes a slot to write the next frame to: never the one that is the
    /// latest when the call reads it.
    ///
    /// The two other slots are tried in turn without waiting. If both are held,
    /// the slot after the latest, read anew each time, is waited for, one
    /// second at a time, up to `patience` times; `None` comes back only when
    /// all of them passed.
    pub fn borrow_write(&self, patience: u64) -> (r: Option<MailboxWriter<'_>>)
        ensures
            r matches Some(writer) ==> writer.slot() < MAILBOX_SLOTS,
    {
        match self.try_others(load_latest(&self.latest)) {
            Some(writer) => {
                return Some(writer);
            },
            None => {},
        }
        let mut waits: u64 = patience;
        while waits > 0
            decreases waits,
        {
            match self.wait_for_next(load_latest(&self.latest)) {
                Some(writer) => {
                    return Some(writer);
                },
                None => {},
            }
            waits = waits - 1;
        }
        None
    }

    /// Locks the latest slot for reading, waiting while a writer holds it.
    pub fn borrow_read(&self) -> MailboxReader<'_> {
        let latest: usize = next_slot(load_latest(&self.latest), 0);
        MailboxReader { target: lock_read(&self.arr[latest]) }
    }
}

} // verus!
