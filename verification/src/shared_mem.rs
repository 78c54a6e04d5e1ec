//! Word-addressed memory that holds the FIFO and the framebuffer.
//!
//! The device reads its commands from memory that the guest writes while the
//! host runs. Nothing can be said of what a read of such memory returns, so
//! [`SharedMem`] promises nothing of it. [`LocalMem`] is memory that only its
//! holder writes: there every read is determined, and the contracts of the FIFO
//! reader say exactly what comes out.

use crate::ref_or_box::RefOrBox;
use std::sync::atomic::AtomicU32;
use std::sync::atomic::Ordering;
use vstd::prelude::*;
use vstd::slice::slice_subrange;

verus! {

/// Memory made of 32-bit words, read and written one word at a time.
pub trait WordMemory: Sized {
    /// Number of words.
    spec fn word_len(&self) -> nat;

    /// The words, where only the holder of the memory writes them; `None` where
    /// a peer may write them at any moment.
    spec fn contents(&self) -> Option<Seq<u32>>;

    /// Whether the memory can lend its words: `slice_to` then borrows them, and
    /// copies them otherwise.
    spec fn lends(&self) -> bool;

    /// Known contents cover the whole memory.
    proof fn contents_cover(&self)
        ensures
            self.contents() matches Some(s) ==> s.len() == self.word_len(),
    ;

    /// Number of words.
    fn len(&self) -> (n: usize)
        ensures
            n == self.word_len(),
    ;

    /// Reads word `idx`, ordered before every later access (acquire).
    fn load(&self, idx: usize) -> (w: u32)
        requires
            idx < self.word_len(),
        ensures
            self.contents() matches Some(s) ==> w == s[idx as int],
    ;

    /// Replaces word `idx` by `new` if it holds `current`, ordered after every
    /// earlier access (release). `Ok` carries the word that was replaced, which
    /// is `current`; `Err` carries the word that was found instead.
    fn compare_exchange_weak(&mut self, idx: usize, current: u32, new: u32) -> (r: Result<
        u32,
        u32,
    >)
        requires
            idx < old(self).word_len(),
        ensures
            final(self).word_len() == old(self).word_len(),
            final(self).lends() == old(self).lends(),
            r matches Ok(replaced) ==> replaced == current,
            match old(self).contents() {
                Some(s) => if s[idx as int] == current {
                    r == Ok::<u32, u32>(current) && final(self).contents() == Some(
                        s.update(idx as int, new),
                    )
                } else {
                    r == Err::<u32, u32>(s[idx as int]) && final(self).contents() == Some(s)
                },
                None => final(self).contents() is None,
            },
    ;

    /// Reads word `offset` with no ordering.
    fn read_volatile(&self, offset: usize) -> (w: u32)
        requires
            offset < self.word_len(),
        ensures
            self.contents() matches Some(s) ==> w == s[offset as int],
    ;

    /// Writes word `offset` with no ordering.
    fn write_volatile(&mut self, offset: usize, val: u32)
        requires
            offset < old(self).word_len(),
        ensures
            final(self).word_len() == old(self).word_len(),
            final(self).lends() == old(self).lends(),
            match old(self).contents() {
                Some(s) => final(self).contents() == Some(s.update(offset as int, val)),
                None => final(self).contents() is None,
            },
    ;

    /// The memory without its first `offset` words.
    fn skip(self, offset: usize) -> (rest: Self)
        requires
            offset <= self.word_len(),
        ensures
            rest.word_len() == self.word_len() - offset,
            rest.lends() == self.lends(),
            match self.contents() {
                Some(s) => rest.contents() == Some(s.subrange(offset as int, s.len() as int)),
                None => rest.contents() is None,
            },
    ;

    /// The words from `begin` up to `end`: borrowed where the memory can lend
    /// them, copied one by one where it cannot.
    fn slice_to(&self, begin: usize, end: usize) -> (r: RefOrBox<'_, [u32]>)
        requires
            begin <= end <= self.word_len(),
        ensures
            r is Refed == self.lends(),
            r.words().len() == end - begin,
            self.contents() matches Some(s) ==> r.words() == s.subrange(begin as int, end as int),
    ;
}

/// Memory shared with the guest, which may write any word at any moment.
#[derive(Clone, Copy)]
pub struct SharedMem<'a> {
    words: &'a [AtomicU32],
}

/// Reads `word`, ordered before every later access.
fn load_acquire(word: &AtomicU32) -> u32 {
    word.load(Ordering::Acquire)
}

/// Reads `word` with no ordering.
fn load_relaxed(word: &AtomicU32) -> u32 {
    word.load(Ordering::Relaxed)
}

/// Writes `word` with no ordering.
fn store_relaxed(word: &AtomicU32, val: u32) {
    word.store(val, Ordering::Relaxed)
}

/// Replaces `current` by `new` in `word`, ordered after every earlier access
/// where it succeeds. `Ok` carries the word that was replaced, which is
/// `current`; `Err` carries the word that was found. It may fail although
/// `word` holds `current`.
fn exchange_release(word: &AtomicU32, current: u32, new: u32) -> (r: Result<u32, u32>)
    ensures
        r matches Ok(replaced) ==> replaced == current,
{
    match word.compare_exchange_weak(current, new, Ordering::Release, Ordering::Acquire) {
        Ok(_) => Ok(current),
        Err(found) => Err(found),
    }
}

impl<'a> SharedMem<'a> {
    /// The words behind this view.
    pub closed spec fn cells(&self) -> Seq<AtomicU32> {
        self.words@
    }

    /// A view of `words`. Copies of the view see the same memory.
    pub fn new(words: &'a [AtomicU32]) -> (mem: Self)
        ensures
            mem.cells() == words@,
            mem.word_len() == words@.len(),
    {
        SharedMem { words }
    }

    /// The word at `offset`, for atomic access.
    pub fn at(&self, offset: usize) -> (word: &'a AtomicU32)
        requires
            offset < self.cells().len(),
        ensures
            *word == self.cells()[offset as int],
    {
        &self.words[offset]
    }

    /// Reads word `offset` with no ordering.
    pub fn read_volatile(&self, offset: usize) -> u32
        requires
            offset < self.cells().len(),
    {
        load_relaxed(&self.words[offset])
    }

    /// Writes word `offset` with no ordering.
    pub fn write_volatile(&self, offset: usize, val: u32)
        requires
            offset < self.cells().len(),
    {
        store_relaxed(&self.words[offset], val)
    }

    /// A copy of the words from `begin` up to `end`, each read with no
    /// ordering.
    pub fn slice_to(&self, begin: usize, end: usize) -> (r: RefOrBox<'static, [u32]>)
        requires
            begin <= end <= self.cells().len(),
        ensures
            r is Boxed,
            r.words().len() == end - begin,
    {
        let mut copy: Vec<u32> = Vec::new();
        let mut i: usize = begin;
        while i < end
            invariant
                begin <= i <= end <= self.words@.len(),
                copy@.len() == i - begin,
            decreases end - i,
        {
            copy.push(load_relaxed(&self.words[i]));
            i = i + 1;
        }
        RefOrBox::from_words(copy)
    }
}

impl<'a> WordMemory for SharedMem<'a> {
    closed spec fn word_len(&self) -> nat {
        self.words@.len()
    }

    open spec fn contents(&self) -> Option<Seq<u32>> {
        None
    }

    open spec fn lends(&self) -> bool {
        false
    }

    proof fn contents_cover(&self) {
    }

    fn len(&self) -> (n: usize) {
        self.words.len()
    }

    fn load(&self, idx: usize) -> (w: u32) {
        load_acquire(&self.words[idx])
    }

    fn compare_exchange_weak(&mut self, idx: usize, current: u32, new: u32) -> (r: Result<
        u32,
        u32,
    >) {
        exchange_release(&self.words[idx], current, new)
    }

    fn read_volatile(&self, offset: usize) -> (w: u32) {
        SharedMem::read_volatile(self, offset)
    }

    fn write_volatile(&mut self, offset: usize, val: u32) {
        SharedMem::write_volatile(self, offset, val)
    }

    fn skip(self, offset: usize) -> (rest: Self) {
        SharedMem { words: slice_subrange(self.words, offset, self.words.len()) }
    }

    fn slice_to(&self, begin: usize, end: usize) -> (r: RefOrBox<'_, [u32]>) {
        SharedMem::slice_to(self, begin, end)
    }
}

/// Memory that only its holder writes.
pub struct LocalMem {
    words: Vec<u32>,
}

impl LocalMem {
    /// Memory that holds `words`.
    pub fn new(words: Vec<u32>) -> (mem: Self)
        ensures
            mem.contents() == Some(words@),
            mem.word_len() == words@.len(),
    {
        LocalMem { words }
    }
}

impl WordMemory for LocalMem {
    closed spec fn word_len(&self) -> nat {
        self.words@.len()
    }

    closed spec fn contents(&self) -> Option<Seq<u32>> {
        Some(self.words@)
    }

    open spec fn lends(&self) -> bool {
        true
    }

    proof fn contents_cover(&self) {
    }

    fn len(&self) -> (n: usize) {
        self.words.len()
    }

    fn load(&self, idx: usize) -> (w: u32) {
        self.words[idx]
    }

    fn compare_exchange_weak(&mut self, idx: usize, current: u32, new: u32) -> (r: Result<
        u32,
        u32,
    >) {
        let found = self.words[idx];
        if found == current {
            self.words.set(idx, new);
            Ok(current)
        } else {
            Err(found)
        }
    }

    fn read_volatile(&self, offset: usize) -> (w: u32) {
        self.words[offset]
    }

    fn write_volatile(&mut self, offset: usize, val: u32) {
        self.words.set(offset, val);
    }

    fn skip(self, offset: usize) -> (rest: Self) {
        let mut words: Vec<u32> = Vec::new();
        let mut i: usize = offset;
        while i < self.words.len()
            invariant
                offset <= i <= self.words@.len(),
                words@ == self.words@.subrange(offset as int, i as int),
            decreases self.words@.len() - i,
        {
            words.push(self.words[i]);
            i = i + 1;
            assert(self.words@.subrange(offset as int, i as int) == self.words@.subrange(
                offset as int,
                i - 1,
            ).push(self.words@[i - 1]));
        }
        LocalMem { words }
    }

    fn slice_to(&self, begin: usize, end: usize) -> (r: RefOrBox<'_, [u32]>) {
        RefOrBox::from_ref(slice_subrange(self.words.as_slice(), begin, end))
    }
}

} // verus!
