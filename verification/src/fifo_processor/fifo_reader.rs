//! Reader of the command ring that the guest fills.
//!
//! The FIFO memory starts with four header words: `MIN` and `MAX`, the byte
//! offsets between which the commands lie; `NEXT_CMD`, where the guest will
//! write next; and `STOP`, up to where the host has read. The ring is empty when
//! `STOP` equals `NEXT_CMD`. A [`FifoView`] peeks at the pending words and moves
//! `STOP` only when it is committed.

use crate::ref_or_box::RefOrBox;
use crate::shared_mem::WordMemory;
use vstd::arithmetic::div_mod::lemma_fundamental_div_mod_converse;
use vstd::arithmetic::div_mod::lemma_small_mod;
use vstd::prelude::*;

verus! {

/// Word index of `MIN` in the header.
pub const SVGA_FIFO_MIN: usize = 0;

/// Word index of `MAX` in the header.
pub const SVGA_FIFO_MAX: usize = 1;

/// Word index of `NEXT_CMD` in the header.
pub const SVGA_FIFO_NEXT_CMD: usize = 2;

/// Word index of `STOP` in the header.
pub const SVGA_FIFO_STOP: usize = 3;

/// Number of header words.
pub const SVGA_FIFO_HEADER_WORDS: usize = 4;

/// How often a commit tries to exchange `STOP` before it gives up.
pub const COMMIT_ATTEMPTS: u32 = 0x10000;

/// What makes the FIFO unusable. Each is a breach of the protocol by the guest,
/// after which the shared memory cannot be trusted.
#[derive(Debug, Clone, Copy, PartialEq, Eq, Structural)]
pub enum FifoError {
    /// `MIN` is not below `MAX`.
    InvertedBounds,
    /// `MIN` or `MAX` is not a multiple of four.
    MisalignedBounds,
    /// The memory is too short for the header, or a command word that is to be
    /// read lies beyond its end.
    BoundsOutsideMemory,
    /// `STOP` or `NEXT_CMD` lies outside `MIN..MAX` or is not a multiple of
    /// four.
    InvalidCursor,
    /// The word at the head of the ring is no known command.
    UnknownOpcode(u32),
    /// `STOP` kept changing under the commit.
    Contended,
}

/// The command area of a FIFO, in bytes and in words.
#[derive(Debug, Clone, Copy, PartialEq, Eq, Structural)]
pub struct FifoBounds {
    /// `MIN`: byte offset of the first command word.
    pub min_byte: u32,
    /// `MAX`: byte offset just past the last command word.
    pub max_byte: u32,
    /// `MAX - MIN`.
    pub fifo_bytes: u32,
    /// `MIN / 4`.
    pub min_idx: u32,
    /// `MAX / 4`.
    pub max_idx: u32,
    /// Number of command words in the ring.
    pub fifo_len: u32,
}

impl FifoBounds {
    /// The bounds that the header words `min` and `max` describe.
    pub open spec fn of(min: u32, max: u32) -> FifoBounds {
        FifoBounds {
            min_byte: min,
            max_byte: max,
            fifo_bytes: (max - min) as u32,
            min_idx: min / 4,
            max_idx: max / 4,
            fifo_len: ((max - min) / 4) as u32,
        }
    }

    /// `MIN` and `MAX` are word-aligned, `MIN` is below `MAX`, and the other
    /// fields are derived from them.
    pub open spec fn valid(self) -> bool {
        &&& self.min_byte < self.max_byte
        &&& self.min_byte % 4 == 0
        &&& self.max_byte % 4 == 0
        &&& self == Self::of(self.min_byte, self.max_byte)
    }

    /// What the header words `min` and `max` are taken for.
    pub open spec fn check(min: u32, max: u32) -> Result<FifoBounds, FifoError> {
        if min >= max {
            Err(FifoError::InvertedBounds)
        } else if min % 4 != 0 || max % 4 != 0 {
            Err(FifoError::MisalignedBounds)
        } else {
            Ok(Self::of(min, max))
        }
    }

    /// The byte offset `cursor` is that of a word in the command area: it lies
    /// between `MIN` and `MAX` and is a multiple of four.
    pub open spec fn holds(self, cursor: u32) -> bool {
        &&& self.min_byte <= cursor < self.max_byte
        &&& cursor % 4 == 0
    }

    /// The word index `pos` lies in the command area.
    pub open spec fn holds_word(self, pos: u32) -> bool {
        self.min_idx <= pos < self.max_idx
    }

    /// Number of whole words between `stop` and `next_cmd`, going round the ring.
    pub open spec fn pending(self, stop: u32, next_cmd: u32) -> int {
        ((next_cmd - stop) % (self.fifo_bytes as int)) / 4
    }

    /// `stop` moved on by `words` words, going round the ring.
    pub open spec fn advanced(self, stop: u32, words: int) -> int {
        (stop + words * 4 - self.min_byte) % (self.fifo_bytes as int) + self.min_byte
    }

    /// Index of the `i`-th word after the word `pos`, going round the ring.
    pub open spec fn word_at(self, pos: int, i: int) -> int {
        (pos - self.min_idx + i) % (self.fifo_len as int) + self.min_idx
    }

    /// The `n` words of `words` that start at word `pos`, going round the ring.
    pub open spec fn span(self, words: Seq<u32>, pos: int, n: int) -> Seq<u32> {
        Seq::new(n as nat, |i: int| words[self.word_at(pos, i)])
    }

    /// The `n` words that start at word `pos`, going round the ring, lie in a
    /// memory of `word_len` words: the one piece that they make does, or, where
    /// they go round the end of the ring, the ring does up to its end.
    pub open spec fn span_within(self, pos: int, n: int, word_len: nat) -> bool {
        if n <= self.max_idx - pos {
            pos + n <= word_len
        } else {
            self.max_idx <= word_len
        }
    }

    /// Takes the header words `min` and `max` for bounds.
    pub fn new(min: u32, max: u32) -> (r: Result<FifoBounds, FifoError>)
        ensures
            r == Self::check(min, max),
            r matches Ok(b) ==> b.valid(),
    {
        if min >= max {
            Err(FifoError::InvertedBounds)
        } else if min % 4 != 0 || max % 4 != 0 {
            Err(FifoError::MisalignedBounds)
        } else {
            Ok(
                FifoBounds {
                    min_byte: min,
                    max_byte: max,
                    fifo_bytes: max - min,
                    min_idx: min / 4,
                    max_idx: max / 4,
                    fifo_len: (max - min) / 4,
                },
            )
        }
    }

    /// Whether the byte offset `cursor` is that of a word in the command area.
    pub fn contains(&self, cursor: u32) -> (b: bool)
        ensures
            b == self.holds(cursor),
    {
        self.min_byte <= cursor && cursor < self.max_byte && cursor % 4 == 0
    }

    /// Number of words that wait between `stop` and `next_cmd`, or
    /// `InvalidCursor` if either lies outside the command area or is not a
    /// multiple of four.
    pub fn available(&self, stop: u32, next_cmd: u32) -> (r: Result<u32, FifoError>)
        requires
            self.valid(),
        ensures
            r == (if self.holds(stop) && self.holds(next_cmd) {
                Ok::<u32, FifoError>(self.pending(stop, next_cmd) as u32)
            } else {
                Err::<u32, FifoError>(FifoError::InvalidCursor)
            }),
            r matches Ok(n) ==> n == self.pending(stop, next_cmd) && n < self.fifo_len,
    {
        if !(self.contains(stop) && self.contains(next_cmd)) {
            return Err(FifoError::InvalidCursor);
        }
        proof {
            self.pending_cases(stop, next_cmd);
        }
        if stop < next_cmd {
            Ok((next_cmd - stop) / 4)
        } else if stop == next_cmd {
            Ok(0)
        } else {
            Ok(((self.max_byte - stop) + (next_cmd - self.min_byte)) / 4)
        }
    }

    /// `stop` moved on by `amount` words, going round the ring.
    pub fn advance(&self, stop: u32, amount: u32) -> (r: u32)
        requires
            self.valid(),
            self.holds(stop),
        ensures
            r == self.advanced(stop, amount as int),
            self.holds(r),
    {
        proof {
            self.word_at_is_advanced(stop, amount as int);
        }
        let offset: u64 = (stop - self.min_byte) as u64 + (amount as u64) * 4;
        let wrapped: u64 = offset % (self.fifo_bytes as u64);
        (wrapped as u32) + self.min_byte
    }

    /// Index of the `amount`-th word after the word `pos`, going round the ring.
    pub fn step(&self, pos: u32, amount: u32) -> (r: u32)
        requires
            self.valid(),
            self.holds_word(pos),
        ensures
            r == self.word_at(pos as int, amount as int),
            self.holds_word(r),
    {
        let offset: u64 = (pos - self.min_idx) as u64 + (amount as u64);
        let wrapped: u64 = offset % (self.fifo_len as u64);
        (wrapped as u32) + self.min_idx
    }

    /// A span that does not reach the end of the ring is one piece of the
    /// memory. One that does is the piece up to the end of the ring followed by
    /// a piece from its start.
    pub proof fn span_in_pieces(self, words: Seq<u32>, pos: int, n: int)
        requires
            self.valid(),
            self.min_idx <= pos < self.max_idx,
            0 <= n <= self.fifo_len,
            self.span_within(pos, n, words.len()),
        ensures
            n <= self.max_idx - pos ==> self.span(words, pos, n) == words.subrange(pos, pos + n),
            n > self.max_idx - pos ==> self.span(words, pos, n) == words.subrange(
                pos,
                self.max_idx as int,
            ) + words.subrange(self.min_idx as int, self.min_idx + n - (self.max_idx - pos)),
            forall|i: int| 0 <= i < n ==> 0 <= #[trigger] self.word_at(pos, i) < words.len(),
    {
        let len: int = self.fifo_len as int;
        let k: int = self.max_idx - pos;
        assert(len == self.max_idx - self.min_idx);
        assert forall|i: int| 0 <= i < n implies #[trigger] self.word_at(pos, i) == (if i < k {
            pos + i
        } else {
            self.min_idx + (i - k)
        }) by {
            let x: int = pos - self.min_idx + i;
            if i < k {
                lemma_small_mod(x as nat, len as nat);
            } else {
                lemma_fundamental_div_mod_converse(x, len, 1, x - len);
            }
        }
        if n <= k {
            assert(self.span(words, pos, n) =~= words.subrange(pos, pos + n));
        } else {
            assert(self.span(words, pos, n) =~= words.subrange(pos, self.max_idx as int)
                + words.subrange(self.min_idx as int, self.min_idx + n - k));
        }
    }

    /// Draining empties the ring: `STOP` moved on by all the words that wait
    /// between it and `NEXT_CMD` is `NEXT_CMD`.
    pub proof fn drain_reaches_next_cmd(self, stop: u32, next_cmd: u32)
        requires
            self.valid(),
            self.holds(stop),
            self.holds(next_cmd),
        ensures
            self.advanced(stop, self.pending(stop, next_cmd)) == next_cmd,
            self.pending(next_cmd, next_cmd) == 0,
    {
        let bytes: int = self.fifo_bytes as int;
        self.pending_cases(stop, next_cmd);
        self.pending_cases(next_cmd, next_cmd);
        let n: int = self.pending(stop, next_cmd);
        if stop <= next_cmd {
            assert(n * 4 == next_cmd - stop);
            lemma_small_mod((next_cmd - self.min_byte) as nat, bytes as nat);
        } else {
            assert(n * 4 == next_cmd - stop + bytes);
            lemma_fundamental_div_mod_converse(
                stop + n * 4 - self.min_byte,
                bytes,
                1,
                next_cmd - self.min_byte,
            );
        }
    }

    /// The `i`-th word after the word at the byte offset `stop` lies at the byte
    /// offset that `stop` reaches when it moves on by `i` words.
    pub proof fn word_at_is_advanced(self, stop: u32, i: int)
        requires
            self.valid(),
            self.holds(stop),
            0 <= i,
        ensures
            4 * self.word_at(stop as int / 4, i) == self.advanced(stop, i),
    {
        let len: int = self.fifo_len as int;
        let bytes: int = self.fifo_bytes as int;
        let x: int = stop as int / 4 - self.min_idx + i;
        assert(bytes == 4 * len);
        assert(stop + i * 4 - self.min_byte == 4 * x);
        vstd::arithmetic::div_mod::lemma_fundamental_div_mod(x, len);
        assert(4 * x == bytes * (x / len) + 4 * (x % len)) by (nonlinear_arith)
            requires
                x == len * (x / len) + x % len,
                bytes == 4 * len,
        ;
        vstd::arithmetic::div_mod::lemma_mod_bound(x, len);
        lemma_fundamental_div_mod_converse(4 * x, bytes, x / len, 4 * (x % len));
    }

    /// `pending` without the remainder: the distance from `stop` to `next_cmd`
    /// where `stop` is not ahead, and the way round the ring where it is.
    pub proof fn pending_cases(self, stop: u32, next_cmd: u32)
        requires
            self.valid(),
            self.holds(stop),
            self.holds(next_cmd),
        ensures
            stop <= next_cmd ==> self.pending(stop, next_cmd) == (next_cmd - stop) / 4,
            stop > next_cmd ==> self.pending(stop, next_cmd) == ((self.max_byte - stop) + (next_cmd
                - self.min_byte)) / 4,
            0 <= self.pending(stop, next_cmd) < self.fifo_len,
    {
        let bytes: int = self.fifo_bytes as int;
        let d: int = next_cmd - stop;
        if stop <= next_cmd {
            lemma_small_mod(d as nat, bytes as nat);
        } else {
            lemma_fundamental_div_mod_converse(d, bytes, -1, d + bytes);
        }
    }
}

/// Reader of the command ring in the FIFO memory `M`.
pub struct FifoReader<M: WordMemory> {
    mem: M,
    bounds: FifoBounds,
}

/// A look at the words that waited in the ring when the view was made. What it
/// has peeked at leaves the ring only when the view is committed.
pub struct FifoView<'fifo, M: WordMemory> {
    /// The reader that made the view.
    pub parent: &'fifo mut FifoReader<M>,
    /// Number of words peeked at so far.
    pub peeked_amount: u32,
    /// Number of words that waited when the view was made.
    pub available: u32,
    /// Index of the word that is peeked at next.
    pub cmd_pos: u32,
}

impl<M: WordMemory> FifoReader<M> {
    /// The FIFO memory.
    pub closed spec fn mem(&self) -> M {
        self.mem
    }

    /// The command area, as the header gave it when the reader was made.
    pub closed spec fn bounds(&self) -> FifoBounds {
        self.bounds
    }

    /// The bounds are valid and the memory holds the header. The command area
    /// may reach beyond the memory: that shows where a word beyond it is to be
    /// read.
    pub open spec fn wf(&self) -> bool {
        &&& self.bounds().valid()
        &&& SVGA_FIFO_HEADER_WORDS <= self.mem().word_len()
    }

    /// What a memory of `word_len` words, with the header words `min` and
    /// `max`, is taken for: the bounds that the two describe, if the memory
    /// holds the header.
    pub open spec fn check_header(min: u32, max: u32, word_len: nat) -> Result<
        FifoBounds,
        FifoError,
    > {
        if word_len < SVGA_FIFO_HEADER_WORDS {
            Err(FifoError::BoundsOutsideMemory)
        } else {
            FifoBounds::check(min, max)
        }
    }

    /// A reader of `mem` whose header gave `min` and `max`.
    pub fn from_header(mem: M, min: u32, max: u32) -> (r: Result<Self, FifoError>)
        ensures
            match Self::check_header(min, max, mem.word_len()) {
                Ok(b) => r matches Ok(reader) && reader.bounds() == b && reader.mem() == mem
                    && reader.wf(),
                Err(e) => r matches Err(err) && err == e,
            },
    {
        if mem.len() < SVGA_FIFO_HEADER_WORDS {
            return Err(FifoError::BoundsOutsideMemory);
        }
        match FifoBounds::new(min, max) {
            Err(e) => Err(e),
            Ok(bounds) => Ok(FifoReader { mem, bounds }),
        }
    }

    /// Reads `MIN` and `MAX` from the header, once, and keeps them.
    ///
    /// Fails on a memory too short for the header, and as [`Self::check_header`]
    /// says on what the header holds.
    pub fn new(mem: M) -> (r: Result<Self, FifoError>)
        ensures
            r matches Ok(reader) ==> reader.wf() && reader.mem() == mem,
            mem.word_len() < SVGA_FIFO_HEADER_WORDS ==> (r matches Err(err) && err
                == FifoError::BoundsOutsideMemory),
            mem.word_len() >= SVGA_FIFO_HEADER_WORDS ==> (r matches Err(err) ==> err
                == FifoError::InvertedBounds || err == FifoError::MisalignedBounds),
            mem.contents() matches Some(s) ==> match Self::check_header(
                s[SVGA_FIFO_MIN as int],
                s[SVGA_FIFO_MAX as int],
                mem.word_len(),
            ) {
                Ok(b) => r matches Ok(reader) && reader.bounds() == b,
                Err(e) => r matches Err(err) && err == e,
            },
    {
        if mem.len() < SVGA_FIFO_HEADER_WORDS {
            return Err(FifoError::BoundsOutsideMemory);
        }
        let min: u32 = mem.load(SVGA_FIFO_MIN);
        let max: u32 = mem.load(SVGA_FIFO_MAX);
        Self::from_header(mem, min, max)
    }

    /// The FIFO memory.
    pub fn memory(&self) -> (mem: &M)
        ensures
            *mem == self.mem(),
    {
        &self.mem
    }

    /// The command area.
    pub fn area(&self) -> (bounds: FifoBounds)
        ensures
            bounds == self.bounds(),
    {
        self.bounds
    }

    /// Reads `STOP`, then `NEXT_CMD`, and returns the number of words that wait
    /// between them together with `STOP`.
    ///
    /// Fails with `InvalidCursor` if either lies outside the command area or is
    /// not a multiple of four.
    pub fn available(&self) -> (r: Result<(u32, u32), FifoError>)
        requires
            self.wf(),
        ensures
            r matches Ok((n, stop)) ==> self.bounds().holds(stop) && n < self.bounds().fifo_len,
            r matches Err(e) ==> e == FifoError::InvalidCursor,
            self.mem().contents() matches Some(s) ==> {
                let stop = s[SVGA_FIFO_STOP as int];
                let next_cmd = s[SVGA_FIFO_NEXT_CMD as int];
                if self.bounds().holds(stop) && self.bounds().holds(next_cmd) {
                    r == Ok::<(u32, u32), FifoError>(
                        (self.bounds().pending(stop, next_cmd) as u32, stop),
                    )
                } else {
                    r == Err::<(u32, u32), FifoError>(FifoError::InvalidCursor)
                }
            },
    {
        let stop: u32 = self.mem.load(SVGA_FIFO_STOP);
        let next_cmd: u32 = self.mem.load(SVGA_FIFO_NEXT_CMD);
        match self.bounds.available(stop, next_cmd) {
            Ok(n) => Ok((n, stop)),
            Err(e) => Err(e),
        }
    }

    /// Opens a view of the words that wait now.
    ///
    /// Fails as [`Self::available`] does. While the view lives the reader is
    /// lent to it; what the view does to the reader shows in the reader once
    /// the view is gone.
    pub fn view(&mut self) -> (r: Result<FifoView<'_, M>, FifoError>)
        requires
            old(self).wf(),
        ensures
            match r {
                Ok(v) => {
                    &&& *v.parent == *old(self)
                    &&& *final(self) == *final(v.parent)
                    &&& v.wf()
                    &&& v.peeked_amount == 0
                    &&& old(self).mem().contents() matches Some(s) ==> {
                        &&& v.available == old(self).bounds().pending(
                            s[SVGA_FIFO_STOP as int],
                            s[SVGA_FIFO_NEXT_CMD as int],
                        )
                        &&& v.cmd_pos == s[SVGA_FIFO_STOP as int] / 4
                    }
                },
                Err(e) => {
                    &&& *final(self) == *old(self)
                    &&& e == FifoError::InvalidCursor
                },
            },
            old(self).mem().contents() matches Some(s) ==> (r is Ok <==> old(self).bounds().holds(
                s[SVGA_FIFO_STOP as int],
            ) && old(self).bounds().holds(s[SVGA_FIFO_NEXT_CMD as int])),
    {
        match self.available() {
            Ok((available, stop)) => Ok(
                FifoView { parent: self, peeked_amount: 0, available, cmd_pos: stop / 4 },
            ),
            Err(e) => Err(e),
        }
    }

    /// Moves `STOP` on by `amount` words, going round the ring, and returns the
    /// new `STOP`.
    ///
    /// `STOP` is read, and exchanged for the new value only if it still holds
    /// what was read; if it does not, the exchange is tried again from what it
    /// holds now, up to [`COMMIT_ATTEMPTS`] times. Fails with `InvalidCursor` if
    /// `STOP` is found outside the command area or not a multiple of four, and
    /// with `Contended` if every attempt failed; neither writes anything.
    fn advance(&mut self, amount: u32) -> (r: Result<u32, FifoError>)
        requires
            old(self).wf(),
        ensures
            final(self).wf(),
            final(self).bounds() == old(self).bounds(),
            final(self).mem().word_len() == old(self).mem().word_len(),
            r matches Ok(p) ==> old(self).bounds().holds(p),
            r matches Err(e) ==> e == FifoError::InvalidCursor || e == FifoError::Contended,
            match old(self).mem().contents() {
                Some(s) => {
                    let stop = s[SVGA_FIFO_STOP as int];
                    if old(self).bounds().holds(stop) {
                        let moved = old(self).bounds().advanced(stop, amount as int) as u32;
                        &&& r == Ok::<u32, FifoError>(moved)
                        &&& final(self).mem().contents() == Some(
                            s.update(SVGA_FIFO_STOP as int, moved),
                        )
                    } else {
                        &&& r == Err::<u32, FifoError>(FifoError::InvalidCursor)
                        &&& final(self).mem().contents() == Some(s)
                    }
                },
                None => final(self).mem().contents() is None,
            },
    {
        let mut old_pos: u32 = self.mem.load(SVGA_FIFO_STOP);
        let mut attempts: u32 = COMMIT_ATTEMPTS;
        while attempts > 0
            invariant
                self.wf(),
                self.bounds() == old(self).bounds(),
                self.mem().word_len() == old(self).mem().word_len(),
                old(self).mem().contents() is Some ==> attempts > 0,
                old(self).mem().contents() is Some == self.mem().contents() is Some,
                old(self).mem().contents() matches Some(s) ==> (self.mem().contents() == Some(s)
                    && old_pos == s[SVGA_FIFO_STOP as int]),
            decreases attempts,
        {
            if !self.bounds.contains(old_pos) {
                return Err(FifoError::InvalidCursor);
            }
            let new_pos: u32 = self.bounds.advance(old_pos, amount);
            match self.mem.compare_exchange_weak(SVGA_FIFO_STOP, old_pos, new_pos) {
                Ok(_) => {
                    return Ok(new_pos);
                },
                Err(found) => {
                    old_pos = found;
                },
            }
            attempts = attempts - 1;
        }
        Err(FifoError::Contended)
    }
}

impl<'fifo, M: WordMemory> FifoView<'fifo, M> {
    /// The reader is well formed, the cursor lies in the command area, and no
    /// more was peeked at than waited.
    pub open spec fn wf(&self) -> bool {
        &&& self.parent.wf()
        &&& self.parent.bounds().holds_word(self.cmd_pos)
        &&& self.peeked_amount <= self.available <= self.parent.bounds().fifo_len
    }

    /// The next `amount` words lie in the memory.
    pub open spec fn within(&self, amount: int) -> bool {
        self.parent.bounds().span_within(
            self.cmd_pos as int,
            amount,
            self.parent.mem().word_len(),
        )
    }

    /// Whether the next `amount` words lie in the memory, so that they can be
    /// read.
    pub fn in_memory(&self, amount: u32) -> (b: bool)
        requires
            self.wf(),
        ensures
            b == self.within(amount as int),
    {
        let len: usize = self.parent.mem.len();
        let dist_to_max: u32 = self.parent.bounds.max_idx - self.cmd_pos;
        if amount <= dist_to_max {
            (self.cmd_pos + amount) as usize <= len
        } else {
            self.parent.bounds.max_idx as usize <= len
        }
    }

    /// Commits the view: what it peeked at leaves the ring. Returns the new
    /// `STOP`.
    ///
    /// `STOP` moves on by the number of words peeked at, from where it stands
    /// when the commit reads it. Fails as the exchange of `STOP` does, see
    /// [`COMMIT_ATTEMPTS`], and then leaves the memory as it was.
    pub fn commit(self) -> (r: Result<u32, FifoError>)
        requires
            self.wf(),
        ensures
            final(self.parent).wf(),
            final(self.parent).bounds() == old(self.parent).bounds(),
            final(self.parent).mem().word_len() == old(self.parent).mem().word_len(),
            r matches Ok(p) ==> old(self.parent).bounds().holds(p),
            r matches Err(e) ==> e == FifoError::InvalidCursor || e == FifoError::Contended,
            match old(self.parent).mem().contents() {
                Some(s) => {
                    let stop = s[SVGA_FIFO_STOP as int];
                    let bounds = old(self.parent).bounds();
                    if bounds.holds(stop) {
                        let moved = bounds.advanced(stop, self.peeked_amount as int) as u32;
                        &&& r == Ok::<u32, FifoError>(moved)
                        &&& final(self.parent).mem().contents() == Some(
                            s.update(SVGA_FIFO_STOP as int, moved),
                        )
                    } else {
                        &&& r == Err::<u32, FifoError>(FifoError::InvalidCursor)
                        &&& final(self.parent).mem().contents() == Some(s)
                    }
                },
                None => final(self.parent).mem().contents() is None,
            },
    {
        self.parent.advance(self.peeked_amount)
    }

    /// Number of words that the view has not peeked at yet.
    pub fn available(&self) -> (n: u32)
        requires
            self.wf(),
        ensures
            n == self.available - self.peeked_amount,
    {
        self.available - self.peeked_amount
    }

    /// Peeks at the next word, or returns `None` when none is left. A word
    /// that is left has to lie in the memory.
    pub fn next(&mut self) -> (r: Option<u32>)
        requires
            old(self).wf(),
            old(self).peeked_amount < old(self).available ==> old(self).within(1),
        ensures
            final(self).wf(),
            *final(self).parent == *old(self).parent,
            *final(final(self).parent) == *final(old(self).parent),
            final(self).available == old(self).available,
            r is Some <==> old(self).peeked_amount < old(self).available,
            r is Some ==> {
                &&& final(self).peeked_amount == old(self).peeked_amount + 1
                &&& final(self).cmd_pos == old(self).parent.bounds().word_at(
                    old(self).cmd_pos as int,
                    1,
                )
                &&& old(self).parent.mem().contents() matches Some(s) ==> r == Some(
                    s[old(self).cmd_pos as int],
                )
            },
            r is None ==> {
                &&& final(self).peeked_amount == old(self).peeked_amount
                &&& final(self).cmd_pos == old(self).cmd_pos
            },
    {
        if self.peeked_amount < self.available {
            let x: u32 = self.parent.mem.read_volatile(self.cmd_pos as usize);
            self.advance(1);
            Some(x)
        } else {
            None
        }
    }

    /// Peeks at the next `amount` words at once, or returns `None` when fewer
    /// are left.
    ///
    /// Where the words lie in one piece the memory lends them if it can, and
    /// the result is borrowed; if it cannot, it copies them. Where they go round
    /// the end of the ring they are copied, piece by piece, into one buffer. A
    /// copy is owned. Words that are left have to lie in the memory.
    pub fn borrow(&mut self, amount: u32) -> (r: Option<RefOrBox<'_, [u32]>>)
        requires
            old(self).wf(),
            old(self).peeked_amount + amount <= old(self).available ==> old(self).within(
                amount as int,
            ),
        ensures
            final(self).wf(),
            *final(self).parent == *old(self).parent,
            *final(final(self).parent) == *final(old(self).parent),
            final(self).available == old(self).available,
            r is Some <==> old(self).peeked_amount + amount <= old(self).available,
            r matches Some(data) ==> {
                &&& data.words().len() == amount
                &&& data is Refed <==> amount <= old(self).parent.bounds().max_idx - old(
                    self,
                ).cmd_pos && old(self).parent.mem().lends()
                &&& final(self).peeked_amount == old(self).peeked_amount + amount
                &&& final(self).cmd_pos == old(self).parent.bounds().word_at(
                    old(self).cmd_pos as int,
                    amount as int,
                )
                &&& old(self).parent.mem().contents() matches Some(s) ==> data.words() == old(
                    self,
                ).parent.bounds().span(s, old(self).cmd_pos as int, amount as int)
            },
            r is None ==> {
                &&& final(self).peeked_amount == old(self).peeked_amount
                &&& final(self).cmd_pos == old(self).cmd_pos
            },
    {
        if self.available - self.peeked_amount < amount {
            return None;
        }
        let pos: u32 = self.cmd_pos;
        let bounds: FifoBounds = self.parent.bounds;
        let dist_to_max: u32 = bounds.max_idx - pos;
        self.advance(amount);
        proof {
            self.parent.mem.contents_cover();
            if self.parent.mem.contents() is Some {
                bounds.span_in_pieces(
                    self.parent.mem.contents().unwrap(),
                    pos as int,
                    amount as int,
                );
            }
        }
        if amount <= dist_to_max {
            Some(self.parent.mem.slice_to(pos as usize, (pos + amount) as usize))
        } else {
            let first_half = self.parent.mem.slice_to(pos as usize, bounds.max_idx as usize);
            let second_half_len: u32 = amount - dist_to_max;
            let second_half = self.parent.mem.slice_to(
                bounds.min_idx as usize,
                (bounds.min_idx + second_half_len) as usize,
            );
            let mut data: Vec<u32> = Vec::new();
            append_words(&mut data, first_half.get());
            append_words(&mut data, second_half.get());
            Some(RefOrBox::from_words(data))
        }
    }

    fn advance(&mut self, amount: u32)
        requires
            old(self).wf(),
            old(self).peeked_amount + amount <= old(self).available,
        ensures
            final(self).wf(),
            *final(self).parent == *old(self).parent,
            *final(final(self).parent) == *final(old(self).parent),
            final(self).available == old(self).available,
            final(self).peeked_amount == old(self).peeked_amount + amount,
            final(self).cmd_pos == old(self).parent.bounds().word_at(
                old(self).cmd_pos as int,
                amount as int,
            ),
    {
        self.peeked_amount = self.peeked_amount + amount;
        self.cmd_pos = self.parent.bounds.step(self.cmd_pos, amount);
    }
}

/// Appends the words of `src` to `dst`.
fn append_words(dst: &mut Vec<u32>, src: &[u32])
    ensures
        final(dst)@ == old(dst)@ + src@,
{
    let mut i: usize = 0;
    while i < src.len()
        invariant
            i <= src@.len(),
            dst@ == old(dst)@ + src@.subrange(0, i as int),
        decreases src@.len() - i,
    {
        dst.push(src[i]);
        i = i + 1;
        assert(src@.subrange(0, i as int) == src@.subrange(0, i - 1).push(src@[i - 1]));
    }
    assert(src@.subrange(0, i as int) == src@);
}

} // verus!
