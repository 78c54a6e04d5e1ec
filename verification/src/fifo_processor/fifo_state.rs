//! What the device and the thread that drains the FIFO share.

use crate::fifo_processor::cmd::fetch_fifo_cmd;
use crate::fifo_processor::cmd::fetched;
use crate::fifo_processor::cmd::FifoCommand;
use crate::fifo_processor::fifo_reader::FifoError;
use crate::fifo_processor::fifo_reader::FifoReader;
use crate::fifo_processor::fifo_reader::FifoView;
use crate::fifo_processor::fifo_reader::SVGA_FIFO_NEXT_CMD;
use crate::fifo_processor::fifo_reader::SVGA_FIFO_STOP;
use crate::mailbox::Mailbox;
use crate::mailbox::MailboxItem;
use crate::mailbox::MailboxReader;
use crate::mailbox::MailboxWriter;
use crate::shared_mem::WordMemory;
use std::sync::atomic::AtomicBool;
use std::sync::atomic::Ordering;
use vstd::prelude::*;

verus! {

/// Number of words at the start of the FIFO region that belong to the guest
/// alone. The header that the host reads starts after them.
pub const MAGIC_OFFSET: usize = 2;

/// Number of bytes that a FIFO region must exceed.
pub const FIFO_MIN_BYTES: usize = 32;

/// Byte `k` of `word`, counted from the least significant.
pub open spec fn word_byte(word: u32, k: int) -> u8 {
    if k == 0 {
        (word % 0x100) as u8
    } else if k == 1 {
        (word / 0x100 % 0x100) as u8
    } else if k == 2 {
        (word / 0x1_0000 % 0x100) as u8
    } else {
        (word / 0x100_0000 % 0x100) as u8
    }
}

/// The bytes of `words` as a machine keeps them that puts the least
/// significant byte of a word first.
pub open spec fn le_bytes(words: Seq<u32>) -> Seq<u8> {
    Seq::new(4 * words.len(), |i: int| word_byte(words[i / 4], i % 4))
}

/// The bytes of `words` as a machine keeps them that puts the most significant
/// byte of a word first.
pub open spec fn be_bytes(words: Seq<u32>) -> Seq<u8> {
    Seq::new(4 * words.len(), |i: int| word_byte(words[i / 4], 3 - i % 4))
}

/// `bytes` are the bytes of `words` in memory, in one of the two byte orders
/// that a machine can have.
pub open spec fn in_memory(words: Seq<u32>, bytes: Seq<u8>) -> bool {
    bytes == le_bytes(words) || bytes == be_bytes(words)
}

/// `bytemuck::cast_slice` from words to bytes: the same memory, read as four
/// bytes for every word, in the byte order of the machine, which is one of the
/// two.
#[verifier::external_body]
fn frame_bytes(frame: &[u32]) -> (bytes: &[u8])
    ensures
        bytes@.len() == 4 * frame@.len(),
        in_memory(frame@, bytes@),
{
    bytemuck::cast_slice(frame)
}

/// Reads `flag`, ordered before every later access.
fn load_flag_acquire(flag: &AtomicBool) -> bool {
    flag.load(Ordering::Acquire)
}

/// Reads `flag` with no ordering.
fn load_flag_relaxed(flag: &AtomicBool) -> bool {
    flag.load(Ordering::Relaxed)
}

/// Writes `flag` with no ordering.
fn store_flag_relaxed(flag: &AtomicBool, val: bool) {
    flag.store(val, Ordering::Relaxed)
}

/// Writes `flag` in one order with every other such access.
fn store_flag_seq_cst(flag: &AtomicBool, val: bool) {
    flag.store(val, Ordering::SeqCst)
}

/// State shared between the device and the thread that drains the FIFO, over
/// memory `M`.
pub struct FifoState<M: WordMemory> {
    /// The FIFO, from its header on.
    pub fifo: M,
    /// The framebuffer, one word for every pixel.
    pub fb: M,
    /// Whether the thread should run. The device sets it; the thread reads it.
    pub enabled: AtomicBool,
    /// What the guest reads as `BUSY`: set on `SYNC`, cleared when the thread
    /// goes to sleep.
    pub busy: AtomicBool,
    output: Mailbox,
}

/// What the thread that drains the FIFO does next.
pub enum WorkerStep<'fifo, M: WordMemory> {
    /// Carry out `cmd`, then commit `view`, which has peeked at the command.
    Process { view: FifoView<'fifo, M>, cmd: FifoCommand },
    /// No whole command waits. The device is idle now: sleep until woken.
    Suspend,
}

/// What the thread finds to do in a ring within the bounds of `fifo`, in a
/// memory that holds `words`.
pub open spec fn found<M: WordMemory>(fifo: FifoReader<M>, words: Seq<u32>) -> Result<
    Option<FifoCommand>,
    FifoError,
> {
    let bounds = fifo.bounds();
    let stop = words[SVGA_FIFO_STOP as int];
    let next_cmd = words[SVGA_FIFO_NEXT_CMD as int];
    if bounds.holds(stop) && bounds.holds(next_cmd) {
        fetched(bounds, words, stop as int / 4, bounds.pending(stop, next_cmd))
    } else {
        Err(FifoError::InvalidCursor)
    }
}

/// Whether `frame` holds a frame of exactly `len` bytes.
pub open spec fn frame_fits(frame: MailboxItem, len: int) -> bool {
    frame matches Some(data) && data@.len() * 4 == len
}

/// What reading `frame` into a buffer comes to: `copied` says whether `frame`
/// holds a frame of exactly the length of the buffer. If it does, the buffer,
/// which held `before`, holds the bytes of the frame `after` it. If not, it
/// holds what it held.
pub open spec fn frame_read(frame: MailboxItem, before: Seq<u8>, after: Seq<u8>, copied: bool) -> bool {
    &&& copied == frame_fits(frame, before.len() as int)
    &&& copied ==> in_memory(frame->Some_0@, after)
    &&& !copied ==> after == before
}

/// Copies `bytes` to `out` if both have the same length, and returns whether
/// it did.
pub fn copy_bytes(bytes: &[u8], out: &mut [u8]) -> (copied: bool)
    ensures
        copied == (bytes@.len() == old(out)@.len()),
        copied ==> final(out)@ == bytes@,
        !copied ==> final(out)@ == old(out)@,
{
    let len: usize = out.len();
    if bytes.len() != len {
        return false;
    }
    let mut i: usize = 0;
    while i < len
        invariant
            i <= len,
            len == out@.len(),
            len == bytes@.len(),
            forall|j: int| 0 <= j < i ==> out@[j] == bytes@[j],
        decreases len - i,
    {
        out[i] = bytes[i];
        i = i + 1;
    }
    assert(out@ =~= bytes@);
    true
}

/// Copies the bytes of `frame` to `out` if it holds a frame of exactly as many
/// bytes as `out` has room for, and returns whether it did. The bytes of a
/// pixel come in the order in which the machine keeps them.
pub fn copy_frame(frame: &MailboxItem, out: &mut [u8]) -> (copied: bool)
    ensures
        frame_read(*frame, old(out)@, final(out)@, copied),
        final(out)@.len() == old(out)@.len(),
{
    match frame {
        Some(data) => copy_bytes(frame_bytes(data.as_slice()), out),
        None => false,
    }
}

/// Makes `slot` hold a frame of `pixels` pixels. A frame of that size stays as
/// it is. Anything else gives way to a frame of zeros.
pub fn size_frame(slot: &mut MailboxItem, pixels: usize)
    ensures
        *final(slot) matches Some(frame) && frame@.len() == pixels,
        (*old(slot) matches Some(frame) && frame@.len() == pixels) ==> *final(slot) == *old(slot),
        !(*old(slot) matches Some(frame) && frame@.len() == pixels) ==> (*final(slot) matches Some(
            frame,
        ) && frame@ == Seq::new(pixels as nat, |i: int| 0u32)),
{
    let keep: bool = match slot {
        Some(frame) => frame.len() == pixels,
        None => false,
    };
    if !keep {
        let frame: Vec<u32> = vec![0u32; pixels];
        assert(frame@ =~= Seq::new(pixels as nat, |i: int| 0u32));
        *slot = Some(frame);
    }
}

impl<M: WordMemory> FifoState<M> {
    /// The FIFO memory, from its header on.
    pub closed spec fn fifo_mem(&self) -> M {
        self.fifo
    }

    /// The framebuffer memory.
    pub closed spec fn fb_mem(&self) -> M {
        self.fb
    }

    /// State over the FIFO region `fifo` and the framebuffer `fb`, not enabled
    /// and not busy. The first [`MAGIC_OFFSET`] words of the region are left to
    /// the guest: the FIFO of the state starts behind them.
    pub fn new(fifo: M, fb: M) -> (state: Self)
        requires
            MAGIC_OFFSET <= fifo.word_len(),
        ensures
            state.fb_mem() == fb,
            state.fifo_mem().word_len() == fifo.word_len() - MAGIC_OFFSET,
            state.fifo_mem().lends() == fifo.lends(),
            match fifo.contents() {
                Some(s) => state.fifo_mem().contents() == Some(
                    s.subrange(MAGIC_OFFSET as int, s.len() as int),
                ),
                None => state.fifo_mem().contents() is None,
            },
    {
        FifoState {
            fifo: fifo.skip(MAGIC_OFFSET),
            fb,
            enabled: AtomicBool::new(false),
            busy: AtomicBool::new(false),
            output: Mailbox::new(),
        }
    }

    /// Writes zero to every word of the FIFO region `fifo`, the words of the
    /// guest included.
    pub fn init_fifo(fifo: &mut M)
        requires
            old(fifo).word_len() * 4 > FIFO_MIN_BYTES,
        ensures
            final(fifo).word_len() == old(fifo).word_len(),
            final(fifo).lends() == old(fifo).lends(),
            old(fifo).contents() is Some == final(fifo).contents() is Some,
            final(fifo).contents() matches Some(s) ==> s == Seq::new(
                old(fifo).word_len(),
                |i: int| 0u32,
            ),
    {
        let len: usize = fifo.len();
        let mut i: usize = 0;
        while i < len
            invariant
                i <= len,
                len == fifo.word_len(),
                fifo.word_len() == old(fifo).word_len(),
                fifo.lends() == old(fifo).lends(),
                old(fifo).contents() is Some == fifo.contents() is Some,
                fifo.contents() matches Some(s) ==> forall|j: int| 0 <= j < i ==> s[j] == 0,
            decreases len - i,
        {
            proof {
                fifo.contents_cover();
            }
            fifo.write_volatile(i, 0);
            i = i + 1;
        }
        proof {
            fifo.contents_cover();
            if fifo.contents() is Some {
                assert(fifo.contents().unwrap() =~= Seq::new(old(fifo).word_len(), |i: int| 0u32));
            }
        }
    }

    /// Copies the latest frame to `out` and returns whether it did: it does if
    /// a frame has been published and has exactly as many bytes as `out`.
    ///
    /// Which frame the mailbox holds is for the writer to say. Whatever it
    /// holds, `out` is read from it as [`frame_read`] says.
    pub fn read_output(&self, out: &mut [u8]) -> (copied: bool)
        ensures
            exists|frame: MailboxItem| #[trigger] frame_read(frame, old(out)@, final(out)@, copied),
            final(out)@.len() == old(out)@.len(),
            !copied ==> final(out)@ == old(out)@,
    {
        let img: MailboxReader<'_> = self.output.borrow_read();
        let copied: bool = copy_frame(img.get(), out);
        assert(frame_read(img.item(), old(out)@, out@, copied));
        copied
    }

    /// Takes a slot of the mailbox and sizes it for a frame of `width` by
    /// `height` pixels, for the caller to render to. Dropping the writer
    /// publishes the frame.
    ///
    /// Returns `None` for an empty frame, and when no slot came free within
    /// `patience` seconds.
    pub fn render_output(&self, width: u32, height: u32, patience: u64) -> (r: Option<
        MailboxWriter<'_>,
    >)
        requires
            width * height <= usize::MAX,
        ensures
            width * height == 0 ==> r is None,
            r matches Some(img) ==> img.item() matches Some(frame) && frame@.len() == width
                * height,
    {
        assert(width * height <= usize::MAX);
        let output_pixels: usize = (width as usize) * (height as usize);
        if output_pixels == 0 {
            return None;
        }
        match self.output.borrow_write(patience) {
            Some(mut img) => {
                size_frame(img.get_mut(), output_pixels);
                Some(img)
            },
            None => None,
        }
    }

    /// One round of the thread: looks at what waits in the ring and fetches one
    /// command.
    ///
    /// With a command fetched, the view that has peeked at it comes back with
    /// it, to be committed once the command is carried out. With none, the
    /// device is marked idle and nothing has left the ring. Fails, with the ring
    /// as it was, on a cursor that is not that of a word in the command area,
    /// on a word to be read that lies beyond the memory, and on a word that is no
    /// opcode.
    pub fn run_step<'fifo, R: WordMemory>(&self, fifo: &'fifo mut FifoReader<R>) -> (r: Result<
        WorkerStep<'fifo, R>,
        FifoError,
    >)
        requires
            old(fifo).wf(),
        ensures
            match r {
                Ok(WorkerStep::Process { view, cmd }) => {
                    &&& view.wf()
                    &&& *view.parent == *old(fifo)
                    &&& *final(fifo) == *final(view.parent)
                    &&& view.peeked_amount == cmd.words()
                    &&& old(fifo).mem().contents() matches Some(s) ==> found(*old(fifo), s) == Ok::<
                        Option<FifoCommand>,
                        FifoError,
                    >(Some(cmd))
                },
                Ok(WorkerStep::Suspend) => {
                    &&& *final(fifo) == *old(fifo)
                    &&& old(fifo).mem().contents() matches Some(s) ==> found(*old(fifo), s) == Ok::<
                        Option<FifoCommand>,
                        FifoError,
                    >(None)
                },
                Err(e) => {
                    &&& *final(fifo) == *old(fifo)
                    &&& e == FifoError::InvalidCursor || e is UnknownOpcode || e
                        == FifoError::BoundsOutsideMemory
                    &&& old(fifo).mem().contents() matches Some(s) ==> found(*old(fifo), s) == Err::<
                        Option<FifoCommand>,
                        FifoError,
                    >(e)
                },
            },
    {
        let mut view = match fifo.view() {
            Ok(view) => view,
            Err(e) => {
                return Err(e);
            },
        };
        match fetch_fifo_cmd(&mut view) {
            Ok(Some(cmd)) => Ok(WorkerStep::Process { view, cmd }),
            Ok(None) => {
                self.suspend();
                Ok(WorkerStep::Suspend)
            },
            Err(e) => Err(e),
        }
    }

    /// Whether the thread should go on, read so that it sees what the device
    /// wrote before it enabled the thread.
    pub fn is_enabled(&self) -> bool {
        load_flag_acquire(&self.enabled)
    }

    /// Tells the thread to run or to stop.
    pub fn set_enabled(&self, enabled: bool) {
        store_flag_seq_cst(&self.enabled, enabled)
    }

    /// Whether a `SYNC` has not been caught up with.
    pub fn is_busy(&self) -> bool {
        load_flag_relaxed(&self.busy)
    }

    /// Marks the device busy or idle.
    pub fn set_busy(&self, busy: bool) {
        store_flag_relaxed(&self.busy, busy)
    }

    /// What the thread does before it goes to sleep: the device is no longer
    /// busy.
    pub fn suspend(&self) {
        store_flag_relaxed(&self.busy, false)
    }

    /// What the thread asks when it wakes: whether it has to end.
    pub fn must_terminate(&self) -> bool {
        !load_flag_relaxed(&self.enabled)
    }
}

} // verus!
