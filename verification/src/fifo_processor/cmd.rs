//! Commands of the FIFO: an opcode word followed by a fixed number of argument
//! words.

use crate::fifo_processor::fifo_reader::FifoBounds;
use crate::fifo_processor::fifo_reader::FifoError;
use crate::fifo_processor::fifo_reader::FifoView;
use crate::ref_or_box::RefOrBox;
use crate::shared_mem::WordMemory;
use vstd::prelude::*;

verus! {

/// A command that can be taken from the FIFO once its opcode has been read.
pub trait FifoCmdBuildable: Sized {
    /// Number of argument words that follow the opcode.
    spec fn arg_words() -> u32;

    /// The command that the argument words `args` stand for.
    spec fn from_args(args: Seq<u32>) -> Self;

    /// Takes the argument words of the command from `view`, all of them or, if
    /// fewer are left, none. Words that are left have to lie in the memory.
    fn from_fifo<M: WordMemory>(view: &mut FifoView<'_, M>) -> (r: Option<Self>)
        requires
            old(view).wf(),
            old(view).peeked_amount + Self::arg_words() <= old(view).available ==> old(
                view,
            ).within(Self::arg_words() as int),
        ensures
            final(view).wf(),
            *final(view).parent == *old(view).parent,
            *final(final(view).parent) == *final(old(view).parent),
            final(view).available == old(view).available,
            r is Some <==> old(view).peeked_amount + Self::arg_words() <= old(view).available,
            r matches Some(cmd) ==> {
                &&& final(view).peeked_amount == old(view).peeked_amount + Self::arg_words()
                &&& final(view).cmd_pos == old(view).parent.bounds().word_at(
                    old(view).cmd_pos as int,
                    Self::arg_words() as int,
                )
                &&& old(view).parent.mem().contents() matches Some(s) ==> cmd == Self::from_args(
                    old(view).parent.bounds().span(
                        s,
                        old(view).cmd_pos as int,
                        Self::arg_words() as int,
                    ),
                )
            },
            r is None ==> {
                &&& final(view).peeked_amount == old(view).peeked_amount
                &&& final(view).cmd_pos == old(view).cmd_pos
            },
    ;
}

/// Opcode and name of a command.
pub trait FifoCmdInfo {
    /// Opcode of this command.
    fn opcode(&self) -> u32;

    /// Name of this command.
    fn name(&self) -> &'static str;
}

/// A command that the device can carry out.
pub trait FifoCmd: FifoCmdInfo {
    /// Whether the command has the framebuffer sent to the graphics backend.
    spec fn updates_framebuffer(&self) -> bool;

    /// What the command hands to the graphics backend: the `width * height`
    /// pixels at the start of the framebuffer memory `fb`, or nothing.
    fn process<'m, M: WordMemory>(&self, fb: &'m M, width: u32, height: u32) -> (r: Option<
        RefOrBox<'m, [u32]>,
    >)
        requires
            width * height <= fb.word_len(),
        ensures
            r is Some <==> self.updates_framebuffer(),
            r matches Some(pixels) ==> {
                &&& pixels is Refed == fb.lends()
                &&& pixels.words().len() == width * height
                &&& fb.contents() matches Some(s) ==> pixels.words() == s.subrange(
                    0,
                    width * height,
                )
            },
    ;
}

/// `UPDATE`: asks that a rectangle of the framebuffer be shown. The device
/// refreshes the whole frame whatever the rectangle.
#[derive(Debug, Clone, Copy, PartialEq, Eq, Structural)]
pub struct FifoCmdUpdate {
    pub x: u32,
    pub y: u32,
    pub width: u32,
    pub height: u32,
}

impl FifoCmdUpdate {
    /// Opcode of this command.
    pub const OPCODE: u32 = 1;

    /// Number of argument words that follow the opcode.
    pub const ARGS: u32 = 4;

    /// Name of this command.
    pub const NAME: &'static str = "SVGA_CMD_UPDATE";

    /// The command whose arguments are the four words `words`.
    pub fn from_words(words: &[u32]) -> (cmd: Self)
        requires
            words@.len() == Self::ARGS,
        ensures
            cmd == Self::from_args(words@),
    {
        FifoCmdUpdate { x: words[0], y: words[1], width: words[2], height: words[3] }
    }
}

impl FifoCmdInfo for FifoCmdUpdate {
    fn opcode(&self) -> (r: u32)
        ensures
            r == Self::OPCODE,
    {
        Self::OPCODE
    }

    fn name(&self) -> (r: &'static str)
        ensures
            r == Self::NAME,
    {
        Self::NAME
    }
}

impl FifoCmdBuildable for FifoCmdUpdate {
    open spec fn arg_words() -> u32 {
        Self::ARGS
    }

    open spec fn from_args(args: Seq<u32>) -> Self {
        FifoCmdUpdate { x: args[0], y: args[1], width: args[2], height: args[3] }
    }

    fn from_fifo<M: WordMemory>(view: &mut FifoView<'_, M>) -> (r: Option<Self>) {
        match view.borrow(Self::ARGS) {
            Some(words) => Some(Self::from_words(words.get())),
            None => None,
        }
    }
}

impl FifoCmd for FifoCmdUpdate {
    open spec fn updates_framebuffer(&self) -> bool {
        true
    }

    fn process<'m, M: WordMemory>(&self, fb: &'m M, width: u32, height: u32) -> (r: Option<
        RefOrBox<'m, [u32]>,
    >) {
        let limit: usize = fb.len();
        assert(width * height <= limit);
        let pixels: usize = (width as usize) * (height as usize);
        Some(fb.slice_to(0, pixels))
    }
}

/// `FENCE`: reserved for ordering between guest and host. The device does
/// nothing on it.
#[derive(Debug, Clone, Copy, PartialEq, Eq, Structural)]
pub struct FifoCmdFence {
    pub fence: u32,
}

impl FifoCmdFence {
    /// Opcode of this command.
    pub const OPCODE: u32 = 30;

    /// Number of argument words that follow the opcode.
    pub const ARGS: u32 = 1;

    /// Name of this command.
    pub const NAME: &'static str = "SVGA_CMD_FENCE";
}

impl FifoCmdInfo for FifoCmdFence {
    fn opcode(&self) -> (r: u32)
        ensures
            r == Self::OPCODE,
    {
        Self::OPCODE
    }

    fn name(&self) -> (r: &'static str)
        ensures
            r == Self::NAME,
    {
        Self::NAME
    }
}

impl FifoCmdBuildable for FifoCmdFence {
    open spec fn arg_words() -> u32 {
        Self::ARGS
    }

    open spec fn from_args(args: Seq<u32>) -> Self {
        FifoCmdFence { fence: args[0] }
    }

    fn from_fifo<M: WordMemory>(view: &mut FifoView<'_, M>) -> (r: Option<Self>) {
        proof {
            view.parent.mem().contents_cover();
            if view.parent.mem().contents() is Some && view.peeked_amount < view.available {
                view.parent.bounds().span_in_pieces(
                    view.parent.mem().contents().unwrap(),
                    view.cmd_pos as int,
                    1,
                );
            }
        }
        match view.next() {
            Some(fence) => Some(FifoCmdFence { fence }),
            None => None,
        }
    }
}

impl FifoCmd for FifoCmdFence {
    open spec fn updates_framebuffer(&self) -> bool {
        false
    }

    fn process<'m, M: WordMemory>(&self, fb: &'m M, width: u32, height: u32) -> (r: Option<
        RefOrBox<'m, [u32]>,
    >) {
        None
    }
}

/// Any command of the FIFO.
#[derive(Debug, Clone, Copy, PartialEq, Eq, Structural)]
pub enum FifoCommand {
    Update(FifoCmdUpdate),
    Fence(FifoCmdFence),
}

/// Number of argument words that follow `opcode`, or `None` if it is no
/// command.
pub open spec fn arg_count(opcode: u32) -> Option<u32> {
    if opcode == FifoCmdUpdate::OPCODE {
        Some(FifoCmdUpdate::ARGS)
    } else if opcode == FifoCmdFence::OPCODE {
        Some(FifoCmdFence::ARGS)
    } else {
        None
    }
}

impl FifoCommand {
    /// The command with the opcode `opcode` and the argument words `args`.
    pub open spec fn decode(opcode: u32, args: Seq<u32>) -> FifoCommand {
        if opcode == FifoCmdUpdate::OPCODE {
            FifoCommand::Update(FifoCmdUpdate::from_args(args))
        } else {
            FifoCommand::Fence(FifoCmdFence::from_args(args))
        }
    }

    /// Number of words that the command takes in the FIFO, its opcode included.
    pub open spec fn words(&self) -> int {
        match self {
            FifoCommand::Update(_) => 1 + FifoCmdUpdate::ARGS,
            FifoCommand::Fence(_) => 1 + FifoCmdFence::ARGS,
        }
    }
}

impl FifoCmdInfo for FifoCommand {
    fn opcode(&self) -> (r: u32)
        ensures
            r == (match self {
                FifoCommand::Update(_) => FifoCmdUpdate::OPCODE,
                FifoCommand::Fence(_) => FifoCmdFence::OPCODE,
            }),
    {
        match self {
            FifoCommand::Update(cmd) => cmd.opcode(),
            FifoCommand::Fence(cmd) => cmd.opcode(),
        }
    }

    fn name(&self) -> (r: &'static str)
        ensures
            r == (match self {
                FifoCommand::Update(_) => FifoCmdUpdate::NAME,
                FifoCommand::Fence(_) => FifoCmdFence::NAME,
            }),
    {
        match self {
            FifoCommand::Update(cmd) => cmd.name(),
            FifoCommand::Fence(cmd) => cmd.name(),
        }
    }
}

impl FifoCmd for FifoCommand {
    open spec fn updates_framebuffer(&self) -> bool {
        self is Update
    }

    fn process<'m, M: WordMemory>(&self, fb: &'m M, width: u32, height: u32) -> (r: Option<
        RefOrBox<'m, [u32]>,
    >) {
        match self {
            FifoCommand::Update(cmd) => cmd.process(fb, width, height),
            FifoCommand::Fence(cmd) => cmd.process(fb, width, height),
        }
    }
}

/// What is fetched where `left` words are left from the word `pos` on, in a
/// ring within `bounds` of a memory that holds `words`.
///
/// Nothing, where no word is left. An error, where the word at `pos` is no
/// opcode. Else the command of that opcode with the argument words that follow
/// it, or nothing where not all of them are there yet. An error too, where a
/// word that is to be read lies beyond the memory.
pub open spec fn fetched(bounds: FifoBounds, words: Seq<u32>, pos: int, left: int) -> Result<
    Option<FifoCommand>,
    FifoError,
> {
    if left <= 0 {
        Ok(None)
    } else if !bounds.span_within(pos, 1, words.len()) {
        Err(FifoError::BoundsOutsideMemory)
    } else {
        match arg_count(words[pos]) {
            None => Err(FifoError::UnknownOpcode(words[pos])),
            Some(argc) => if 1 + argc > left {
                Ok(None)
            } else if !bounds.span_within(bounds.word_at(pos, 1), argc as int, words.len()) {
                Err(FifoError::BoundsOutsideMemory)
            } else {
                Ok(
                    Some(
                        FifoCommand::decode(
                            words[pos],
                            bounds.span(words, bounds.word_at(pos, 1), argc as int),
                        ),
                    ),
                )
            },
        }
    }
}

/// Takes the next command from `view`: its opcode, then its arguments.
///
/// Returns `Ok(None)` when no word is left, and also when the opcode is there
/// but not yet all of its arguments; the opcode has then been peeked at, and a
/// view that is not committed leaves it in the ring. Fails with `UnknownOpcode`
/// on an opcode that is no command, and with `BoundsOutsideMemory` where the
/// opcode, or the arguments that are there, lie beyond the memory.
pub fn fetch_fifo_cmd<M: WordMemory>(view: &mut FifoView<'_, M>) -> (r: Result<
    Option<FifoCommand>,
    FifoError,
>)
    requires
        old(view).wf(),
    ensures
        final(view).wf(),
        *final(view).parent == *old(view).parent,
        *final(final(view).parent) == *final(old(view).parent),
        final(view).available == old(view).available,
        old(view).parent.mem().contents() matches Some(s) ==> r == fetched(
            old(view).parent.bounds(),
            s,
            old(view).cmd_pos as int,
            old(view).available - old(view).peeked_amount,
        ),
        old(view).peeked_amount == old(view).available ==> {
            &&& r == Ok::<Option<FifoCommand>, FifoError>(None)
            &&& final(view).peeked_amount == old(view).peeked_amount
            &&& final(view).cmd_pos == old(view).cmd_pos
        },
        old(view).peeked_amount < old(view).available && !old(view).within(1) ==> {
            &&& r == Err::<Option<FifoCommand>, FifoError>(FifoError::BoundsOutsideMemory)
            &&& final(view).peeked_amount == old(view).peeked_amount
            &&& final(view).cmd_pos == old(view).cmd_pos
        },
        old(view).peeked_amount < old(view).available && old(view).within(1) ==> {
            let args_pos = old(view).parent.bounds().word_at(old(view).cmd_pos as int, 1);
            match r {
                Ok(Some(cmd)) => {
                    &&& final(view).peeked_amount == old(view).peeked_amount + cmd.words()
                    &&& final(view).cmd_pos == old(view).parent.bounds().word_at(
                        args_pos,
                        cmd.words() - 1,
                    )
                },
                Ok(None) => {
                    &&& final(view).peeked_amount == old(view).peeked_amount + 1
                    &&& final(view).cmd_pos == args_pos
                },
                Err(e) => {
                    &&& (e is UnknownOpcode && arg_count(e->UnknownOpcode_0) is None) || e
                        == FifoError::BoundsOutsideMemory
                    &&& final(view).peeked_amount == old(view).peeked_amount + 1
                    &&& final(view).cmd_pos == args_pos
                },
            }
        },
{
    proof {
        view.parent.mem().contents_cover();
    }
    if view.available() == 0 {
        return Ok(None);
    }
    if !view.in_memory(1) {
        return Err(FifoError::BoundsOutsideMemory);
    }
    let opcode: u32 = match view.next() {
        Some(opcode) => opcode,
        None => {
            return Ok(None);
        },
    };
    let argc: u32 = if opcode == FifoCmdUpdate::OPCODE {
        FifoCmdUpdate::ARGS
    } else if opcode == FifoCmdFence::OPCODE {
        FifoCmdFence::ARGS
    } else {
        return Err(FifoError::UnknownOpcode(opcode));
    };
    proof {
        view.parent.mem().contents_cover();
        assert(arg_count(opcode) == Some(argc));
        assert(view.cmd_pos == old(view).parent.bounds().word_at(old(view).cmd_pos as int, 1));
    }
    if argc <= view.available() && !view.in_memory(argc) {
        return Err(FifoError::BoundsOutsideMemory);
    }
    if opcode == FifoCmdUpdate::OPCODE {
        match FifoCmdUpdate::from_fifo(view) {
            Some(cmd) => Ok(Some(FifoCommand::Update(cmd))),
            None => Ok(None),
        }
    } else {
        match FifoCmdFence::from_fifo(view) {
            Some(cmd) => Ok(Some(FifoCommand::Fence(cmd))),
            None => Ok(None),
        }
    }
}

} // verus!
