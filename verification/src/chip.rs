//! The register file of the device and what a write to it sets going.
//!
//! The guest reaches the registers through two ports: it writes the index of a
//! register to the index port, then reads or writes the register through the
//! value port. The device itself starts no thread. A write returns what has to
//! happen to the thread that drains the FIFO, and the embedder sees to it.

use crate::constants::SVGA_INDEX_PORT;
use crate::constants::SVGA_REG_BITS_PER_PIXEL;
use crate::constants::SVGA_REG_BUSY;
use crate::constants::SVGA_REG_BYTES_PER_LINE;
use crate::constants::SVGA_REG_CAPABILITIES;
use crate::constants::SVGA_REG_CONFIG_DONE;
use crate::constants::SVGA_REG_ENABLE;
use crate::constants::SVGA_REG_FB_SIZE;
use crate::constants::SVGA_REG_HEIGHT;
use crate::constants::SVGA_REG_ID;
use crate::constants::SVGA_REG_MEM_SIZE;
use crate::constants::SVGA_REG_SYNC;
use crate::constants::SVGA_REG_WIDTH;
use crate::constants::SVGA_VALUE_PORT;
use crate::constants::SVGA_VER_2;
use crate::ffi::chip_config::ChipConfig;
use crate::fifo_processor::fifo_state::frame_read;
use crate::fifo_processor::fifo_state::FifoState;
use crate::fifo_processor::fifo_state::FIFO_MIN_BYTES;
use crate::fifo_processor::fifo_state::MAGIC_OFFSET;
use crate::mailbox::MailboxItem;
use crate::shared_mem::WordMemory;
use std::sync::Arc;
use vstd::prelude::*;

verus! {

/// The only pixel depth that the device takes.
pub const BITS_PER_PIXEL: u32 = 32;

/// What has to happen to the thread that drains the FIFO.
#[derive(Debug, Clone, Copy, PartialEq, Eq, Structural)]
pub enum WorkerAction {
    /// Nothing.
    Nothing,
    /// No thread has been started: start one for this resolution.
    Start { width: u32, height: u32 },
    /// A thread has been started: wake it. If it has ended meanwhile, join it
    /// and start another for this resolution.
    Resume { width: u32, height: u32 },
    /// Wake the thread and join it.
    Stop,
}

/// What is done to the thread for a [`WorkerAction`], in this order: wake it,
/// join it, start another.
#[derive(Debug, Clone, Copy, PartialEq, Eq, Structural)]
pub struct WorkerPlan {
    /// Wake the thread.
    pub wake: bool,
    /// Join the thread that is held, if one is held.
    pub join: bool,
    /// Start a thread for `width` by `height`.
    pub spawn: bool,
    /// Width for which the thread is started, zero if none is.
    pub width: u32,
    /// Height for which the thread is started, zero if none is.
    pub height: u32,
}

impl WorkerAction {
    /// What the action comes to, given whether the thread has ended, which
    /// also holds where none is held.
    pub open spec fn planned(self, ended: bool) -> WorkerPlan {
        match self {
            WorkerAction::Nothing => WorkerPlan {
                wake: false,
                join: false,
                spawn: false,
                width: 0,
                height: 0,
            },
            WorkerAction::Start { width, height } => WorkerPlan {
                wake: false,
                join: false,
                spawn: true,
                width,
                height,
            },
            WorkerAction::Resume { width, height } => if ended {
                WorkerPlan { wake: true, join: true, spawn: true, width, height }
            } else {
                WorkerPlan { wake: true, join: false, spawn: false, width: 0, height: 0 }
            },
            WorkerAction::Stop => WorkerPlan {
                wake: true,
                join: true,
                spawn: false,
                width: 0,
                height: 0,
            },
        }
    }

    /// What to do to the thread for this action, given whether the thread has
    /// ended, which also holds where none is held.
    ///
    /// A thread that still runs is only woken. One that has ended is joined
    /// before another is started, so that no two run at once.
    pub fn plan(&self, ended: bool) -> (plan: WorkerPlan)
        ensures
            plan == self.planned(ended),
    {
        match self {
            WorkerAction::Nothing => WorkerPlan {
                wake: false,
                join: false,
                spawn: false,
                width: 0,
                height: 0,
            },
            WorkerAction::Start { width, height } => WorkerPlan {
                wake: false,
                join: false,
                spawn: true,
                width: *width,
                height: *height,
            },
            WorkerAction::Resume { width, height } => if ended {
                WorkerPlan { wake: true, join: true, spawn: true, width: *width, height: *height }
            } else {
                WorkerPlan { wake: true, join: false, spawn: false, width: 0, height: 0 }
            },
            WorkerAction::Stop => WorkerPlan {
                wake: true,
                join: true,
                spawn: false,
                width: 0,
                height: 0,
            },
        }
    }

    /// A thread is started only where none runs: where none has been started,
    /// or where the one that was has ended and is joined first.
    pub proof fn spawn_only_without_thread(self, ended: bool)
        ensures
            self.planned(ended).spawn ==> self is Start || (ended && self.planned(ended).join),
            self.planned(ended).spawn <==> self is Start || (self is Resume && ended),
    {
    }
}

/// The registers, as plain values.
#[derive(Debug, Clone, Copy, PartialEq, Eq, Structural)]
pub struct ChipRegs {
    /// Whether the guest has switched from VGA to SVGA mode.
    pub enabled: bool,
    /// Index of the register that the value port stands for.
    pub pending_io_addr: u32,
    /// Width of the screen in pixels.
    pub width: u32,
    /// Height of the screen in pixels.
    pub height: u32,
    /// Lengths of the memory regions.
    pub config: ChipConfig,
    /// Interface version that host and guest have agreed on so far.
    pub negotiated_version: u32,
    /// Whether the FIFO is configured, that is, the thread enabled.
    pub configured: bool,
    /// Whether a thread has been started and not joined since.
    pub worker: bool,
}

impl ChipRegs {
    /// Whether `reg` is a register that the device lets be read.
    pub open spec fn readable(reg: u32) -> bool {
        ||| reg == SVGA_REG_ID
        ||| reg == SVGA_REG_ENABLE
        ||| reg == SVGA_REG_WIDTH
        ||| reg == SVGA_REG_HEIGHT
        ||| reg == SVGA_REG_BYTES_PER_LINE
        ||| reg == SVGA_REG_FB_SIZE
        ||| reg == SVGA_REG_CAPABILITIES
        ||| reg == SVGA_REG_MEM_SIZE
        ||| reg == SVGA_REG_BUSY
    }

    /// Whether `reg` is a register that the device lets be written.
    pub open spec fn writable(reg: u32) -> bool {
        ||| reg == SVGA_REG_ID
        ||| reg == SVGA_REG_ENABLE
        ||| reg == SVGA_REG_WIDTH
        ||| reg == SVGA_REG_HEIGHT
        ||| reg == SVGA_REG_BITS_PER_PIXEL
        ||| reg == SVGA_REG_CONFIG_DONE
        ||| reg == SVGA_REG_SYNC
    }

    /// A register that cannot be read reads as zero.
    pub proof fn unreadable_reads_zero(self, reg: u32, busy: bool)
        requires
            !Self::readable(reg),
        ensures
            self.read(reg, busy) == 0,
    {
    }

    /// A write to a register that cannot be written is taken and changes
    /// nothing.
    pub proof fn unwritable_takes_nothing(self, reg: u32, val: u32)
        requires
            !Self::writable(reg),
        ensures
            self.accepts(reg, val),
            self.written(reg, val) == self,
            self.action(reg, val) == WorkerAction::Nothing,
    {
    }

    /// What a read of register `reg` returns while `BUSY` would read `busy`.
    pub open spec fn read(self, reg: u32, busy: bool) -> u32 {
        if reg == SVGA_REG_ID {
            self.negotiated_version
        } else if reg == SVGA_REG_ENABLE {
            if self.enabled {
                1u32
            } else {
                0u32
            }
        } else if reg == SVGA_REG_WIDTH {
            self.width
        } else if reg == SVGA_REG_HEIGHT {
            self.height
        } else if reg == SVGA_REG_BYTES_PER_LINE {
            self.stride()
        } else if reg == SVGA_REG_FB_SIZE {
            Self::low_word(self.config.fb_len)
        } else if reg == SVGA_REG_CAPABILITIES {
            0u32
        } else if reg == SVGA_REG_MEM_SIZE {
            Self::low_word(self.config.fifo_len)
        } else if reg == SVGA_REG_BUSY {
            if busy {
                1u32
            } else {
                0u32
            }
        } else {
            0u32
        }
    }

    /// A length as a register shows it: cut to 32 bits.
    pub open spec fn low_word(len: usize) -> u32 {
        ((len as int) % 0x1_0000_0000) as u32
    }

    /// Bytes in a line of the screen: four for every pixel, cut to 32 bits.
    pub open spec fn stride(self) -> u32 {
        ((self.width * 4) % 0x1_0000_0000) as u32
    }

    /// Whether the device takes the write of `val` to register `reg`. The
    /// resolution is fixed while the FIFO is configured, and the depth is
    /// always [`BITS_PER_PIXEL`].
    pub open spec fn accepts(self, reg: u32, val: u32) -> bool {
        &&& (reg == SVGA_REG_WIDTH || reg == SVGA_REG_HEIGHT) ==> !self.configured
        &&& reg == SVGA_REG_BITS_PER_PIXEL ==> val == BITS_PER_PIXEL
    }

    /// What making sure that the thread runs comes to.
    pub open spec fn start(self) -> WorkerAction {
        if !self.configured {
            WorkerAction::Nothing
        } else if self.worker {
            WorkerAction::Resume { width: self.width, height: self.height }
        } else {
            WorkerAction::Start { width: self.width, height: self.height }
        }
    }

    /// The registers after `val` was written to register `reg`.
    pub open spec fn written(self, reg: u32, val: u32) -> ChipRegs {
        if reg == SVGA_REG_ID {
            ChipRegs {
                negotiated_version: if val < self.negotiated_version {
                    val
                } else {
                    self.negotiated_version
                },
                ..self
            }
        } else if reg == SVGA_REG_ENABLE {
            ChipRegs { enabled: val != 0, ..self }
        } else if reg == SVGA_REG_WIDTH {
            ChipRegs { width: val, ..self }
        } else if reg == SVGA_REG_HEIGHT {
            ChipRegs { height: val, ..self }
        } else if reg == SVGA_REG_SYNC {
            ChipRegs { worker: self.worker || self.configured, ..self }
        } else if reg == SVGA_REG_CONFIG_DONE {
            ChipRegs { configured: val != 0, worker: val != 0, ..self }
        } else {
            self
        }
    }

    /// What the write of `val` to register `reg` asks for the thread.
    pub open spec fn action(self, reg: u32, val: u32) -> WorkerAction {
        if reg == SVGA_REG_SYNC {
            self.start()
        } else if reg == SVGA_REG_CONFIG_DONE {
            if val != 0 {
                (ChipRegs { configured: true, ..self }).start()
            } else if self.worker {
                WorkerAction::Stop
            } else {
                WorkerAction::Nothing
            }
        } else {
            WorkerAction::Nothing
        }
    }
}

impl ChipRegs {
    /// A length as a register shows it: cut to 32 bits.
    pub fn to_word(len: usize) -> (word: u32)
        ensures
            word == ChipRegs::low_word(len),
    {
        ((len as u64) % 0x1_0000_0000) as u32
    }

    /// Whether `reg` is a register that the device lets be read. Any other
    /// reads as zero.
    pub fn is_readable(reg: u32) -> (known: bool)
        ensures
            known == ChipRegs::readable(reg),
    {
        reg == SVGA_REG_ID || reg == SVGA_REG_ENABLE || reg == SVGA_REG_WIDTH || reg
            == SVGA_REG_HEIGHT || reg == SVGA_REG_BYTES_PER_LINE || reg == SVGA_REG_FB_SIZE || reg
            == SVGA_REG_CAPABILITIES || reg == SVGA_REG_MEM_SIZE || reg == SVGA_REG_BUSY
    }

    /// Whether `reg` is a register that the device lets be written. A write to
    /// any other changes nothing.
    pub fn is_writable(reg: u32) -> (known: bool)
        ensures
            known == ChipRegs::writable(reg),
    {
        reg == SVGA_REG_ID || reg == SVGA_REG_ENABLE || reg == SVGA_REG_WIDTH || reg
            == SVGA_REG_HEIGHT || reg == SVGA_REG_BITS_PER_PIXEL || reg == SVGA_REG_CONFIG_DONE
            || reg == SVGA_REG_SYNC
    }

    /// No write raises the interface version that was agreed on.
    pub proof fn version_never_rises(self, reg: u32, val: u32)
        ensures
            self.written(reg, val).negotiated_version <= self.negotiated_version,
            reg == SVGA_REG_ID ==> self.written(reg, val).negotiated_version <= val,
    {
    }

    /// While the FIFO is configured, no write that the device takes changes
    /// the resolution.
    pub proof fn resolution_fixed_while_configured(self, reg: u32, val: u32)
        requires
            self.configured,
            self.accepts(reg, val),
        ensures
            self.written(reg, val).width == self.width,
            self.written(reg, val).height == self.height,
    {
    }

    /// At most one thread: a write asks to start one only when none has been
    /// started, and afterwards one has. A write asks to stop one only when one
    /// has been started, and afterwards none has.
    pub proof fn one_worker_at_a_time(self, reg: u32, val: u32)
        ensures
            self.action(reg, val) is Start ==> !self.worker && self.written(reg, val).worker,
            self.action(reg, val) is Resume ==> self.worker && self.written(reg, val).worker,
            self.action(reg, val) is Stop ==> self.worker && !self.written(reg, val).worker,
            self.action(reg, val) is Nothing ==> self.written(reg, val).worker == self.worker,
    {
    }

    /// A thread is held only while the FIFO is configured: if that holds before
    /// a write, it holds after it.
    pub proof fn worker_only_while_configured(self, reg: u32, val: u32)
        requires
            self.worker ==> self.configured,
        ensures
            self.written(reg, val).worker ==> self.written(reg, val).configured,
    {
    }
}

/// A device over memory `M`: its registers and the state that it shares with
/// the thread.
pub struct Chip<M: WordMemory> {
    /// Whether the guest has switched from VGA to SVGA mode.
    pub enabled: bool,
    /// Index of the register that the value port stands for.
    pub pending_io_addr: u32,
    /// Width of the screen in pixels.
    pub width: u32,
    /// Height of the screen in pixels.
    pub height: u32,
    /// Lengths of the memory regions.
    pub config: ChipConfig,
    /// Whether a thread has been started and not joined since.
    pub fifo_thread: bool,
    /// The state shared with the thread.
    pub fifo_state: Arc<FifoState<M>>,
    /// Interface version that host and guest have agreed on so far.
    pub negotiated_version: u32,
    /// Whether the FIFO is configured: what the device last stored to
    /// `enabled` in the shared state.
    pub configured: bool,
}

impl<M: WordMemory> View for Chip<M> {
    type V = ChipRegs;

    open spec fn view(&self) -> ChipRegs {
        ChipRegs {
            enabled: self.enabled,
            pending_io_addr: self.pending_io_addr,
            width: self.width,
            height: self.height,
            config: self.config,
            negotiated_version: self.negotiated_version,
            configured: self.configured,
            worker: self.fifo_thread,
        }
    }
}

impl<M: WordMemory> Chip<M> {
    /// The state shared with the thread.
    pub open spec fn shared(&self) -> Arc<FifoState<M>> {
        self.fifo_state
    }

    /// A device over the FIFO region `fifo` and the framebuffer `fb`, in VGA
    /// mode, with no resolution, at interface version 2 and with no thread. The
    /// whole FIFO region is set to zero; the FIFO of the device starts behind
    /// the first [`MAGIC_OFFSET`] words of it.
    pub fn new(config: &ChipConfig, fifo: M, fb: M) -> (chip: Self)
        requires
            fifo.word_len() * 4 > FIFO_MIN_BYTES,
        ensures
            chip@ == (ChipRegs {
                enabled: false,
                pending_io_addr: 0,
                width: 0,
                height: 0,
                config: *config,
                negotiated_version: SVGA_VER_2,
                configured: false,
                worker: false,
            }),
            chip.shared().fb_mem() == fb,
            chip.shared().fifo_mem().word_len() == fifo.word_len() - MAGIC_OFFSET,
            chip.shared().fifo_mem().lends() == fifo.lends(),
            match fifo.contents() {
                Some(_) => chip.shared().fifo_mem().contents() == Some(
                    Seq::new((fifo.word_len() - MAGIC_OFFSET) as nat, |i: int| 0u32),
                ),
                None => chip.shared().fifo_mem().contents() is None,
            },
    {
        let mut region: M = fifo;
        FifoState::init_fifo(&mut region);
        proof {
            region.contents_cover();
        }
        let state: FifoState<M> = FifoState::new(region, fb);
        proof {
            state.fifo_mem().contents_cover();
            if fifo.contents() is Some {
                assert(state.fifo_mem().contents().unwrap() =~= Seq::new(
                    (fifo.word_len() - MAGIC_OFFSET) as nat,
                    |i: int| 0u32,
                ));
            }
        }
        let fifo_state = Arc::new(state);
        Chip {
            enabled: false,
            pending_io_addr: 0,
            width: 0,
            height: 0,
            config: *config,
            fifo_thread: false,
            fifo_state,
            negotiated_version: SVGA_VER_2,
            configured: false,
        }
    }

    /// Reads register `reg`. A register that the device does not have reads as
    /// zero.
    pub fn read_reg(&self, reg: u32) -> (val: u32)
        ensures
            reg != SVGA_REG_BUSY ==> val == self@.read(reg, false),
            reg == SVGA_REG_BUSY ==> val == self@.read(reg, false) || val == self@.read(reg, true),
    {
        if reg == SVGA_REG_ID {
            self.negotiated_version
        } else if reg == SVGA_REG_ENABLE {
            if self.enabled {
                1
            } else {
                0
            }
        } else if reg == SVGA_REG_WIDTH {
            self.width
        } else if reg == SVGA_REG_HEIGHT {
            self.height
        } else if reg == SVGA_REG_BYTES_PER_LINE {
            self.stride()
        } else if reg == SVGA_REG_FB_SIZE {
            ChipRegs::to_word(self.config.fb_len)
        } else if reg == SVGA_REG_CAPABILITIES {
            0
        } else if reg == SVGA_REG_MEM_SIZE {
            ChipRegs::to_word(self.config.fifo_len)
        } else if reg == SVGA_REG_BUSY {
            if self.fifo_state.is_busy() {
                1
            } else {
                0
            }
        } else {
            0
        }
    }

    /// Whether the device takes the write of `val` to register `reg`.
    pub fn accepts_write(&self, reg: u32, val: u32) -> (ok: bool)
        ensures
            ok == self@.accepts(reg, val),
    {
        if reg == SVGA_REG_WIDTH || reg == SVGA_REG_HEIGHT {
            !self.configured
        } else if reg == SVGA_REG_BITS_PER_PIXEL {
            val == BITS_PER_PIXEL
        } else {
            true
        }
    }

    /// Writes `val` to register `reg` and returns what has to happen to the
    /// thread. A write to a register that the device does not have, or that
    /// cannot be written, changes nothing.
    pub fn write_reg(&mut self, reg: u32, val: u32) -> (action: WorkerAction)
        requires
            old(self)@.accepts(reg, val),
        ensures
            final(self)@ == old(self)@.written(reg, val),
            action == old(self)@.action(reg, val),
            final(self).shared() == old(self).shared(),
    {
        if reg == SVGA_REG_ID {
            if val < self.negotiated_version {
                self.negotiated_version = val;
            }
            WorkerAction::Nothing
        } else if reg == SVGA_REG_ENABLE {
            self.enabled = val != 0;
            WorkerAction::Nothing
        } else if reg == SVGA_REG_WIDTH {
            self.width = val;
            WorkerAction::Nothing
        } else if reg == SVGA_REG_HEIGHT {
            self.height = val;
            WorkerAction::Nothing
        } else if reg == SVGA_REG_SYNC {
            self.fifo_state.set_busy(true);
            self.start_fifo()
        } else if reg == SVGA_REG_CONFIG_DONE {
            let configured: bool = val != 0;
            self.configured = configured;
            self.fifo_state.set_enabled(configured);
            if configured {
                self.start_fifo()
            } else if self.fifo_thread {
                self.fifo_thread = false;
                WorkerAction::Stop
            } else {
                WorkerAction::Nothing
            }
        } else {
            WorkerAction::Nothing
        }
    }

    /// Reads four bytes from port `addr`. Only the value port reads as
    /// anything: as the register that the index port named. Every other port
    /// reads as zero.
    pub fn io_read4(&self, addr: u64) -> (val: u32)
        ensures
            addr != SVGA_VALUE_PORT ==> val == 0,
            addr == SVGA_VALUE_PORT && self@.pending_io_addr != SVGA_REG_BUSY ==> val
                == self@.read(self@.pending_io_addr, false),
            addr == SVGA_VALUE_PORT && self@.pending_io_addr == SVGA_REG_BUSY ==> val <= 1,
    {
        if addr == SVGA_VALUE_PORT {
            self.read_reg(self.pending_io_addr)
        } else {
            0
        }
    }

    /// Whether the device takes the write of `val` to port `addr`.
    pub fn accepts_io_write(&self, addr: u64, val: u32) -> (ok: bool)
        ensures
            ok == (addr == SVGA_VALUE_PORT ==> self@.accepts(self@.pending_io_addr, val)),
    {
        if addr == SVGA_VALUE_PORT {
            self.accepts_write(self.pending_io_addr, val)
        } else {
            true
        }
    }

    /// Writes four bytes to port `addr`. The index port names a register, the
    /// value port writes to the register named, and every other port takes
    /// nothing.
    pub fn io_write4(&mut self, addr: u64, val: u32) -> (action: WorkerAction)
        requires
            addr == SVGA_VALUE_PORT ==> old(self)@.accepts(old(self)@.pending_io_addr, val),
        ensures
            final(self).shared() == old(self).shared(),
            addr == SVGA_INDEX_PORT ==> action == WorkerAction::Nothing && final(self)@ == (ChipRegs {
                pending_io_addr: val,
                ..old(self)@
            }),
            addr == SVGA_VALUE_PORT ==> action == old(self)@.action(old(self)@.pending_io_addr, val)
                && final(self)@ == old(self)@.written(old(self)@.pending_io_addr, val),
            addr != SVGA_INDEX_PORT && addr != SVGA_VALUE_PORT ==> action == WorkerAction::Nothing
                && final(self)@ == old(self)@,
    {
        if addr == SVGA_INDEX_PORT {
            self.pending_io_addr = val;
            WorkerAction::Nothing
        } else if addr == SVGA_VALUE_PORT {
            let reg: u32 = self.pending_io_addr;
            self.write_reg(reg, val)
        } else {
            WorkerAction::Nothing
        }
    }

    /// Makes sure that the thread runs, if the FIFO is configured.
    fn start_fifo(&mut self) -> (action: WorkerAction)
        ensures
            action == old(self)@.start(),
            final(self)@ == (ChipRegs {
                worker: old(self)@.worker || old(self)@.configured,
                ..old(self)@
            }),
            final(self).shared() == old(self).shared(),
    {
        if !self.configured {
            return WorkerAction::Nothing;
        }
        let width: u32 = self.width;
        let height: u32 = self.height;
        if self.fifo_thread {
            WorkerAction::Resume { width, height }
        } else {
            self.fifo_thread = true;
            WorkerAction::Start { width, height }
        }
    }

    /// The registers as they stand.
    pub fn registers(&self) -> (regs: ChipRegs)
        ensures
            regs == self@,
    {
        ChipRegs {
            enabled: self.enabled,
            pending_io_addr: self.pending_io_addr,
            width: self.width,
            height: self.height,
            config: self.config,
            negotiated_version: self.negotiated_version,
            configured: self.configured,
            worker: self.fifo_thread,
        }
    }

    /// Whether a read of port `addr` names a register that cannot be read,
    /// which is worth a warning.
    pub fn io_reads_unknown(&self, addr: u64) -> (unknown: bool)
        ensures
            unknown == (addr == SVGA_VALUE_PORT && !ChipRegs::readable(self@.pending_io_addr)),
    {
        addr == SVGA_VALUE_PORT && !ChipRegs::is_readable(self.pending_io_addr)
    }

    /// Whether a write to port `addr` names a register that cannot be written,
    /// which is worth a warning.
    pub fn io_writes_unknown(&self, addr: u64) -> (unknown: bool)
        ensures
            unknown == (addr == SVGA_VALUE_PORT && !ChipRegs::writable(self@.pending_io_addr)),
    {
        addr == SVGA_VALUE_PORT && !ChipRegs::is_writable(self.pending_io_addr)
    }

    /// Bytes in a line of the screen.
    pub fn stride(&self) -> (stride: u32)
        ensures
            stride == self@.stride(),
    {
        self.width.wrapping_mul(4)
    }

    /// Whether the guest has left the device in VGA mode.
    pub fn is_vga_mode(&self) -> (vga: bool)
        ensures
            vga == !self@.enabled,
    {
        !self.enabled
    }

    /// Width, height and bytes in a line of what the device puts out.
    pub fn output_info(&self) -> (info: (u32, u32, u32))
        ensures
            info == (self@.width, self@.height, self@.stride()),
    {
        (self.width, self.height, self.stride())
    }

    /// Copies the latest frame to `out` and returns whether it did: it does if
    /// a frame has been published and has exactly as many bytes as `out`.
    ///
    /// Which frame the thread has published is for the thread to say. Whatever
    /// it is, `out` is read from it as [`frame_read`] says.
    pub fn output_read(&self, out: &mut [u8]) -> (copied: bool)
        ensures
            exists|frame: MailboxItem| #[trigger] frame_read(frame, old(out)@, final(out)@, copied),
            final(out)@.len() == old(out)@.len(),
            !copied ==> final(out)@ == old(out)@,
    {
        self.fifo_state.read_output(out)
    }
}

} // verus!
