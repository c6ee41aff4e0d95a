use vstd::prelude::*;
use crate::command::{OpiCommand, SpiCommand};
use crate::geometry::{chunk_len, spec_chunk_len, spec_page_chunks, MEMORY_PAGE_SIZE};
use crate::plan::{plan_result, plan_view, push_op, BusOp, FlashError, Op};
use crate::transfer::{
    legacy_addressed, legacy_command, legacy_register_read, octal_command, octal_frame,
    spec_legacy_addressed, spec_legacy_command, spec_legacy_register_read, spec_octal_command,
    spec_octal_frame, Width, DUMMY_CYCLES_ARRAY_READ, DUMMY_CYCLES_REGISTER,
};

verus! {

/// Which encoding the chip currently expects on the bus.
#[derive(Clone, Copy, Debug, PartialEq, Eq, Structural)]
pub enum BusMode {
    /// Single-wire SPI, single transfer rate: the state after power-up.
    LegacySingleRate,
    /// Eight lanes, double transfer rate: reached once, never left.
    OctalDoubleRate,
}

/// Unit of an erase.
#[derive(Clone, Copy, Debug, PartialEq, Eq, Structural)]
pub enum EraseUnit {
    /// 4 KiB sector containing the address.
    Sector,
    /// 64 KiB block containing the address.
    Block,
    /// The whole chip.
    Chip,
}

/// Verdict on one status read while waiting for the chip to go idle.
#[derive(Clone, Copy, Debug, PartialEq, Eq, Structural)]
pub enum PollOutcome {
    /// Write-in-progress is clear: the operation has completed.
    Idle,
    /// Still busy: read the status again.
    Busy,
    /// Still busy after the polling bound.
    TimedOut,
}

/// Number of status reads after which a busy chip counts as stuck.
pub const STATUS_POLL_LIMIT: u32 = 100_000_000;

/// Configuration register 2 bit that selects Octal-DTR mode (at address 0).
pub const CR2_OCTAL_DTR: u8 = 0x02;

/// Write-in-progress bit of the status register.
pub const STATUS_WIP: u8 = 0x01;

// Models of the fixed parts of the protocol.

pub open spec fn legacy_status_poll() -> Op {
    Op::WaitIdle(spec_legacy_register_read(0x05), 1)
}

pub open spec fn octal_status_read() -> crate::transfer::Transfer {
    spec_octal_frame(0x05FA, Some(0), Width::Octal, true, 4)
}

pub open spec fn octal_status_poll() -> Op {
    Op::WaitIdle(octal_status_read(), 2)
}

pub open spec fn octal_write_enable() -> Op {
    Op::Command(spec_octal_command(0x06F9))
}

/// Plan of `reset_memory_spi`.
pub open spec fn spec_reset_plan() -> Seq<Op> {
    seq![
        Op::Command(spec_legacy_command(0x66)),
        Op::Command(spec_legacy_command(0x99)),
        legacy_status_poll(),
    ]
}

/// Plan of `write_cr2_spi`.
pub open spec fn spec_write_cr2_spi_plan(address: u32, value: u8) -> Seq<Op> {
    seq![Op::Write(spec_legacy_addressed(0x72, address), seq![value]), legacy_status_poll()]
}

/// Plan of `switch_to_octal`: SPI write enable, then the write of
/// configuration register 2 at address 0 with the Octal-DTR bit set.
pub open spec fn spec_switch_plan(cr2: u8) -> Seq<Op> {
    seq![Op::Command(spec_legacy_command(0x06))] + spec_write_cr2_spi_plan(0, cr2 | CR2_OCTAL_DTR)
}

/// Plan of a two-byte register write: write enable, the write, wait idle.
pub open spec fn spec_register_write(opcode: u16, address: u32, first: u8, second: u8) -> Seq<Op> {
    seq![
        octal_write_enable(),
        Op::Write(spec_octal_frame(opcode, Some(address), Width::Octal, true, 0), seq![first, second]),
        octal_status_poll(),
    ]
}

/// Read of configuration register 2 at `address` in Octal-DTR mode.
pub open spec fn spec_read_cr2(address: u32) -> crate::transfer::Transfer {
    spec_octal_frame(0x718E, Some(address), Width::Octal, true, 4)
}

/// Plan of a page program of `data` at `addr`.
pub open spec fn spec_page_program(addr: nat, data: Seq<u8>) -> Seq<Op> {
    seq![
        octal_write_enable(),
        Op::Write(spec_octal_frame(0x12ED, Some(addr as u32), Width::Octal, true, 0), data),
        octal_status_poll(),
    ]
}

/// Plan of programming `data` at `addr`, one page piece at a time.
pub open spec fn spec_program_plan(addr: nat, data: Seq<u8>) -> Seq<Op>
    decreases data.len(),
{
    if data.len() == 0 {
        seq![]
    } else {
        let c = spec_chunk_len(addr, data.len());
        spec_page_program(addr, data.take(c as int)) + spec_program_plan(
            addr + c,
            data.skip(c as int),
        )
    }
}

/// A program of `data` at `addr` is one page program per page piece, in
/// order: write enable, the piece's bytes at the piece's address, wait idle.
pub proof fn lemma_program_follows_pieces(addr: nat, data: Seq<u8>)
    requires
        addr + data.len() <= 0x1_0000_0000,
    ensures
        spec_program_plan(addr, data).len() == 3 * spec_page_chunks(addr, data.len()).len(),
        forall|i: int|
            0 <= i < spec_page_chunks(addr, data.len()).len() ==> {
                let c = #[trigger] spec_page_chunks(addr, data.len())[i];
                let off = c.0 - addr;
                &&& 0 <= off
                &&& off + c.1 <= data.len()
                &&& spec_program_plan(addr, data).subrange(3 * i, 3 * i + 3) == spec_page_program(
                    c.0,
                    data.subrange(off, off + c.1),
                )
            },
    decreases data.len(),
{
    if data.len() > 0 {
        let n = data.len();
        let c = spec_chunk_len(addr, n);
        let rest = data.skip(c as int);
        let chunks = spec_page_chunks(addr, n);
        let rchunks = spec_page_chunks(addr + c, rest.len());
        let plan = spec_program_plan(addr, data);
        let rplan = spec_program_plan(addr + c, rest);
        lemma_program_follows_pieces(addr + c, rest);
        assert(rest.len() == (n - c) as nat);
        assert(chunks =~= seq![(addr, c)] + rchunks);
        assert(plan =~= spec_page_program(addr, data.take(c as int)) + rplan);
        assert forall|i: int| 0 <= i < chunks.len() implies {
            let ch = #[trigger] chunks[i];
            let off = ch.0 - addr;
            &&& 0 <= off
            &&& off + ch.1 <= data.len()
            &&& plan.subrange(3 * i, 3 * i + 3) == spec_page_program(
                ch.0,
                data.subrange(off, off + ch.1),
            )
        } by {
            if i == 0 {
                assert(plan.subrange(0, 3) =~= spec_page_program(addr, data.take(c as int)));
                assert(data.subrange(0, c as int) =~= data.take(c as int));
            } else {
                let ch = rchunks[i - 1];
                assert(chunks[i] == ch);
                let roff = ch.0 - (addr + c);
                assert(plan.subrange(3 * i, 3 * i + 3) =~= rplan.subrange(
                    3 * (i - 1),
                    3 * (i - 1) + 3,
                ));
                assert(rest.subrange(roff, roff + ch.1) =~= data.subrange(
                    roff + c,
                    roff + c + ch.1,
                ));
            }
        }
    }
}

/// Whether `t` is encoded for `mode`: one wire and a one-byte opcode at
/// single rate in SPI mode; eight wires and a two-byte opcode at double
/// rate in Octal-DTR mode.
pub open spec fn encoded_for(t: crate::transfer::Transfer, mode: BusMode) -> bool {
    match mode {
        BusMode::LegacySingleRate => {
            &&& t.iwidth == Width::Single
            &&& t.isize == crate::transfer::FieldSize::Bits8
            &&& !t.idtr
            &&& t.instruction is Some
            &&& t.instruction->Some_0 < 0x100
        },
        BusMode::OctalDoubleRate => t.iwidth == Width::Octal && t.isize
            == crate::transfer::FieldSize::Bits16 && t.idtr && t.instruction is Some,
    }
}

/// Whether every transfer of `op` is encoded for `mode`.
pub open spec fn op_encoded_for(op: Op, mode: BusMode) -> bool {
    match op {
        Op::Command(t) => encoded_for(t, mode),
        Op::Read(t, _) => encoded_for(t, mode),
        Op::Write(t, _) => encoded_for(t, mode),
        Op::WaitIdle(t, _) => encoded_for(t, mode),
        Op::MapMemory(r, w) => encoded_for(r, mode) && encoded_for(w, mode),
        Op::UnmapMemory => true,
    }
}

/// Whether every operation of `plan` is encoded for `mode`.
pub open spec fn plan_encoded_for(plan: Seq<Op>, mode: BusMode) -> bool {
    forall|i: int| 0 <= i < plan.len() ==> op_encoded_for(#[trigger] plan[i], mode)
}

/// The operations allowed before the switch to Octal-DTR issue only SPI
/// encodings; those allowed after it issue only Octal-DTR encodings.
pub proof fn lemma_plans_match_mode(
    address: u32,
    value: u8,
    second: u8,
    opcode: u16,
    addr: nat,
    data: Seq<u8>,
    unit: EraseUnit,
)
    ensures
        plan_encoded_for(spec_reset_plan(), BusMode::LegacySingleRate),
        plan_encoded_for(
            seq![Op::Read(spec_legacy_addressed(0x71, address), 1)],
            BusMode::LegacySingleRate,
        ),
        plan_encoded_for(spec_write_cr2_spi_plan(address, value), BusMode::LegacySingleRate),
        plan_encoded_for(spec_switch_plan(value), BusMode::LegacySingleRate),
        plan_encoded_for(seq![octal_write_enable()], BusMode::OctalDoubleRate),
        plan_encoded_for(
            seq![Op::Read(spec_octal_frame(opcode, Some(address), Width::Octal, true, 4), 2)],
            BusMode::OctalDoubleRate,
        ),
        plan_encoded_for(
            seq![Op::Read(spec_octal_frame(0x9F60, Some(0), Width::Octal, false, 4), 4)],
            BusMode::OctalDoubleRate,
        ),
        plan_encoded_for(
            seq![Op::Read(spec_octal_frame(0xEE11, Some(address), Width::Octal, true, 20), 1)],
            BusMode::OctalDoubleRate,
        ),
        plan_encoded_for(
            spec_register_write(opcode, address, value, second),
            BusMode::OctalDoubleRate,
        ),
        plan_encoded_for(spec_erase_plan(address, unit), BusMode::OctalDoubleRate),
        plan_encoded_for(
            seq![Op::MapMemory(spec_mapped_read(), spec_mapped_write()), Op::UnmapMemory],
            BusMode::OctalDoubleRate,
        ),
        plan_encoded_for(spec_program_plan(addr, data), BusMode::OctalDoubleRate),
    decreases data.len(),
{
    if data.len() > 0 {
        let c = spec_chunk_len(addr, data.len());
        lemma_plans_match_mode(address, value, second, opcode, addr + c, data.skip(c as int), unit);
        let head = spec_page_program(addr, data.take(c as int));
        let tail = spec_program_plan(addr + c, data.skip(c as int));
        assert(spec_program_plan(addr, data) == head + tail);
        assert forall|i: int| 0 <= i < head.len() + tail.len() implies op_encoded_for(
            #[trigger] (head + tail)[i],
            BusMode::OctalDoubleRate,
        ) by {
            if i >= head.len() {
                assert((head + tail)[i] == tail[i - head.len()]);
            }
        }
    }
}

/// Stage of the initialization sequence.
#[derive(Clone, Copy, Debug, PartialEq, Eq, Structural)]
pub enum InitStep {
    /// Reset the chip in SPI mode and wait until idle.
    Reset,
    /// Read configuration register 2 at address 0 in SPI mode.
    ReadConfig,
    /// Given that register, set its Octal-DTR bit (still SPI encoding);
    /// the handle then switches to Octal-DTR.
    Switch,
    /// Read configuration register 2 at address 0 in Octal-DTR encoding.
    ReadBack,
    /// Given that register, confirm that Octal-DTR is on.
    Confirm,
    /// The chip is in Octal-DTR mode and ready.
    Done,
}

/// The mode a handle must be in for an initialization stage.
pub open spec fn init_mode(step: InitStep) -> BusMode {
    match step {
        InitStep::Reset | InitStep::ReadConfig | InitStep::Switch => BusMode::LegacySingleRate,
        _ => BusMode::OctalDoubleRate,
    }
}

/// The stage that follows `step` when it succeeds.
pub open spec fn init_next(step: InitStep) -> InitStep {
    match step {
        InitStep::Reset => InitStep::ReadConfig,
        InitStep::ReadConfig => InitStep::Switch,
        InitStep::Switch => InitStep::ReadBack,
        InitStep::ReadBack => InitStep::Confirm,
        _ => InitStep::Done,
    }
}

/// Plan of an initialization stage, given the register value read by the
/// stage before (if any), in the stage's own mode.
pub open spec fn init_plan(step: InitStep, reply: Option<u8>) -> Result<Seq<Op>, FlashError> {
    match step {
        InitStep::Reset => Ok(spec_reset_plan()),
        InitStep::ReadConfig => Ok(seq![Op::Read(spec_legacy_addressed(0x71, 0), 1)]),
        InitStep::Switch => match reply {
            Some(cr2) => Ok(spec_switch_plan(cr2)),
            None => Err(FlashError::ProtocolViolation),
        },
        InitStep::ReadBack => Ok(seq![Op::Read(spec_read_cr2(0), 2)]),
        InitStep::Confirm => match reply {
            Some(cr2) => if cr2 & CR2_OCTAL_DTR != 0 {
                Ok(seq![])
            } else {
                Err(FlashError::ModeSwitchFailed)
            },
            None => Err(FlashError::ProtocolViolation),
        },
        InitStep::Done => Ok(seq![]),
    }
}

/// Outcome of an initialization stage from a handle in `mode`.
pub open spec fn spec_init_step(mode: BusMode, step: InitStep, reply: Option<u8>) -> Result<
    Seq<Op>,
    FlashError,
> {
    if mode == init_mode(step) {
        init_plan(step, reply)
    } else {
        Err(FlashError::ProtocolViolation)
    }
}

/// Mode of the handle after an initialization stage.
pub open spec fn init_mode_after(mode: BusMode, step: InitStep, reply: Option<u8>) -> BusMode {
    if step == InitStep::Switch && mode == BusMode::LegacySingleRate && reply is Some {
        BusMode::OctalDoubleRate
    } else {
        mode
    }
}

/// Stage after an initialization stage: the next one on success, the same
/// one on failure.
pub open spec fn init_after(mode: BusMode, step: InitStep, reply: Option<u8>) -> InitStep {
    if spec_init_step(mode, step, reply) is Ok {
        init_next(step)
    } else {
        step
    }
}

/// Initialization from power-up, whatever the chip answers: every bus
/// operation up to and including the configuration register 2 write and its
/// wait is in SPI encoding, every later one in Octal-DTR encoding; the mode
/// switches exactly once, right after that write is planned; the stages run
/// in the order reset, read, switch, read back, confirm.
pub proof fn lemma_init_sequence(cr2: u8, back: u8)
    ensures
        ({
            let m0 = BusMode::LegacySingleRate;
            let m1 = init_mode_after(m0, InitStep::Reset, None);
            let m2 = init_mode_after(m1, InitStep::ReadConfig, None);
            let m3 = init_mode_after(m2, InitStep::Switch, Some(cr2));
            let m4 = init_mode_after(m3, InitStep::ReadBack, None);
            &&& init_after(m0, InitStep::Reset, None) == InitStep::ReadConfig
            &&& init_after(m1, InitStep::ReadConfig, None) == InitStep::Switch
            &&& init_after(m2, InitStep::Switch, Some(cr2)) == InitStep::ReadBack
            &&& init_after(m3, InitStep::ReadBack, None) == InitStep::Confirm
            &&& m1 == BusMode::LegacySingleRate && m2 == BusMode::LegacySingleRate
            &&& m3 == BusMode::OctalDoubleRate && m4 == BusMode::OctalDoubleRate
            &&& init_mode_after(m4, InitStep::Confirm, Some(back)) == BusMode::OctalDoubleRate
            &&& spec_init_step(m0, InitStep::Reset, None) matches Ok(p) && plan_encoded_for(
                p,
                BusMode::LegacySingleRate,
            )
            &&& spec_init_step(m1, InitStep::ReadConfig, None) matches Ok(p) && plan_encoded_for(
                p,
                BusMode::LegacySingleRate,
            )
            &&& spec_init_step(m2, InitStep::Switch, Some(cr2)) matches Ok(p) && plan_encoded_for(
                p,
                BusMode::LegacySingleRate,
            )
            &&& spec_init_step(m3, InitStep::ReadBack, None) matches Ok(p) && plan_encoded_for(
                p,
                BusMode::OctalDoubleRate,
            )
            &&& spec_init_step(m4, InitStep::Confirm, Some(back)) == if back & CR2_OCTAL_DTR
                != 0 {
                Ok::<Seq<Op>, FlashError>(seq![])
            } else {
                Err(FlashError::ModeSwitchFailed)
            }
            &&& (back & CR2_OCTAL_DTR != 0 ==> init_after(m4, InitStep::Confirm, Some(back))
                == InitStep::Done)
        }),
{
    lemma_plans_match_mode(0, cr2 | CR2_OCTAL_DTR, 0, 0x718E, 0, seq![], EraseUnit::Chip);
}

/// The erase command of a unit.
pub open spec fn spec_erase_command(addr: u32, unit: EraseUnit) -> Op {
    match unit {
        EraseUnit::Sector => Op::Command(
            spec_octal_frame(0x21DE, Some(addr), Width::Absent, true, 0),
        ),
        EraseUnit::Block => Op::Command(
            spec_octal_frame(0xDC23, Some(addr), Width::Absent, true, 0),
        ),
        EraseUnit::Chip => Op::Command(spec_octal_command(0x609F)),
    }
}

/// Plan of an erase.
pub open spec fn spec_erase_plan(addr: u32, unit: EraseUnit) -> Seq<Op> {
    seq![octal_write_enable(), spec_erase_command(addr, unit), octal_status_poll()]
}

/// Read template of memory-mapped mode.
pub open spec fn spec_mapped_read() -> crate::transfer::Transfer {
    spec_octal_frame(0xEE11, None, Width::Octal, true, 20)
}

/// Write template of memory-mapped mode.
pub open spec fn spec_mapped_write() -> crate::transfer::Transfer {
    spec_octal_frame(0x12ED, None, Width::Octal, true, 0)
}

/// Plan of `enable_mm` from a handle in `mode`: the activation with the
/// fixed templates, whether or not access is already on.
pub open spec fn spec_enable_mm(mode: BusMode) -> Result<Seq<Op>, FlashError> {
    gated(
        mode,
        BusMode::OctalDoubleRate,
        seq![Op::MapMemory(spec_mapped_read(), spec_mapped_write())],
    )
}

/// Whether memory-mapped access is on after `enable_mm` from `mode`.
pub open spec fn spec_mapped_after_enable(mode: BusMode) -> bool {
    mode == BusMode::OctalDoubleRate
}

/// Plan of `disable_mm`: one deactivation, whether or not access is on
/// (the transport's deactivation is itself idempotent).
pub open spec fn spec_disable_mm() -> Seq<Op> {
    seq![Op::UnmapMemory]
}

/// Memory-mapped access switches idempotently. Turning it on twice in a row
/// in Octal-DTR mode hands the same well-formed templates (Octal-DTR array
/// read with 20 dummy cycles, page program with none) to the transport each
/// time and leaves it on; in SPI mode it is refused and stays off. Turning it
/// off, on or not, issues the one deactivation and leaves it off.
pub proof fn lemma_memory_mapped_idempotent(mode: BusMode)
    ensures
        mode == BusMode::OctalDoubleRate ==> {
            &&& spec_enable_mm(mode) == Ok::<Seq<Op>, FlashError>(
                seq![Op::MapMemory(spec_mapped_read(), spec_mapped_write())],
            )
            &&& spec_mapped_after_enable(mode)
        },
        mode != BusMode::OctalDoubleRate ==> spec_enable_mm(mode) == Err::<Seq<Op>, FlashError>(
            FlashError::ProtocolViolation,
        ) && !spec_mapped_after_enable(mode),
        encoded_for(spec_mapped_read(), BusMode::OctalDoubleRate),
        encoded_for(spec_mapped_write(), BusMode::OctalDoubleRate),
        spec_mapped_read().instruction == Some(0xEE11u32) && spec_mapped_read().dummy == 20
            && spec_mapped_read().ddtr && spec_mapped_read().dwidth == Width::Octal,
        spec_mapped_write().instruction == Some(0x12EDu32) && spec_mapped_write().dummy == 0
            && spec_mapped_write().ddtr && spec_mapped_write().dwidth == Width::Octal,
        spec_disable_mm() == seq![Op::UnmapMemory],
{
}

/// `plan` when the handle is in mode `need`, a protocol violation otherwise.
pub open spec fn gated(mode: BusMode, need: BusMode, plan: Seq<Op>) -> Result<Seq<Op>, FlashError> {
    if mode == need {
        Ok(plan)
    } else {
        Err(FlashError::ProtocolViolation)
    }
}

/// Every register read or write at double rate moves an even number of bytes.
pub open spec fn even_at_double_rate(plan: Seq<Op>) -> bool {
    forall|i: int|
        0 <= i < plan.len() ==> match #[trigger] plan[i] {
            Op::Read(t, n) => t.ddtr ==> n % 2 == 0,
            Op::WaitIdle(t, n) => t.ddtr ==> n % 2 == 0,
            Op::Write(t, d) => t.ddtr ==> d.len() % 2 == 0,
            _ => true,
        }
}

/// Decision after one status read, the `polls`-th (counting from 0): idle
/// once write-in-progress is clear, stuck after `STATUS_POLL_LIMIT` reads.
pub fn poll_status(polls: u32, status: u8) -> (r: PollOutcome)
    ensures
        status & STATUS_WIP == 0 ==> r == PollOutcome::Idle,
        status & STATUS_WIP != 0 && polls + 1 < STATUS_POLL_LIMIT ==> r == PollOutcome::Busy,
        status & STATUS_WIP != 0 && polls + 1 >= STATUS_POLL_LIMIT ==> r == PollOutcome::TimedOut,
{
    if status & STATUS_WIP == 0 {
        PollOutcome::Idle
    } else if polls < STATUS_POLL_LIMIT - 1 {
        PollOutcome::Busy
    } else {
        PollOutcome::TimedOut
    }
}

/// The value of a one-byte register from the bytes read back: the first
/// byte (double-rate reads are padded to two bytes).
pub fn register_value(reply: &[u8]) -> (r: Option<u8>)
    ensures
        reply@.len() > 0 ==> r == Some(reply@[0]),
        reply@.len() == 0 ==> r is None,
{
    if reply.len() > 0 {
        Some(reply[0])
    } else {
        None
    }
}

/// Whether configuration register 2 at address 0 shows Octal-DTR enabled.
pub fn check_octal_enabled(cr2: u8) -> (r: Result<(), FlashError>)
    ensures
        r == (if cr2 & CR2_OCTAL_DTR != 0 {
            Ok(())
        } else {
            Err(FlashError::ModeSwitchFailed)
        }),
{
    if cr2 & CR2_OCTAL_DTR != 0 {
        Ok(())
    } else {
        Err(FlashError::ModeSwitchFailed)
    }
}

/// Handle on one MX25UW25645G chip: the bus mode the chip is in and whether
/// memory-mapped access is on. Each operation checks the mode and returns
/// the plan of bus operations that carries it out.
pub struct OpiFlashMemory {
    mode: BusMode,
    mapped: bool,
}

impl OpiFlashMemory {
    pub closed spec fn spec_mode(&self) -> BusMode {
        self.mode
    }

    pub closed spec fn spec_mapped(&self) -> bool {
        self.mapped
    }

    /// Memory-mapped access exists only in Octal-DTR mode.
    pub open spec fn wf(&self) -> bool {
        self.spec_mapped() ==> self.spec_mode() == BusMode::OctalDoubleRate
    }

    /// A handle on a chip fresh from power-up: single-wire SPI, not mapped.
    pub fn new() -> (r: Self)
        ensures
            r.wf(),
            r.spec_mode() == BusMode::LegacySingleRate,
            !r.spec_mapped(),
    {
        OpiFlashMemory { mode: BusMode::LegacySingleRate, mapped: false }
    }

    pub fn mode(&self) -> (r: BusMode)
        ensures
            r == self.spec_mode(),
    {
        self.mode
    }

    pub fn is_memory_mapped(&self) -> (r: bool)
        ensures
            r == self.spec_mapped(),
    {
        self.mapped
    }

    fn gate(&self, need: BusMode) -> (r: Result<Vec<BusOp>, FlashError>)
        ensures
            plan_result(r) == gated(self.spec_mode(), need, seq![]),
    {
        if self.mode == need {
            let p: Vec<BusOp> = Vec::new();
            assert(plan_view(p@) =~= seq![]);
            Ok(p)
        } else {
            Err(FlashError::ProtocolViolation)
        }
    }

    fn push_legacy_status_poll(p: &mut Vec<BusOp>)
        ensures
            plan_view(final(p)@) == plan_view(old(p)@).push(legacy_status_poll()),
    {
        let t = legacy_register_read(SpiCommand::ReadStatusRegister.opcode());
        push_op(p, BusOp::WaitIdle(t, 1));
    }

    fn push_octal_status_poll(p: &mut Vec<BusOp>)
        ensures
            plan_view(final(p)@) == plan_view(old(p)@).push(octal_status_poll()),
    {
        let t = octal_frame(
            OpiCommand::ReadStatusRegister.opcode(),
            Some(0),
            Width::Octal,
            true,
            DUMMY_CYCLES_REGISTER,
        );
        push_op(p, BusOp::WaitIdle(t, 2));
    }

    fn push_write_enable(p: &mut Vec<BusOp>)
        ensures
            plan_view(final(p)@) == plan_view(old(p)@).push(octal_write_enable()),
    {
        push_op(p, BusOp::Command(octal_command(OpiCommand::WriteEnable.opcode())));
    }

    /// Reset the chip in single-wire SPI mode and wait until it is idle.
    pub fn reset_memory_spi(&self) -> (r: Result<Vec<BusOp>, FlashError>)
        ensures
            plan_result(r) == gated(self.spec_mode(), BusMode::LegacySingleRate, spec_reset_plan()),
    {
        let mut p = self.gate(BusMode::LegacySingleRate)?;
        push_op(&mut p, BusOp::Command(legacy_command(SpiCommand::ResetEnable.opcode())));
        push_op(&mut p, BusOp::Command(legacy_command(SpiCommand::ResetMemory.opcode())));
        Self::push_legacy_status_poll(&mut p);
        assert(plan_view(p@) =~= spec_reset_plan());
        Ok(p)
    }

    /// Read configuration register 2 at `address` in single-wire SPI mode:
    /// one byte.
    pub fn read_cr2_spi(&self, address: u32) -> (r: Result<Vec<BusOp>, FlashError>)
        ensures
            plan_result(r) == gated(
                self.spec_mode(),
                BusMode::LegacySingleRate,
                seq![Op::Read(spec_legacy_addressed(0x71, address), 1)],
            ),
    {
        let mut p = self.gate(BusMode::LegacySingleRate)?;
        let t = legacy_addressed(SpiCommand::ReadConfigurationRegister2.opcode(), address);
        push_op(&mut p, BusOp::Read(t, 1));
        assert(plan_view(p@) =~= seq![Op::Read(spec_legacy_addressed(0x71, address), 1)]);
        Ok(p)
    }

    /// Write configuration register 2 at `address` in single-wire SPI mode:
    /// the one-byte write, then wait until idle. The write enable that the
    /// chip needs first is the caller's to issue.
    pub fn write_cr2_spi(&self, address: u32, value: u8) -> (r: Result<Vec<BusOp>, FlashError>)
        ensures
            plan_result(r) == gated(
                self.spec_mode(),
                BusMode::LegacySingleRate,
                spec_write_cr2_spi_plan(address, value),
            ),
    {
        let mut p = self.gate(BusMode::LegacySingleRate)?;
        let mut data: Vec<u8> = Vec::new();
        data.push(value);
        let t = legacy_addressed(SpiCommand::WriteConfigurationRegister2.opcode(), address);
        push_op(&mut p, BusOp::Write(t, data));
        Self::push_legacy_status_poll(&mut p);
        assert(data@ =~= seq![value]);
        assert(plan_view(p@) =~= spec_write_cr2_spi_plan(address, value));
        Ok(p)
    }

    /// Move the chip into Octal-DTR mode, given the value `cr2` of
    /// configuration register 2 at address 0 read in SPI mode: the plan is a
    /// write enable and the write that sets bit 1 of that register, still in
    /// SPI encoding; from then on the handle is in Octal-DTR mode.
    pub fn switch_to_octal(&mut self, cr2: u8) -> (r: Result<Vec<BusOp>, FlashError>)
        requires
            old(self).wf(),
        ensures
            final(self).wf(),
            plan_result(r) == gated(
                old(self).spec_mode(),
                BusMode::LegacySingleRate,
                spec_switch_plan(cr2),
            ),
            final(self).spec_mode() == BusMode::OctalDoubleRate,
            final(self).spec_mapped() == old(self).spec_mapped(),
    {
        let r = match self.gate(BusMode::LegacySingleRate) {
            Err(e) => Err(e),
            Ok(mut p) => {
                push_op(&mut p, BusOp::Command(legacy_command(SpiCommand::WriteEnable.opcode())));
                let w = self.write_cr2_spi(0, cr2 | CR2_OCTAL_DTR);
                match w {
                    Err(e) => Err(e),
                    Ok(mut rest) => {
                        let ghost head = plan_view(p@);
                        let ghost tail = plan_view(rest@);
                        p.append(&mut rest);
                        assert(plan_view(p@) =~= head + tail);
                        assert(plan_view(p@) =~= spec_switch_plan(cr2));
                        Ok(p)
                    },
                }
            },
        };
        self.mode = BusMode::OctalDoubleRate;
        r
    }

    /// Run one stage of the initialization sequence. `reply` is the
    /// register value read by the stage before (`Switch` and `Confirm` need
    /// it). Returns the stage to run next (the same one after a failure) and
    /// the plan of this one.
    pub fn init_step(&mut self, step: InitStep, reply: Option<u8>) -> (r: (
        InitStep,
        Result<Vec<BusOp>, FlashError>,
    ))
        requires
            old(self).wf(),
        ensures
            final(self).wf(),
            plan_result(r.1) == spec_init_step(old(self).spec_mode(), step, reply),
            r.0 == init_after(old(self).spec_mode(), step, reply),
            final(self).spec_mode() == init_mode_after(old(self).spec_mode(), step, reply),
            final(self).spec_mapped() == old(self).spec_mapped(),
    {
        let res = match step {
            InitStep::Reset => self.reset_memory_spi(),
            InitStep::ReadConfig => self.read_cr2_spi(0),
            InitStep::Switch => match reply {
                Some(cr2) => {
                    if self.mode == BusMode::LegacySingleRate {
                        self.switch_to_octal(cr2)
                    } else {
                        Err(FlashError::ProtocolViolation)
                    }
                },
                None => Err(FlashError::ProtocolViolation),
            },
            InitStep::ReadBack => self.read_cr2(0),
            InitStep::Confirm | InitStep::Done => {
                match self.gate(BusMode::OctalDoubleRate) {
                    Err(e) => Err(e),
                    Ok(p) => if step == InitStep::Done {
                        Ok(p)
                    } else {
                        match reply {
                            Some(cr2) => match check_octal_enabled(cr2) {
                                Ok(()) => Ok(p),
                                Err(e) => Err(e),
                            },
                            None => Err(FlashError::ProtocolViolation),
                        }
                    },
                }
            },
        };
        let next = if res.is_ok() {
            match step {
                InitStep::Reset => InitStep::ReadConfig,
                InitStep::ReadConfig => InitStep::Switch,
                InitStep::Switch => InitStep::ReadBack,
                InitStep::ReadBack => InitStep::Confirm,
                _ => InitStep::Done,
            }
        } else {
            step
        };
        (next, res)
    }

    /// Turn memory-mapped access on, with the Octal-DTR array read (20 dummy
    /// cycles) and page program as templates. The activation is issued on
    /// every call, so a call after a failed activation tries again.
    pub fn enable_mm(&mut self) -> (r: Result<Vec<BusOp>, FlashError>)
        requires
            old(self).wf(),
        ensures
            final(self).wf(),
            final(self).spec_mode() == old(self).spec_mode(),
            plan_result(r) == spec_enable_mm(old(self).spec_mode()),
            final(self).spec_mapped() == spec_mapped_after_enable(old(self).spec_mode()),
    {
        let mut p = self.gate(BusMode::OctalDoubleRate)?;
        let rd = octal_frame(
            OpiCommand::OctaDTRRead.opcode(),
            None,
            Width::Octal,
            true,
            DUMMY_CYCLES_ARRAY_READ,
        );
        let wr = octal_frame(OpiCommand::PageProgram4B.opcode(), None, Width::Octal, true, 0);
        push_op(&mut p, BusOp::MapMemory(rd, wr));
        assert(plan_view(p@) =~= seq![Op::MapMemory(spec_mapped_read(), spec_mapped_write())]);
        self.mapped = true;
        Ok(p)
    }

    /// Turn memory-mapped access off. The deactivation is issued on every
    /// call; leaving a mode that is not on is the transport's no-op.
    pub fn disable_mm(&mut self) -> (r: Vec<BusOp>)
        requires
            old(self).wf(),
        ensures
            final(self).wf(),
            final(self).spec_mode() == old(self).spec_mode(),
            !final(self).spec_mapped(),
            plan_view(r@) == spec_disable_mm(),
    {
        let mut p: Vec<BusOp> = Vec::new();
        push_op(&mut p, BusOp::UnmapMemory);
        assert(plan_view(p@) =~= spec_disable_mm());
        self.mapped = false;
        p
    }

    /// Set the write enable latch.
    pub fn enable_write(&self) -> (r: Result<Vec<BusOp>, FlashError>)
        ensures
            plan_result(r) == gated(
                self.spec_mode(),
                BusMode::OctalDoubleRate,
                seq![octal_write_enable()],
            ),
    {
        let mut p = self.gate(BusMode::OctalDoubleRate)?;
        Self::push_write_enable(&mut p);
        assert(plan_view(p@) =~= seq![octal_write_enable()]);
        Ok(p)
    }

    /// Read the identification: four bytes at single data rate (the
    /// three-byte identification is odd, which double rate cannot carry).
    pub fn read_id(&self) -> (r: Result<Vec<BusOp>, FlashError>)
        ensures
            plan_result(r) == gated(
                self.spec_mode(),
                BusMode::OctalDoubleRate,
                seq![Op::Read(spec_octal_frame(0x9F60, Some(0), Width::Octal, false, 4), 4)],
            ),
    {
        let mut p = self.gate(BusMode::OctalDoubleRate)?;
        let t = octal_frame(
            OpiCommand::ReadIdentification.opcode(),
            Some(0),
            Width::Octal,
            false,
            DUMMY_CYCLES_REGISTER,
        );
        push_op(&mut p, BusOp::Read(t, 4));
        assert(plan_view(p@) =~= seq![
            Op::Read(spec_octal_frame(0x9F60, Some(0), Width::Octal, false, 4), 4),
        ]);
        Ok(p)
    }

    /// Read `len` bytes of the array from `addr` in one Octal-DTR read.
    pub fn read_memory(&self, addr: u32, len: usize) -> (r: Result<Vec<BusOp>, FlashError>)
        ensures
            plan_result(r) == gated(
                self.spec_mode(),
                BusMode::OctalDoubleRate,
                if len == 0 {
                    seq![]
                } else {
                    seq![
                        Op::Read(
                            spec_octal_frame(0xEE11, Some(addr), Width::Octal, true, 20),
                            len as nat,
                        ),
                    ]
                },
            ),
    {
        let mut p = self.gate(BusMode::OctalDoubleRate)?;
        if len > 0 {
            let t = octal_frame(
                OpiCommand::OctaDTRRead.opcode(),
                Some(addr),
                Width::Octal,
                true,
                DUMMY_CYCLES_ARRAY_READ,
            );
            push_op(&mut p, BusOp::Read(t, len));
            assert(plan_view(p@) =~= seq![
                Op::Read(spec_octal_frame(0xEE11, Some(addr), Width::Octal, true, 20), len as nat),
            ]);
        }
        Ok(p)
    }

    /// Erase the unit containing `addr` (the address is ignored for the
    /// whole chip): write enable, the erase command, wait until idle.
    pub fn erase(&self, addr: u32, unit: EraseUnit) -> (r: Result<Vec<BusOp>, FlashError>)
        ensures
            plan_result(r) == gated(
                self.spec_mode(),
                BusMode::OctalDoubleRate,
                spec_erase_plan(addr, unit),
            ),
    {
        let mut p = self.gate(BusMode::OctalDoubleRate)?;
        Self::push_write_enable(&mut p);
        let t = match unit {
            EraseUnit::Sector => octal_frame(
                OpiCommand::SectorErase4B.opcode(),
                Some(addr),
                Width::Absent,
                true,
                0,
            ),
            EraseUnit::Block => octal_frame(
                OpiCommand::BlockErase4B.opcode(),
                Some(addr),
                Width::Absent,
                true,
                0,
            ),
            EraseUnit::Chip => octal_command(OpiCommand::ChipErase.opcode()),
        };
        push_op(&mut p, BusOp::Command(t));
        Self::push_octal_status_poll(&mut p);
        assert(plan_view(p@) =~= spec_erase_plan(addr, unit));
        Ok(p)
    }

    /// Erase the 4 KiB sector containing `addr`.
    pub fn erase_sector(&self, addr: u32) -> (r: Result<Vec<BusOp>, FlashError>)
        ensures
            plan_result(r) == gated(
                self.spec_mode(),
                BusMode::OctalDoubleRate,
                spec_erase_plan(addr, EraseUnit::Sector),
            ),
    {
        self.erase(addr, EraseUnit::Sector)
    }

    /// Erase the 64 KiB block containing `addr`.
    pub fn erase_block_64k(&self, addr: u32) -> (r: Result<Vec<BusOp>, FlashError>)
        ensures
            plan_result(r) == gated(
                self.spec_mode(),
                BusMode::OctalDoubleRate,
                spec_erase_plan(addr, EraseUnit::Block),
            ),
    {
        self.erase(addr, EraseUnit::Block)
    }

    /// Erase the whole chip.
    pub fn erase_chip(&self) -> (r: Result<Vec<BusOp>, FlashError>)
        ensures
            plan_result(r) == gated(
                self.spec_mode(),
                BusMode::OctalDoubleRate,
                spec_erase_plan(0, EraseUnit::Chip),
            ),
    {
        self.erase(0, EraseUnit::Chip)
    }

    fn read_register(&self, opcode: u16, address: u32) -> (r: Result<Vec<BusOp>, FlashError>)
        ensures
            plan_result(r) == gated(
                self.spec_mode(),
                BusMode::OctalDoubleRate,
                seq![Op::Read(spec_octal_frame(opcode, Some(address), Width::Octal, true, 4), 2)],
            ),
    {
        let mut p = self.gate(BusMode::OctalDoubleRate)?;
        let t = octal_frame(opcode, Some(address), Width::Octal, true, DUMMY_CYCLES_REGISTER);
        push_op(&mut p, BusOp::Read(t, 2));
        assert(plan_view(p@) =~= seq![
            Op::Read(spec_octal_frame(opcode, Some(address), Width::Octal, true, 4), 2),
        ]);
        Ok(p)
    }

    fn write_register(&self, opcode: u16, address: u32, first: u8, second: u8) -> (r: Result<
        Vec<BusOp>,
        FlashError,
    >)
        ensures
            plan_result(r) == gated(
                self.spec_mode(),
                BusMode::OctalDoubleRate,
                spec_register_write(opcode, address, first, second),
            ),
    {
        let mut p = self.gate(BusMode::OctalDoubleRate)?;
        Self::push_write_enable(&mut p);
        let mut data: Vec<u8> = Vec::new();
        data.push(first);
        data.push(second);
        let t = octal_frame(opcode, Some(address), Width::Octal, true, 0);
        push_op(&mut p, BusOp::Write(t, data));
        Self::push_octal_status_poll(&mut p);
        assert(data@ =~= seq![first, second]);
        assert(plan_view(p@) =~= spec_register_write(opcode, address, first, second));
        Ok(p)
    }

    /// Read the status register: two bytes at double rate, the first is
    /// the register.
    pub fn read_sr(&self) -> (r: Result<Vec<BusOp>, FlashError>)
        ensures
            plan_result(r) == gated(
                self.spec_mode(),
                BusMode::OctalDoubleRate,
                seq![Op::Read(octal_status_read(), 2)],
            ),
            r matches Ok(p) ==> even_at_double_rate(plan_view(p@)),
    {
        self.read_register(OpiCommand::ReadStatusRegister.opcode(), 0)
    }

    /// Read the configuration register (address 1): two bytes at double
    /// rate, the first is the register.
    pub fn read_cr(&self) -> (r: Result<Vec<BusOp>, FlashError>)
        ensures
            plan_result(r) == gated(
                self.spec_mode(),
                BusMode::OctalDoubleRate,
                seq![Op::Read(spec_octal_frame(0x15EA, Some(1), Width::Octal, true, 4), 2)],
            ),
            r matches Ok(p) ==> even_at_double_rate(plan_view(p@)),
    {
        self.read_register(OpiCommand::ReadConfigurationRegister.opcode(), 1)
    }

    /// Write the status register and the configuration register together.
    pub fn write_sr_cr(&self, sr: u8, cr: u8) -> (r: Result<Vec<BusOp>, FlashError>)
        ensures
            plan_result(r) == gated(
                self.spec_mode(),
                BusMode::OctalDoubleRate,
                spec_register_write(0x01FE, 0, sr, cr),
            ),
            r matches Ok(p) ==> even_at_double_rate(plan_view(p@)),
    {
        self.write_register(OpiCommand::WriteStatusConfigurationRegister.opcode(), 0, sr, cr)
    }

    /// Read configuration register 2 at `address`: two bytes at double
    /// rate, the first is the register.
    pub fn read_cr2(&self, address: u32) -> (r: Result<Vec<BusOp>, FlashError>)
        ensures
            plan_result(r) == gated(
                self.spec_mode(),
                BusMode::OctalDoubleRate,
                seq![Op::Read(spec_read_cr2(address), 2)],
            ),
            r matches Ok(p) ==> even_at_double_rate(plan_view(p@)),
    {
        self.read_register(OpiCommand::ReadConfigurationRegister2.opcode(), address)
    }

    /// Write configuration register 2 at `address`: the byte is widened to
    /// a two-byte word, as double rate needs.
    pub fn write_cr2(&self, address: u32, value: u8) -> (r: Result<Vec<BusOp>, FlashError>)
        ensures
            plan_result(r) == gated(
                self.spec_mode(),
                BusMode::OctalDoubleRate,
                spec_register_write(0x728D, address, value, 0),
            ),
            r matches Ok(p) ==> even_at_double_rate(plan_view(p@)),
    {
        self.write_register(OpiCommand::WriteConfigurationRegister2.opcode(), address, value, 0)
    }

    /// Program `data` within one page at `addr`: write enable, the page
    /// program, wait until idle. A program that would cross the end of the
    /// page is refused before any bus activity; an empty one needs none.
    pub fn write_page(&self, addr: u32, data: &[u8]) -> (r: Result<Vec<BusOp>, FlashError>)
        ensures
            plan_result(r) == (if self.spec_mode() != BusMode::OctalDoubleRate || addr % 256
                + data@.len() > 256 {
                Err(FlashError::ProtocolViolation)
            } else if data@.len() == 0 {
                Ok(seq![])
            } else {
                Ok(spec_page_program(addr as nat, data@))
            }),
    {
        let mut p = self.gate(BusMode::OctalDoubleRate)?;
        if data.len() > MEMORY_PAGE_SIZE - (addr % 256) as usize {
            return Err(FlashError::ProtocolViolation);
        }
        if data.len() > 0 {
            Self::push_page_program(&mut p, addr, data, 0, data.len());
            assert(data@.subrange(0, data@.len() as int) =~= data@);
            assert(plan_view(p@) =~= spec_page_program(addr as nat, data@));
        }
        Ok(p)
    }

    fn push_page_program(p: &mut Vec<BusOp>, addr: u32, data: &[u8], start: usize, n: usize)
        requires
            start + n <= data@.len(),
        ensures
            plan_view(final(p)@) == plan_view(old(p)@) + spec_page_program(
                addr as nat,
                data@.subrange(start as int, start + n),
            ),
    {
        let total = data.len();
        let end: usize = start + n;
        let mut chunk: Vec<u8> = Vec::new();
        let mut i: usize = start;
        while i < end
            invariant
                end == start + n,
                total == data@.len(),
                start <= i <= start + n,
                start + n <= data@.len(),
                chunk@ == data@.subrange(start as int, i as int),
            decreases start + n - i,
        {
            chunk.push(data[i]);
            i = i + 1;
            assert(chunk@ =~= data@.subrange(start as int, i as int));
        }
        Self::push_write_enable(p);
        let t = octal_frame(OpiCommand::PageProgram4B.opcode(), Some(addr), Width::Octal, true, 0);
        push_op(p, BusOp::Write(t, chunk));
        Self::push_octal_status_poll(p);
        assert(plan_view(final(p)@) =~= plan_view(old(p)@) + spec_page_program(
            addr as nat,
            data@.subrange(start as int, start + n),
        ));
    }

    /// Program `data` from `addr`, cut at page boundaries: one page program
    /// per piece, in increasing address order. Data that would run past the
    /// end of the 32-bit address space is refused before any bus activity.
    pub fn write_memory(&self, addr: u32, data: &[u8]) -> (r: Result<Vec<BusOp>, FlashError>)
        ensures
            plan_result(r) == (if self.spec_mode() != BusMode::OctalDoubleRate || addr as nat
                + data@.len() > 0x1_0000_0000 {
                Err(FlashError::ProtocolViolation)
            } else {
                Ok(spec_program_plan(addr as nat, data@))
            }),
    {
        let mut p = self.gate(BusMode::OctalDoubleRate)?;
        let total = data.len();
        if total as u64 > 0x1_0000_0000u64 - addr as u64 {
            return Err(FlashError::ProtocolViolation);
        }
        assert(data@.skip(0) =~= data@);
        assert(plan_view(p@) + spec_program_plan(addr as nat, data@) =~= spec_program_plan(
            addr as nat,
            data@,
        ));
        let mut left: usize = total;
        let mut place: u32 = addr;
        let mut start: usize = 0;
        while left > 0
            invariant
                total == data@.len(),
                start + left == data@.len(),
                left > 0 ==> place as nat + left as nat == addr as nat + data@.len(),
                addr as nat + data@.len() <= 0x1_0000_0000,
                plan_view(p@) + spec_program_plan(place as nat, data@.skip(start as int))
                    == spec_program_plan(addr as nat, data@),
            decreases left,
        {
            let n = chunk_len(place, left);
            proof {
                let rest = data@.skip(start as int);
                assert(rest.len() == left);
                assert(rest.take(n as int) =~= data@.subrange(start as int, start + n));
                assert(rest.skip(n as int) =~= data@.skip(start + n));
            }
            let ghost before = plan_view(p@);
            Self::push_page_program(&mut p, place, data, start, n);
            assert(plan_view(p@) + spec_program_plan((place + n) as nat, data@.skip(start + n))
                =~= before + spec_program_plan(place as nat, data@.skip(start as int)));
            start = start + n;
            left = left - n;
            if left > 0 {
                place = place + n as u32;
            }
        }
        assert(data@.skip(start as int) =~= seq![]);
        assert(plan_view(p@) + seq![] =~= plan_view(p@));
        Ok(p)
    }
}

} // verus!
