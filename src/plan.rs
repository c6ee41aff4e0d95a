use vstd::prelude::*;
use crate::transfer::Transfer;

verus! {

/// One step that the transport performs on the bus.
#[derive(Clone, Debug, PartialEq, Eq)]
pub enum BusOp {
    /// An instruction, possibly with an address, and no data phase.
    Command(Transfer),
    /// A read of the given number of bytes.
    Read(Transfer, usize),
    /// A write of the given bytes.
    Write(Transfer, Vec<u8>),
    /// Repeated status reads of the given number of bytes with this transfer,
    /// each decided by `poll_status`, until the chip is idle.
    WaitIdle(Transfer, usize),
    /// Switch the transport into memory-mapped mode with these read and
    /// write templates.
    MapMemory(Transfer, Transfer),
    /// Leave memory-mapped mode.
    UnmapMemory,
}

/// Mathematical model of a `BusOp`.
pub enum Op {
    Command(Transfer),
    Read(Transfer, nat),
    Write(Transfer, Seq<u8>),
    WaitIdle(Transfer, nat),
    MapMemory(Transfer, Transfer),
    UnmapMemory,
}

impl View for BusOp {
    type V = Op;

    open spec fn view(&self) -> Op {
        match self {
            BusOp::Command(t) => Op::Command(*t),
            BusOp::Read(t, n) => Op::Read(*t, *n as nat),
            BusOp::Write(t, d) => Op::Write(*t, d@),
            BusOp::WaitIdle(t, n) => Op::WaitIdle(*t, *n as nat),
            BusOp::MapMemory(r, w) => Op::MapMemory(*r, *w),
            BusOp::UnmapMemory => Op::UnmapMemory,
        }
    }
}

/// The model of a plan of bus operations.
pub open spec fn plan_view(p: Seq<BusOp>) -> Seq<Op> {
    p.map_values(|o: BusOp| o@)
}

/// Errors of the flash driver.
#[derive(Clone, Copy, Debug, PartialEq, Eq, Structural)]
pub enum FlashError {
    /// The transport reported a bus failure.
    TransportFault,
    /// The operation is not valid in the current bus mode, or its arguments
    /// break the protocol (a page program crossing a page boundary).
    ProtocolViolation,
    /// The chip stayed busy past the polling bound.
    CompletionTimeout,
    /// After the switch to Octal-DTR, configuration register 2 does not
    /// show the mode enabled.
    ModeSwitchFailed,
}

/// The model of a planned operation's outcome.
pub open spec fn plan_result(r: Result<Vec<BusOp>, FlashError>) -> Result<Seq<Op>, FlashError> {
    match r {
        Ok(p) => Ok(plan_view(p@)),
        Err(e) => Err(e),
    }
}

/// Appends `o` to `p`, keeping the model in step.
pub(crate) fn push_op(p: &mut Vec<BusOp>, o: BusOp)
    ensures
        plan_view(final(p)@) == plan_view(old(p)@).push(o@),
{
    p.push(o);
    assert(plan_view(final(p)@) =~= plan_view(old(p)@).push(o@));
}

} // verus!
