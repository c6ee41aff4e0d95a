use vstd::prelude::*;

verus! {

/// Number of lanes that carry one phase of a transfer.
#[derive(Clone, Copy, Debug, PartialEq, Eq, Structural)]
pub enum Width {
    /// The phase is absent.
    Absent,
    Single,
    Dual,
    Quad,
    Octal,
}

/// Size of the instruction or address field.
#[derive(Clone, Copy, Debug, PartialEq, Eq, Structural)]
pub enum FieldSize {
    Bits8,
    Bits16,
    Bits24,
    Bits32,
}

/// Full description of one bus transaction: the instruction, address and
/// data phases (each with its width and rate) and the dummy cycles between
/// address and data. Phases not listed here (alternate bytes, DQS) are
/// never used by this chip's protocol.
#[derive(Clone, Copy, Debug, PartialEq, Eq, Structural)]
pub struct Transfer {
    pub iwidth: Width,
    pub instruction: Option<u32>,
    pub isize: FieldSize,
    pub idtr: bool,
    pub adwidth: Width,
    pub address: Option<u32>,
    pub adsize: FieldSize,
    pub addtr: bool,
    pub dwidth: Width,
    pub ddtr: bool,
    pub dummy: u8,
}

/// Dummy cycles before register data in Octal-DTR mode.
pub const DUMMY_CYCLES_REGISTER: u8 = 4;

/// Dummy cycles before array data in Octal-DTR mode (200 MHz default).
pub const DUMMY_CYCLES_ARRAY_READ: u8 = 20;

/// A single-wire instruction with no address or data.
pub open spec fn spec_legacy_command(opcode: u8) -> Transfer {
    Transfer {
        iwidth: Width::Single,
        instruction: Some(opcode as u32),
        isize: FieldSize::Bits8,
        idtr: false,
        adwidth: Width::Absent,
        address: None,
        adsize: FieldSize::Bits8,
        addtr: false,
        dwidth: Width::Absent,
        ddtr: false,
        dummy: 0,
    }
}

/// A single-wire register read: instruction then data, no address.
pub open spec fn spec_legacy_register_read(opcode: u8) -> Transfer {
    Transfer { dwidth: Width::Single, ..spec_legacy_command(opcode) }
}

/// A single-wire transfer with a 32-bit address and a data phase.
pub open spec fn spec_legacy_addressed(opcode: u8, address: u32) -> Transfer {
    Transfer {
        adwidth: Width::Single,
        address: Some(address),
        adsize: FieldSize::Bits32,
        dwidth: Width::Single,
        ..spec_legacy_command(opcode)
    }
}

/// A two-byte double-rate instruction on eight lanes, with nothing after it.
pub open spec fn spec_octal_command(opcode: u16) -> Transfer {
    Transfer {
        iwidth: Width::Octal,
        instruction: Some(opcode as u32),
        isize: FieldSize::Bits16,
        idtr: true,
        adwidth: Width::Absent,
        address: None,
        adsize: FieldSize::Bits8,
        addtr: false,
        dwidth: Width::Absent,
        ddtr: false,
        dummy: 0,
    }
}

/// A two-byte double-rate instruction and a 32-bit double-rate address on
/// eight lanes, followed by `dummy` cycles and a data phase of the given
/// width and rate.
pub open spec fn spec_octal_frame(
    opcode: u16,
    address: Option<u32>,
    dwidth: Width,
    ddtr: bool,
    dummy: u8,
) -> Transfer {
    Transfer {
        iwidth: Width::Octal,
        instruction: Some(opcode as u32),
        isize: FieldSize::Bits16,
        idtr: true,
        adwidth: Width::Octal,
        address,
        adsize: FieldSize::Bits32,
        addtr: true,
        dwidth,
        ddtr,
        dummy,
    }
}

pub fn legacy_command(opcode: u8) -> (t: Transfer)
    ensures
        t == spec_legacy_command(opcode),
{
    Transfer {
        iwidth: Width::Single,
        instruction: Some(opcode as u32),
        isize: FieldSize::Bits8,
        idtr: false,
        adwidth: Width::Absent,
        address: None,
        adsize: FieldSize::Bits8,
        addtr: false,
        dwidth: Width::Absent,
        ddtr: false,
        dummy: 0,
    }
}

pub fn legacy_register_read(opcode: u8) -> (t: Transfer)
    ensures
        t == spec_legacy_register_read(opcode),
{
    Transfer { dwidth: Width::Single, ..legacy_command(opcode) }
}

pub fn legacy_addressed(opcode: u8, address: u32) -> (t: Transfer)
    ensures
        t == spec_legacy_addressed(opcode, address),
{
    Transfer {
        adwidth: Width::Single,
        address: Some(address),
        adsize: FieldSize::Bits32,
        dwidth: Width::Single,
        ..legacy_command(opcode)
    }
}

pub fn octal_command(opcode: u16) -> (t: Transfer)
    ensures
        t == spec_octal_command(opcode),
{
    Transfer {
        iwidth: Width::Octal,
        instruction: Some(opcode as u32),
        isize: FieldSize::Bits16,
        idtr: true,
        adwidth: Width::Absent,
        address: None,
        adsize: FieldSize::Bits8,
        addtr: false,
        dwidth: Width::Absent,
        ddtr: false,
        dummy: 0,
    }
}

pub fn octal_frame(opcode: u16, address: Option<u32>, dwidth: Width, ddtr: bool, dummy: u8) -> (t:
    Transfer)
    ensures
        t == spec_octal_frame(opcode, address, dwidth, ddtr, dummy),
{
    Transfer {
        iwidth: Width::Octal,
        instruction: Some(opcode as u32),
        isize: FieldSize::Bits16,
        idtr: true,
        adwidth: Width::Octal,
        address,
        adsize: FieldSize::Bits32,
        addtr: true,
        dwidth,
        ddtr,
        dummy,
    }
}

} // verus!
