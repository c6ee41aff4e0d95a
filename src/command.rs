use vstd::prelude::*;

verus! {

/// Single-wire SPI commands, used only to reset the chip and move it into
/// Octal-DTR mode. Each opcode is one byte.
#[derive(Clone, Copy, Debug, PartialEq, Eq, Structural)]
pub enum SpiCommand {
    /// Set the Write Enable Latch.
    WriteEnable,
    /// Enable reset (must precede `ResetMemory`).
    ResetEnable,
    /// Reset the device to its power-on state.
    ResetMemory,
    /// Read the 3-byte identification.
    ReadIdentification,
    /// Read the status register.
    ReadStatusRegister,
    /// Read configuration register 2 at a 4-byte address.
    ReadConfigurationRegister2,
    /// Write configuration register 2 at a 4-byte address.
    WriteConfigurationRegister2,
}

impl SpiCommand {
    pub open spec fn spec_opcode(self) -> u8 {
        match self {
            SpiCommand::WriteEnable => 0x06,
            SpiCommand::ResetEnable => 0x66,
            SpiCommand::ResetMemory => 0x99,
            SpiCommand::ReadIdentification => 0x9F,
            SpiCommand::ReadStatusRegister => 0x05,
            SpiCommand::ReadConfigurationRegister2 => 0x71,
            SpiCommand::WriteConfigurationRegister2 => 0x72,
        }
    }

    /// The one-byte wire opcode.
    pub fn opcode(self) -> (r: u8)
        ensures
            r == self.spec_opcode(),
    {
        match self {
            SpiCommand::WriteEnable => 0x06,
            SpiCommand::ResetEnable => 0x66,
            SpiCommand::ResetMemory => 0x99,
            SpiCommand::ReadIdentification => 0x9F,
            SpiCommand::ReadStatusRegister => 0x05,
            SpiCommand::ReadConfigurationRegister2 => 0x71,
            SpiCommand::WriteConfigurationRegister2 => 0x72,
        }
    }
}

/// Octal-SPI commands. Each opcode is two bytes: the command byte followed by
/// its complement.
#[derive(Clone, Copy, Debug, PartialEq, Eq, Structural)]
pub enum OpiCommand {
    /// Read with 8 I/O lines in STR mode.
    OctaRead,
    /// Read with 8 I/O lines in DTR mode.
    OctaDTRRead,
    /// Program 1 to 256 bytes at a 4-byte address.
    PageProgram4B,
    /// Erase a 4 KiB sector at a 4-byte address.
    SectorErase4B,
    /// Erase a 64 KiB block at a 4-byte address.
    BlockErase4B,
    /// Erase the whole chip (only if no block is protected).
    ChipErase,
    /// Read the 256-byte page buffer.
    ReadBuffer,
    /// Start an interruptible write-to-buffer sequence.
    WriteBufferInitial,
    /// Continue a write-to-buffer sequence.
    WriteBufferContinue,
    /// Commit the page buffer to the array.
    WriteBufferConfirm,
    /// Set the Write Enable Latch.
    WriteEnable,
    /// Clear the Write Enable Latch.
    WriteDisable,
    /// Select the write protection mode (one-time programmable).
    WriteProtectSelection,
    /// Suspend a program or erase.
    ProgramEraseSuspend,
    /// Resume a suspended program or erase.
    ProgramEraseResume,
    /// Enter deep power-down.
    DeepPowerDown,
    /// Leave deep power-down.
    ReleaseFromDeepPowerDown,
    /// No operation.
    NoOperation,
    /// Enable reset (must precede `ResetMemory`).
    ResetEnable,
    /// Reset the device, clearing volatile settings.
    ResetMemory,
    /// Protect all sectors through the dynamic protection bits.
    GangBlockLock,
    /// Unprotect all sectors through the dynamic protection bits.
    GangBlockUnlock,
    /// Read the 3-byte identification.
    ReadIdentification,
    /// Read the SFDP table.
    ReadSFDP,
    /// Read the status register.
    ReadStatusRegister,
    /// Read the configuration register (address 1).
    ReadConfigurationRegister,
    /// Write the status register (address 0) or configuration register (address 1).
    WriteStatusConfigurationRegister,
    /// Read configuration register 2 at a 4-byte address.
    ReadConfigurationRegister2,
    /// Write configuration register 2 at a 4-byte address.
    WriteConfigurationRegister2,
    /// Read the security register.
    ReadSecurityRegister,
    /// Write the security register.
    WriteSecurityRegister,
    /// Set the burst (wrap) length of reads.
    SetBurstLength,
    /// Read the fast boot register.
    ReadFastBootRegister,
    /// Write the fast boot register.
    WriteFastBootRegister,
    /// Erase the fast boot register.
    EraseFastBootRegister,
    /// Enter the secured OTP area.
    EnterSecuredOTP,
    /// Leave the secured OTP area.
    ExitSecuredOTP,
    /// Write the lock register.
    WriteLockRegister,
    /// Read the lock register.
    ReadLockRegister,
    /// Program a solid protection bit.
    WriteSPB,
    /// Erase all solid protection bits.
    EraseSPB,
    /// Read a solid protection bit.
    ReadSPB,
    /// Write a dynamic protection bit.
    WriteDPB,
    /// Read a dynamic protection bit.
    ReadDPB,
    /// Read the password register.
    ReadPassword,
    /// Write the password register.
    WritePassword,
    /// Unlock solid protection bit operations with the password.
    PasswordUnlock,
}

impl OpiCommand {
    pub open spec fn spec_opcode(self) -> u16 {
        match self {
            OpiCommand::OctaRead => 0xEC13,
            OpiCommand::OctaDTRRead => 0xEE11,
            OpiCommand::PageProgram4B => 0x12ED,
            OpiCommand::SectorErase4B => 0x21DE,
            OpiCommand::BlockErase4B => 0xDC23,
            OpiCommand::ChipErase => 0x609F,
            OpiCommand::ReadBuffer => 0x25DA,
            OpiCommand::WriteBufferInitial => 0x22DD,
            OpiCommand::WriteBufferContinue => 0x24DB,
            OpiCommand::WriteBufferConfirm => 0x31CE,
            OpiCommand::WriteEnable => 0x06F9,
            OpiCommand::WriteDisable => 0x04FB,
            OpiCommand::WriteProtectSelection => 0x6897,
            OpiCommand::ProgramEraseSuspend => 0xB04F,
            OpiCommand::ProgramEraseResume => 0x30CF,
            OpiCommand::DeepPowerDown => 0xB946,
            OpiCommand::ReleaseFromDeepPowerDown => 0xAB54,
            OpiCommand::NoOperation => 0x00FF,
            OpiCommand::ResetEnable => 0x6699,
            OpiCommand::ResetMemory => 0x9966,
            OpiCommand::GangBlockLock => 0x7E81,
            OpiCommand::GangBlockUnlock => 0x9867,
            OpiCommand::ReadIdentification => 0x9F60,
            OpiCommand::ReadSFDP => 0x5AA5,
            OpiCommand::ReadStatusRegister => 0x05FA,
            OpiCommand::ReadConfigurationRegister => 0x15EA,
            OpiCommand::WriteStatusConfigurationRegister => 0x01FE,
            OpiCommand::ReadConfigurationRegister2 => 0x718E,
            OpiCommand::WriteConfigurationRegister2 => 0x728D,
            OpiCommand::ReadSecurityRegister => 0x2BD4,
            OpiCommand::WriteSecurityRegister => 0x2FD0,
            OpiCommand::SetBurstLength => 0xC03F,
            OpiCommand::ReadFastBootRegister => 0x16E9,
            OpiCommand::WriteFastBootRegister => 0x17E8,
            OpiCommand::EraseFastBootRegister => 0x18E7,
            OpiCommand::EnterSecuredOTP => 0xB14E,
            OpiCommand::ExitSecuredOTP => 0xC13E,
            OpiCommand::WriteLockRegister => 0x2CD3,
            OpiCommand::ReadLockRegister => 0x2DD2,
            OpiCommand::WriteSPB => 0xE31C,
            OpiCommand::EraseSPB => 0xE41B,
            OpiCommand::ReadSPB => 0xE21D,
            OpiCommand::WriteDPB => 0xE11E,
            OpiCommand::ReadDPB => 0xE01F,
            OpiCommand::ReadPassword => 0x27D8,
            OpiCommand::WritePassword => 0x28D7,
            OpiCommand::PasswordUnlock => 0x29D6,
        }
    }

    /// The two-byte wire opcode.
    pub fn opcode(self) -> (r: u16)
        ensures
            r == self.spec_opcode(),
    {
        match self {
            OpiCommand::OctaRead => 0xEC13,
            OpiCommand::OctaDTRRead => 0xEE11,
            OpiCommand::PageProgram4B => 0x12ED,
            OpiCommand::SectorErase4B => 0x21DE,
            OpiCommand::BlockErase4B => 0xDC23,
            OpiCommand::ChipErase => 0x609F,
            OpiCommand::ReadBuffer => 0x25DA,
            OpiCommand::WriteBufferInitial => 0x22DD,
            OpiCommand::WriteBufferContinue => 0x24DB,
            OpiCommand::WriteBufferConfirm => 0x31CE,
            OpiCommand::WriteEnable => 0x06F9,
            OpiCommand::WriteDisable => 0x04FB,
            OpiCommand::WriteProtectSelection => 0x6897,
            OpiCommand::ProgramEraseSuspend => 0xB04F,
            OpiCommand::ProgramEraseResume => 0x30CF,
            OpiCommand::DeepPowerDown => 0xB946,
            OpiCommand::ReleaseFromDeepPowerDown => 0xAB54,
            OpiCommand::NoOperation => 0x00FF,
            OpiCommand::ResetEnable => 0x6699,
            OpiCommand::ResetMemory => 0x9966,
            OpiCommand::GangBlockLock => 0x7E81,
            OpiCommand::GangBlockUnlock => 0x9867,
            OpiCommand::ReadIdentification => 0x9F60,
            OpiCommand::ReadSFDP => 0x5AA5,
            OpiCommand::ReadStatusRegister => 0x05FA,
            OpiCommand::ReadConfigurationRegister => 0x15EA,
            OpiCommand::WriteStatusConfigurationRegister => 0x01FE,
            OpiCommand::ReadConfigurationRegister2 => 0x718E,
            OpiCommand::WriteConfigurationRegister2 => 0x728D,
            OpiCommand::ReadSecurityRegister => 0x2BD4,
            OpiCommand::WriteSecurityRegister => 0x2FD0,
            OpiCommand::SetBurstLength => 0xC03F,
            OpiCommand::ReadFastBootRegister => 0x16E9,
            OpiCommand::WriteFastBootRegister => 0x17E8,
            OpiCommand::EraseFastBootRegister => 0x18E7,
            OpiCommand::EnterSecuredOTP => 0xB14E,
            OpiCommand::ExitSecuredOTP => 0xC13E,
            OpiCommand::WriteLockRegister => 0x2CD3,
            OpiCommand::ReadLockRegister => 0x2DD2,
            OpiCommand::WriteSPB => 0xE31C,
            OpiCommand::EraseSPB => 0xE41B,
            OpiCommand::ReadSPB => 0xE21D,
            OpiCommand::WriteDPB => 0xE11E,
            OpiCommand::ReadDPB => 0xE01F,
            OpiCommand::ReadPassword => 0x27D8,
            OpiCommand::WritePassword => 0x28D7,
            OpiCommand::PasswordUnlock => 0x29D6,
        }
    }
}

/// Output driver strength of configuration register 2, as resistances in
/// ohms for the BGA package.
#[derive(Clone, Copy, Debug, PartialEq, Eq, Structural)]
pub enum OutputDriveStrength {
    R146,
    R76,
    R52,
    R41,
    R34,
    R30,
    R26,
    R24,
}

impl OutputDriveStrength {
    pub open spec fn spec_bits(self) -> u8 {
        match self {
            OutputDriveStrength::R146 => 0x00,
            OutputDriveStrength::R76 => 0x01,
            OutputDriveStrength::R52 => 0x02,
            OutputDriveStrength::R41 => 0x03,
            OutputDriveStrength::R34 => 0x04,
            OutputDriveStrength::R30 => 0x05,
            OutputDriveStrength::R26 => 0x06,
            OutputDriveStrength::R24 => 0x07,
        }
    }

    /// The register field value of this strength.
    pub fn bits(self) -> (r: u8)
        ensures
            r == self.spec_bits(),
            r < 8,
    {
        match self {
            OutputDriveStrength::R146 => 0x00,
            OutputDriveStrength::R76 => 0x01,
            OutputDriveStrength::R52 => 0x02,
            OutputDriveStrength::R41 => 0x03,
            OutputDriveStrength::R34 => 0x04,
            OutputDriveStrength::R30 => 0x05,
            OutputDriveStrength::R26 => 0x06,
            OutputDriveStrength::R24 => 0x07,
        }
    }
}

} // verus!
