//! Command set of the Micron MT25QL512ABB serial NOR flash.

use vstd::prelude::*;

verus! {

/// Instructions of the MT25QL512ABB, as listed in its data sheet.
#[derive(Clone, Copy, Debug, PartialEq, Eq, Structural)]
pub enum Cmds {
    // Software RESET Operations
    ResetEnable,
    ResetMemory,
    // READ ID Operations
    ReadId,
    ReadIdAlternative,
    MultipleIOReadId,
    ReadSerialFlashDiscoveryParameter,
    // READ MEMORY Operations
    Read,
    FastRead,
    DualOutputFastRead,
    DualInputOutputFastRead,
    QuadOutputFastRead,
    QuadInputOutputFastRead,
    DtrFastRead,
    DtrDualOutputFastRead,
    DtrDualInputOutputFastRead,
    DtrQuadOutputFastRead,
    DtrQuadInputOutputFastRead,
    QuadInputOutputWordRead,
    // READ MEMORY Operations with FOUR-BYTE Address
    FourByteRead,
    FourByteFastRead,
    FourByteDualOutputFastRead,
    FourByteDualInputOutputFastRead,
    FourByteQuadOutputFastRead,
    FourByteQuadInputOutputFastRead,
    FourByteDtrFastRead,
    FourByteDtrDualInputOutputFastRead,
    FourByteDtrQuadInputOutputFastRead,
    // WRITE Operations
    WriteEnable,
    WriteDisable,
    // READ REGISTER Operations
    ReadStatusRegister,
    ReadFlagStatusRegister,
    ReadNonvolatileConfiguRationRegister,
    ReadVolatileConfigurationregister,
    ReadEnhancedVolatileConFigurationRegister,
    ReadExtendedAddressRegIster,
    ReadGeneralPurposeReadRegister,
    // WRITE REGISTER Operations
    WriteStatusRegister,
    WriteNonvolatileConfiguRationRegister,
    WriteVolatileConfiguraTionRegister,
    WriteEnhancedVolatileConfigurationRegister,
    WriteExtendedAddressRegIster,
    // CLEAR FLAG STATUS REGISTER Operation
    ClearFlagStatusRegister,
    // PROGRAM Operations
    PageProgram,
    DualInputFastProgram,
    ExtendedDualInputFastProgram,
    QuadInputFastProgram,
    ExtendedQuadInputFastProgram,
    // PROGRAM Operations with FOUR-BYTE Address
    FourBytePageProgram,
    FourByteQuadInputFastProGram,
    FourByteQuadInputExtendedFastProgram,
    // ERASE Operations
    Subsector32KbErase,
    Subsector4KbErase,
    SectorErase,
    BulkErase,
    BulkEraseAlternative,
    // ERASE Operations with FOUR-BYTE Address
    FourByteSectorErase,
    FourByte4KbSubsectorErase,
    FourByte32KbSubsectorErase,
    // SUSPEND/RESUME Operations
    ProgramEraseSuspend,
    ProgramEraseResume,
    // ONE-TIME PROGRAMMABLE (OTP) Operations
    ReadOtpArray,
    ProgramOtpArray,
    // FOUR-BYTE ADDRESS MODE Operations
    EnterFourByteAddressMode,
    ExitFourByteAddressMode,
    // QUAD PROTOCOL Operations
    EnterQuadInputOutputMode,
    ResetQuadInputOutputMode,
    // Deep Power-Down Operations
    EnterDeepPowerDown,
    ReleaseFromDeepPowerDown,
    // ADVANCED SECTOR PROTECTION Operations
    ReadSectorProtection,
    ProgramSectorProtection,
    ReadVolatileLockBits,
    WriteVolatileLockBits,
    ReadNonvolatileLockBits,
    WriteNonvolatileLockBits,
    EraseNonvolatileLockBits,
    ReadGlobalFreezeBit,
    WriteGlobalFreezeBit,
    ReadPassword,
    WritePassword,
    UnlockPassword,
    // ADVANCED SECTOR PROTECTION Operations with FOUR-BYTE Address
    FourByteReadVolatileLockBits,
    FourByteWriteVolatileLockBits,
    // ADVANCED FUNCTION INTERFACE Operations
    InterfaceActivation,
}

impl Cmds {
    /// The instruction byte that the chip expects for this command.
    pub open spec fn opcode_spec(self) -> u8 {
        match self {
            Cmds::ResetEnable => 0x66,
            Cmds::ResetMemory => 0x99,
            Cmds::ReadId => 0x9E,
            Cmds::ReadIdAlternative => 0x9F,
            Cmds::MultipleIOReadId => 0xAF,
            Cmds::ReadSerialFlashDiscoveryParameter => 0x5A,
            Cmds::Read => 0x03,
            Cmds::FastRead => 0x0B,
            Cmds::DualOutputFastRead => 0x3B,
            Cmds::DualInputOutputFastRead => 0xBB,
            Cmds::QuadOutputFastRead => 0x6B,
            Cmds::QuadInputOutputFastRead => 0xEB,
            Cmds::DtrFastRead => 0x0D,
            Cmds::DtrDualOutputFastRead => 0x3D,
            Cmds::DtrDualInputOutputFastRead => 0xBD,
            Cmds::DtrQuadOutputFastRead => 0x6D,
            Cmds::DtrQuadInputOutputFastRead => 0xED,
            Cmds::QuadInputOutputWordRead => 0xE7,
            Cmds::FourByteRead => 0x13,
            Cmds::FourByteFastRead => 0x0C,
            Cmds::FourByteDualOutputFastRead => 0x3C,
            Cmds::FourByteDualInputOutputFastRead => 0xBC,
            Cmds::FourByteQuadOutputFastRead => 0x6C,
            Cmds::FourByteQuadInputOutputFastRead => 0xEC,
            Cmds::FourByteDtrFastRead => 0x0E,
            Cmds::FourByteDtrDualInputOutputFastRead => 0xBE,
            Cmds::FourByteDtrQuadInputOutputFastRead => 0xEE,
            Cmds::WriteEnable => 0x06,
            Cmds::WriteDisable => 0x04,
            Cmds::ReadStatusRegister => 0x05,
            Cmds::ReadFlagStatusRegister => 0x70,
            Cmds::ReadNonvolatileConfiguRationRegister => 0xB5,
            Cmds::ReadVolatileConfigurationregister => 0x85,
            Cmds::ReadEnhancedVolatileConFigurationRegister => 0x65,
            Cmds::ReadExtendedAddressRegIster => 0xC8,
            Cmds::ReadGeneralPurposeReadRegister => 0x96,
            Cmds::WriteStatusRegister => 0x01,
            Cmds::WriteNonvolatileConfiguRationRegister => 0xB1,
            Cmds::WriteVolatileConfiguraTionRegister => 0x81,
            Cmds::WriteEnhancedVolatileConfigurationRegister => 0x61,
            Cmds::WriteExtendedAddressRegIster => 0xC5,
            Cmds::ClearFlagStatusRegister => 0x50,
            Cmds::PageProgram => 0x02,
            Cmds::DualInputFastProgram => 0xA2,
            Cmds::ExtendedDualInputFastProgram => 0xD2,
            Cmds::QuadInputFastProgram => 0x32,
            Cmds::ExtendedQuadInputFastProgram => 0x38,
            Cmds::FourBytePageProgram => 0x12,
            Cmds::FourByteQuadInputFastProGram => 0x34,
            Cmds::FourByteQuadInputExtendedFastProgram => 0x3E,
            Cmds::Subsector32KbErase => 0x52,
            Cmds::Subsector4KbErase => 0x20,
            Cmds::SectorErase => 0xD8,
            Cmds::BulkErase => 0xC7,
            Cmds::BulkEraseAlternative => 0x60,
            Cmds::FourByteSectorErase => 0xDC,
            Cmds::FourByte4KbSubsectorErase => 0x21,
            Cmds::FourByte32KbSubsectorErase => 0x5C,
            Cmds::ProgramEraseSuspend => 0x75,
            Cmds::ProgramEraseResume => 0x7A,
            Cmds::ReadOtpArray => 0x4B,
            Cmds::ProgramOtpArray => 0x42,
            Cmds::EnterFourByteAddressMode => 0xB7,
            Cmds::ExitFourByteAddressMode => 0xE9,
            Cmds::EnterQuadInputOutputMode => 0x35,
            Cmds::ResetQuadInputOutputMode => 0xF5,
            Cmds::EnterDeepPowerDown => 0xB9,
            Cmds::ReleaseFromDeepPowerDown => 0xAB,
            Cmds::ReadSectorProtection => 0x2D,
            Cmds::ProgramSectorProtection => 0x2C,
            Cmds::ReadVolatileLockBits => 0xE8,
            Cmds::WriteVolatileLockBits => 0xE5,
            Cmds::ReadNonvolatileLockBits => 0xE2,
            Cmds::WriteNonvolatileLockBits => 0xE3,
            Cmds::EraseNonvolatileLockBits => 0xE4,
            Cmds::ReadGlobalFreezeBit => 0xA7,
            Cmds::WriteGlobalFreezeBit => 0xA6,
            Cmds::ReadPassword => 0x27,
            Cmds::WritePassword => 0x28,
            Cmds::UnlockPassword => 0x29,
            Cmds::FourByteReadVolatileLockBits => 0xE0,
            Cmds::FourByteWriteVolatileLockBits => 0xE1,
            Cmds::InterfaceActivation => 0x9B,
        }
    }

    /// The instruction byte sent on the bus for this command.
    pub fn opcode(self) -> (r: u8)
        ensures
            r == self.opcode_spec(),
    {
        match self {
            Cmds::ResetEnable => 0x66,
            Cmds::ResetMemory => 0x99,
            Cmds::ReadId => 0x9E,
            Cmds::ReadIdAlternative => 0x9F,
            Cmds::MultipleIOReadId => 0xAF,
            Cmds::ReadSerialFlashDiscoveryParameter => 0x5A,
            Cmds::Read => 0x03,
            Cmds::FastRead => 0x0B,
            Cmds::DualOutputFastRead => 0x3B,
            Cmds::DualInputOutputFastRead => 0xBB,
            Cmds::QuadOutputFastRead => 0x6B,
            Cmds::QuadInputOutputFastRead => 0xEB,
            Cmds::DtrFastRead => 0x0D,
            Cmds::DtrDualOutputFastRead => 0x3D,
            Cmds::DtrDualInputOutputFastRead => 0xBD,
            Cmds::DtrQuadOutputFastRead => 0x6D,
            Cmds::DtrQuadInputOutputFastRead => 0xED,
            Cmds::QuadInputOutputWordRead => 0xE7,
            Cmds::FourByteRead => 0x13,
            Cmds::FourByteFastRead => 0x0C,
            Cmds::FourByteDualOutputFastRead => 0x3C,
            Cmds::FourByteDualInputOutputFastRead => 0xBC,
            Cmds::FourByteQuadOutputFastRead => 0x6C,
            Cmds::FourByteQuadInputOutputFastRead => 0xEC,
            Cmds::FourByteDtrFastRead => 0x0E,
            Cmds::FourByteDtrDualInputOutputFastRead => 0xBE,
            Cmds::FourByteDtrQuadInputOutputFastRead => 0xEE,
            Cmds::WriteEnable => 0x06,
            Cmds::WriteDisable => 0x04,
            Cmds::ReadStatusRegister => 0x05,
            Cmds::ReadFlagStatusRegister => 0x70,
            Cmds::ReadNonvolatileConfiguRationRegister => 0xB5,
            Cmds::ReadVolatileConfigurationregister => 0x85,
            Cmds::ReadEnhancedVolatileConFigurationRegister => 0x65,
            Cmds::ReadExtendedAddressRegIster => 0xC8,
            Cmds::ReadGeneralPurposeReadRegister => 0x96,
            Cmds::WriteStatusRegister => 0x01,
            Cmds::WriteNonvolatileConfiguRationRegister => 0xB1,
            Cmds::WriteVolatileConfiguraTionRegister => 0x81,
            Cmds::WriteEnhancedVolatileConfigurationRegister => 0x61,
            Cmds::WriteExtendedAddressRegIster => 0xC5,
            Cmds::ClearFlagStatusRegister => 0x50,
            Cmds::PageProgram => 0x02,
            Cmds::DualInputFastProgram => 0xA2,
            Cmds::ExtendedDualInputFastProgram => 0xD2,
            Cmds::QuadInputFastProgram => 0x32,
            Cmds::ExtendedQuadInputFastProgram => 0x38,
            Cmds::FourBytePageProgram => 0x12,
            Cmds::FourByteQuadInputFastProGram => 0x34,
            Cmds::FourByteQuadInputExtendedFastProgram => 0x3E,
            Cmds::Subsector32KbErase => 0x52,
            Cmds::Subsector4KbErase => 0x20,
            Cmds::SectorErase => 0xD8,
            Cmds::BulkErase => 0xC7,
            Cmds::BulkEraseAlternative => 0x60,
            Cmds::FourByteSectorErase => 0xDC,
            Cmds::FourByte4KbSubsectorErase => 0x21,
            Cmds::FourByte32KbSubsectorErase => 0x5C,
            Cmds::ProgramEraseSuspend => 0x75,
            Cmds::ProgramEraseResume => 0x7A,
            Cmds::ReadOtpArray => 0x4B,
            Cmds::ProgramOtpArray => 0x42,
            Cmds::EnterFourByteAddressMode => 0xB7,
            Cmds::ExitFourByteAddressMode => 0xE9,
            Cmds::EnterQuadInputOutputMode => 0x35,
            Cmds::ResetQuadInputOutputMode => 0xF5,
            Cmds::EnterDeepPowerDown => 0xB9,
            Cmds::ReleaseFromDeepPowerDown => 0xAB,
            Cmds::ReadSectorProtection => 0x2D,
            Cmds::ProgramSectorProtection => 0x2C,
            Cmds::ReadVolatileLockBits => 0xE8,
            Cmds::WriteVolatileLockBits => 0xE5,
            Cmds::ReadNonvolatileLockBits => 0xE2,
            Cmds::WriteNonvolatileLockBits => 0xE3,
            Cmds::EraseNonvolatileLockBits => 0xE4,
            Cmds::ReadGlobalFreezeBit => 0xA7,
            Cmds::WriteGlobalFreezeBit => 0xA6,
            Cmds::ReadPassword => 0x27,
            Cmds::WritePassword => 0x28,
            Cmds::UnlockPassword => 0x29,
            Cmds::FourByteReadVolatileLockBits => 0xE0,
            Cmds::FourByteWriteVolatileLockBits => 0xE1,
            Cmds::InterfaceActivation => 0x9B,
        }
    }
}

/// The command whose instruction byte is `b`, if any.
pub open spec fn command_with_opcode(b: u8) -> Option<Cmds> {
    match b {
        0x66 => Some(Cmds::ResetEnable),
        0x99 => Some(Cmds::ResetMemory),
        0x9E => Some(Cmds::ReadId),
        0x9F => Some(Cmds::ReadIdAlternative),
        0xAF => Some(Cmds::MultipleIOReadId),
        0x5A => Some(Cmds::ReadSerialFlashDiscoveryParameter),
        0x03 => Some(Cmds::Read),
        0x0B => Some(Cmds::FastRead),
        0x3B => Some(Cmds::DualOutputFastRead),
        0xBB => Some(Cmds::DualInputOutputFastRead),
        0x6B => Some(Cmds::QuadOutputFastRead),
        0xEB => Some(Cmds::QuadInputOutputFastRead),
        0x0D => Some(Cmds::DtrFastRead),
        0x3D => Some(Cmds::DtrDualOutputFastRead),
        0xBD => Some(Cmds::DtrDualInputOutputFastRead),
        0x6D => Some(Cmds::DtrQuadOutputFastRead),
        0xED => Some(Cmds::DtrQuadInputOutputFastRead),
        0xE7 => Some(Cmds::QuadInputOutputWordRead),
        0x13 => Some(Cmds::FourByteRead),
        0x0C => Some(Cmds::FourByteFastRead),
        0x3C => Some(Cmds::FourByteDualOutputFastRead),
        0xBC => Some(Cmds::FourByteDualInputOutputFastRead),
        0x6C => Some(Cmds::FourByteQuadOutputFastRead),
        0xEC => Some(Cmds::FourByteQuadInputOutputFastRead),
        0x0E => Some(Cmds::FourByteDtrFastRead),
        0xBE => Some(Cmds::FourByteDtrDualInputOutputFastRead),
        0xEE => Some(Cmds::FourByteDtrQuadInputOutputFastRead),
        0x06 => Some(Cmds::WriteEnable),
        0x04 => Some(Cmds::WriteDisable),
        0x05 => Some(Cmds::ReadStatusRegister),
        0x70 => Some(Cmds::ReadFlagStatusRegister),
        0xB5 => Some(Cmds::ReadNonvolatileConfiguRationRegister),
        0x85 => Some(Cmds::ReadVolatileConfigurationregister),
        0x65 => Some(Cmds::ReadEnhancedVolatileConFigurationRegister),
        0xC8 => Some(Cmds::ReadExtendedAddressRegIster),
        0x96 => Some(Cmds::ReadGeneralPurposeReadRegister),
        0x01 => Some(Cmds::WriteStatusRegister),
        0xB1 => Some(Cmds::WriteNonvolatileConfiguRationRegister),
        0x81 => Some(Cmds::WriteVolatileConfiguraTionRegister),
        0x61 => Some(Cmds::WriteEnhancedVolatileConfigurationRegister),
        0xC5 => Some(Cmds::WriteExtendedAddressRegIster),
        0x50 => Some(Cmds::ClearFlagStatusRegister),
        0x02 => Some(Cmds::PageProgram),
        0xA2 => Some(Cmds::DualInputFastProgram),
        0xD2 => Some(Cmds::ExtendedDualInputFastProgram),
        0x32 => Some(Cmds::QuadInputFastProgram),
        0x38 => Some(Cmds::ExtendedQuadInputFastProgram),
        0x12 => Some(Cmds::FourBytePageProgram),
        0x34 => Some(Cmds::FourByteQuadInputFastProGram),
        0x3E => Some(Cmds::FourByteQuadInputExtendedFastProgram),
        0x52 => Some(Cmds::Subsector32KbErase),
        0x20 => Some(Cmds::Subsector4KbErase),
        0xD8 => Some(Cmds::SectorErase),
        0xC7 => Some(Cmds::BulkErase),
        0x60 => Some(Cmds::BulkEraseAlternative),
        0xDC => Some(Cmds::FourByteSectorErase),
        0x21 => Some(Cmds::FourByte4KbSubsectorErase),
        0x5C => Some(Cmds::FourByte32KbSubsectorErase),
        0x75 => Some(Cmds::ProgramEraseSuspend),
        0x7A => Some(Cmds::ProgramEraseResume),
        0x4B => Some(Cmds::ReadOtpArray),
        0x42 => Some(Cmds::ProgramOtpArray),
        0xB7 => Some(Cmds::EnterFourByteAddressMode),
        0xE9 => Some(Cmds::ExitFourByteAddressMode),
        0x35 => Some(Cmds::EnterQuadInputOutputMode),
        0xF5 => Some(Cmds::ResetQuadInputOutputMode),
        0xB9 => Some(Cmds::EnterDeepPowerDown),
        0xAB => Some(Cmds::ReleaseFromDeepPowerDown),
        0x2D => Some(Cmds::ReadSectorProtection),
        0x2C => Some(Cmds::ProgramSectorProtection),
        0xE8 => Some(Cmds::ReadVolatileLockBits),
        0xE5 => Some(Cmds::WriteVolatileLockBits),
        0xE2 => Some(Cmds::ReadNonvolatileLockBits),
        0xE3 => Some(Cmds::WriteNonvolatileLockBits),
        0xE4 => Some(Cmds::EraseNonvolatileLockBits),
        0xA7 => Some(Cmds::ReadGlobalFreezeBit),
        0xA6 => Some(Cmds::WriteGlobalFreezeBit),
        0x27 => Some(Cmds::ReadPassword),
        0x28 => Some(Cmds::WritePassword),
        0x29 => Some(Cmds::UnlockPassword),
        0xE0 => Some(Cmds::FourByteReadVolatileLockBits),
        0xE1 => Some(Cmds::FourByteWriteVolatileLockBits),
        0x9B => Some(Cmds::InterfaceActivation),
        _ => None,
    }
}

/// No two commands share an instruction byte: the byte alone names the
/// command.
pub proof fn lemma_opcode_identifies_command(c: Cmds)
    ensures
        command_with_opcode(c.opcode_spec()) == Some(c),
{
}

/// Two commands with the same instruction byte are the same command.
pub proof fn lemma_opcodes_distinct(a: Cmds, b: Cmds)
    requires
        a.opcode_spec() == b.opcode_spec(),
    ensures
        a == b,
{
    lemma_opcode_identifies_command(a);
    lemma_opcode_identifies_command(b);
}

} // verus!
