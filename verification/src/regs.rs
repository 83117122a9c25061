//! Register map of the STM32H750 peripherals the algorithm touches, the
//! configuration words it programs, and the geometry of the dual-chip
//! flash.

use vstd::prelude::*;
use vstd::arithmetic::power2::{pow2, lemma2_to64};

verus! {

// ---- QUADSPI peripheral (AHB3) ----

/// Base address of the QUADSPI register block.
pub const QSPI_BASE: u32 = 0x5200_5000;

/// Control register.
pub const QSPI_CR: u32 = QSPI_BASE + 0x00;

/// Device configuration register.
pub const QSPI_DCR: u32 = QSPI_BASE + 0x04;

/// Status register.
pub const QSPI_SR: u32 = QSPI_BASE + 0x08;

/// Flag clear register.
pub const QSPI_FCR: u32 = QSPI_BASE + 0x0C;

/// Data length register (number of bytes minus one).
pub const QSPI_DLR: u32 = QSPI_BASE + 0x10;

/// Communication configuration register; writing it starts a command.
pub const QSPI_CCR: u32 = QSPI_BASE + 0x14;

/// Address register.
pub const QSPI_AR: u32 = QSPI_BASE + 0x18;

/// Data register (accessed as a word or, for the FIFO, as a byte).
pub const QSPI_DR: u32 = QSPI_BASE + 0x20;

/// SR: transfer complete flag.
pub const SR_TCF: u32 = 1 << 1;

/// SR: FIFO threshold flag.
pub const SR_FTF: u32 = 1 << 2;

/// SR: busy flag.
pub const SR_BUSY: u32 = 1 << 5;

/// FCR value that clears every clearable flag.
pub const FCR_CLEAR_ALL: u32 = 0x1F;

/// CR: enable.
pub const CR_EN: u32 = 1 << 0;

/// CR: abort request.
pub const CR_ABORT: u32 = 1 << 1;

/// CR: dual flash mode.
pub const CR_DFM: u32 = 1 << 6;

/// CR value programmed at start-up: prescaler 1 (AHB clock / 2), dual
/// flash mode, enabled.
pub const CR_CONFIG: u32 = (1 << 24) | (1 << 6) | (1 << 0);

/// FSIZE field of DCR: the flash holds 2^(FSIZE + 1) bytes.
pub const DCR_FSIZE: u32 = 26;

/// CSHT field of DCR: chip select high time minus one.
pub const DCR_CSHT: u32 = 1;

/// DCR value programmed at start-up.
pub const DCR_CONFIG: u32 = (26 << 16) | (1 << 8);

/// DLR value for a status read: one byte from each chip.
pub const STATUS_READ_DLR: u32 = 1;

// ---- RCC ----

/// Base address of the reset and clock control block.
pub const RCC_BASE: u32 = 0x5802_4400;

/// AHB3 peripheral clock enable register.
pub const RCC_AHB3ENR: u32 = RCC_BASE + 0xD4;

/// AHB4 peripheral clock enable register.
pub const RCC_AHB4ENR: u32 = RCC_BASE + 0xE0;

/// AHB3ENR: QUADSPI clock enable.
pub const AHB3ENR_QSPIEN: u32 = 1 << 14;

/// AHB4ENR: clock enables of GPIO ports B, D and E.
pub const AHB4ENR_GPIO_BDE: u32 = (1 << 1) | (1 << 3) | (1 << 4);

// ---- GPIO ----

/// Base address of GPIO port B.
pub const GPIOB_BASE: u32 = 0x5802_0400;

/// Base address of GPIO port D.
pub const GPIOD_BASE: u32 = 0x5802_0C00;

/// Base address of GPIO port E.
pub const GPIOE_BASE: u32 = 0x5802_1000;

// ---- Flash geometry ----

/// Start of the memory-mapped flash window.
pub const FLASH_BASE: u32 = 0x9000_0000;

/// Logical size of the flash: two 64 MB chips interleaved byte by byte.
pub const FLASH_SIZE: u32 = 0x0800_0000;

/// Logical page: one 256-byte page in each chip.
pub const PAGE_SIZE: u32 = 0x200;

/// Logical sector: one 4 KB subsector in each chip.
pub const SECTOR_SIZE: u32 = 0x2000;

/// Value of an erased byte.
pub const EMPTY_VALUE: u8 = 0xFF;

/// Worst-case page program time (ms) announced to the host.
pub const PROGRAM_TIME_OUT: u32 = 1000;

/// Worst-case sector erase time (ms) announced to the host.
pub const ERASE_TIME_OUT: u32 = 20000;

/// Number of chips wired in parallel.
pub const CHIP_COUNT: u32 = 2;

/// Size of one chip.
pub const CHIP_SIZE: u32 = 0x0400_0000;

/// Program page of one chip.
pub const CHIP_PAGE_SIZE: u32 = 0x100;

/// 4 KB subsector of one chip.
pub const CHIP_SUBSECTOR_SIZE: u32 = 0x1000;

/// The logical geometry is that of the two chips side by side, the window
/// ends at `0x9800_0000`, and the FSIZE programmed in DCR describes exactly
/// the logical flash size.
pub proof fn lemma_geometry()
    ensures
        PAGE_SIZE == CHIP_COUNT * CHIP_PAGE_SIZE,
        SECTOR_SIZE == CHIP_COUNT * CHIP_SUBSECTOR_SIZE,
        FLASH_SIZE == CHIP_COUNT * CHIP_SIZE,
        FLASH_SIZE == pow2((DCR_FSIZE + 1) as nat),
        FLASH_SIZE % SECTOR_SIZE == 0,
        SECTOR_SIZE % PAGE_SIZE == 0,
        FLASH_BASE + FLASH_SIZE == 0x9800_0000,
{
    lemma2_to64();
}

/// The DCR word carries FSIZE in bits [20:16], CSHT in bits [10:8] and
/// nothing else; the CR word sets prescaler 1, dual flash mode and enable,
/// and requests no abort.
pub proof fn lemma_config_words()
    ensures
        (DCR_CONFIG >> 16u32) & 0x1F == DCR_FSIZE,
        (DCR_CONFIG >> 8u32) & 0x7 == DCR_CSHT,
        DCR_CONFIG & !((0x1Fu32 << 16u32) | (0x7u32 << 8u32)) == 0,
        (CR_CONFIG >> 24u32) & 0xFF == 1,
        CR_CONFIG & CR_DFM == CR_DFM,
        CR_CONFIG & CR_EN == CR_EN,
        CR_CONFIG & CR_ABORT == 0,
{
    assert({
        let d: u32 = (26u32 << 16u32) | (1u32 << 8u32);
        let c: u32 = (1u32 << 24u32) | (1u32 << 6u32) | (1u32 << 0u32);
        &&& (d >> 16u32) & 0x1F == 26
        &&& (d >> 8u32) & 0x7 == 1
        &&& d & !((0x1Fu32 << 16u32) | (0x7u32 << 8u32)) == 0
        &&& (c >> 24u32) & 0xFF == 1
        &&& c & (1u32 << 6u32) == (1u32 << 6u32)
        &&& c & (1u32 << 0u32) == (1u32 << 0u32)
        &&& c & (1u32 << 1u32) == 0
    }) by (bit_vector);
}

} // verus!
