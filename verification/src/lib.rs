//! Verified command sequencing for a probe-rs flash algorithm driving two
//! Micron MT25QL512ABB NOR flash chips in QUADSPI Dual Flash Mode on an
//! STM32H750.

pub mod bus;
pub mod ccr;
pub mod cmds;
pub mod flash;
pub mod gpio;
pub mod regs;
pub mod status;
pub mod verify;
pub use flash::Algorithm;
