//! Bring-up logic for an STM32L4 board: register actions as data, proved
//! state machines for clock and pin set-up, and the start-up memory copy.

pub mod regs;
pub mod timing;
pub mod clock;
pub mod gpio;
pub mod startup;
pub mod boot;
pub mod build_id;
