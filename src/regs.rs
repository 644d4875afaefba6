use vstd::prelude::*;

verus! {

/// A memory-mapped 32-bit hardware register, named by its address.
#[derive(Clone, Copy, Debug, PartialEq, Eq, Structural)]
pub struct Reg {
    pub addr: u32,
}

/// The register at `addr`.
pub fn reg32(addr: u32) -> (r: Reg)
    ensures
        r.addr == addr,
{
    Reg { addr }
}

/// One side effect that the bring-up machines ask the caller to perform.
#[derive(Clone, Copy, Debug, PartialEq, Eq, Structural)]
pub enum Action {
    /// Read the register and hand its value to the next step.
    Read(Reg),
    /// Write the value to the register.
    Write(Reg, u32),
    /// Mask all maskable interrupts.
    DisableInterrupts,
    /// Busy-wait for about this many milliseconds.
    DelayMs(u32),
    /// Nothing left to do.
    Done,
}

// Core SysTick timer.
pub const SYST_CSR: u32 = 0xE000_E010;
pub const SYST_RVR: u32 = 0xE000_E014;
pub const SYST_CVR: u32 = 0xE000_E018;

// Vector table offset register, and where the table lives.
pub const SCB_VTOR: u32 = 0xE000_ED08;
pub const VECTOR_TABLE_BASE: u32 = 0x0800_0000;

// Reset and clock control.
pub const RCC_CR: u32 = 0x4002_1000;
pub const RCC_ICSCR: u32 = 0x4002_1004;
pub const RCC_CFGR: u32 = 0x4002_1008;
pub const RCC_AHB2ENR: u32 = 0x4002_104C;
pub const RCC_APB2ENR: u32 = 0x4002_1060;

pub const RCC_CR_MSION: u32 = 0x1;
pub const RCC_CR_MSIRDY: u32 = 0x2;
pub const RCC_CR_PLLON: u32 = 0x0100_0000;
pub const RCC_CR_PLLRDY: u32 = 0x0200_0000;

/// System clock switch, SW[1:0]; 0 selects MSI.
pub const RCC_CFGR_SW_MASK: u32 = 0x3;
/// System clock switch status, SWS[3:2]; 0 reports MSI.
pub const RCC_CFGR_SWS_MASK: u32 = 0xC;

/// MSI range field, MSIRANGE[7:4]; range 6 is 4 MHz.
pub const RCC_ICSCR_MSIRANGE_MASK: u32 = 0xF0;
pub const RCC_ICSCR_MSIRANGE_4MHZ: u32 = 0x60;

pub const RCC_AHB2ENR_GPIOBEN: u32 = 0x2;
pub const RCC_APB2ENR_SYSCFGEN: u32 = 0x1;

// GPIO bank B.
pub const GPIOB_MODER: u32 = 0x4800_0400;
pub const GPIOB_ODR: u32 = 0x4800_0414;
pub const GPIOB_BSRR: u32 = 0x4800_0418;
/// The pin that drives the LED.
pub const LED_PIN: u32 = 3;

// System configuration block: bit 24 of CFGR1 turns the trace output off.
pub const SYSCFG_CFGR1: u32 = 0x4001_0000;
pub const SYSCFG_CFGR1_TRACESWO_DISABLE: u32 = 0x0100_0000;

} // verus!
