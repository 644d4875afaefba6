use vstd::prelude::*;
use crate::clock::{clock_next, clock_step, ClockState};
use crate::gpio::{gpio_next, gpio_step, pin_reset_word, pin_set_word, toggled, GpioState};
use crate::regs::{
    reg32, Action, Reg, GPIOB_BSRR, GPIOB_ODR, LED_PIN, SCB_VTOR, SYST_CSR, SYST_CVR, SYST_RVR,
    VECTOR_TABLE_BASE,
};

verus! {

/// How long the LED stays on to signal a successful boot.
pub const BOOT_ON_MS: u32 = 500;
/// How long it then stays off before blinking starts.
pub const BOOT_OFF_MS: u32 = 250;
/// Half the blink period.
pub const BLINK_HALF_MS: u32 = 50;

/// Where the entry sequence stands, after start-up has filled memory.
#[derive(Clone, Copy, Debug, PartialEq, Eq, Structural)]
pub enum BootState {
    Start,
    IrqOff,
    SysTickCsr,
    SysTickRvr,
    SysTickCvr,
    Clock(ClockState),
    Gpio(GpioState),
    HoldOn,
    LedOff,
    HoldOff,
    BlinkRead,
    BlinkWrite,
    BlinkWait,
}

/// The step that follows pin bring-up: the LED goes on.
pub open spec fn after_gpio() -> (BootState, Action) {
    (BootState::HoldOn, Action::Write(Reg { addr: GPIOB_BSRR }, 1u32 << LED_PIN))
}

/// The step that follows clock configuration: pin bring-up starts.
pub open spec fn after_clock(input: u32) -> (BootState, Action) {
    let g = gpio_next(GpioState::Start, input);
    (BootState::Gpio(g.0), g.1)
}

/// One step of the entry sequence; `input` is the value of the last read.
pub open spec fn boot_next(s: BootState, input: u32) -> (BootState, Action) {
    match s {
        BootState::Start => (
            BootState::IrqOff,
            Action::Write(Reg { addr: SCB_VTOR }, VECTOR_TABLE_BASE),
        ),
        BootState::IrqOff => (BootState::SysTickCsr, Action::DisableInterrupts),
        BootState::SysTickCsr => (BootState::SysTickRvr, Action::Write(Reg { addr: SYST_CSR }, 0)),
        BootState::SysTickRvr => (BootState::SysTickCvr, Action::Write(Reg { addr: SYST_RVR }, 0)),
        BootState::SysTickCvr => (
            BootState::Clock(ClockState::Start),
            Action::Write(Reg { addr: SYST_CVR }, 0),
        ),
        BootState::Clock(cs) => {
            let c = clock_next(cs, input);
            if c.1 is Done {
                after_clock(input)
            } else {
                (BootState::Clock(c.0), c.1)
            }
        },
        BootState::Gpio(gs) => {
            let g = gpio_next(gs, input);
            if g.1 is Done {
                after_gpio()
            } else {
                (BootState::Gpio(g.0), g.1)
            }
        },
        BootState::HoldOn => (BootState::LedOff, Action::DelayMs(BOOT_ON_MS)),
        BootState::LedOff => (
            BootState::HoldOff,
            Action::Write(Reg { addr: GPIOB_BSRR }, 1u32 << (LED_PIN + 16) as u32),
        ),
        BootState::HoldOff => (BootState::BlinkRead, Action::DelayMs(BOOT_OFF_MS)),
        BootState::BlinkRead => (BootState::BlinkWrite, Action::Read(Reg { addr: GPIOB_ODR })),
        BootState::BlinkWrite => (
            BootState::BlinkWait,
            Action::Write(Reg { addr: GPIOB_ODR }, input ^ (1u32 << LED_PIN)),
        ),
        BootState::BlinkWait => (BootState::BlinkRead, Action::DelayMs(BLINK_HALF_MS)),
    }
}

/// Advances the entry sequence by one step: set the vector table base, mask
/// interrupts, zero the SysTick registers, configure the clock, bring up
/// the LED pin, signal boot with the LED on then off, then blink forever.
/// The sequence never reports `Done`.
pub fn boot_step(s: BootState, input: u32) -> (r: (BootState, Action))
    ensures
        r == boot_next(s, input),
        !(r.1 is Done),
{
    match s {
        BootState::Start => (BootState::IrqOff, Action::Write(reg32(SCB_VTOR), VECTOR_TABLE_BASE)),
        BootState::IrqOff => (BootState::SysTickCsr, Action::DisableInterrupts),
        BootState::SysTickCsr => (BootState::SysTickRvr, Action::Write(reg32(SYST_CSR), 0)),
        BootState::SysTickRvr => (BootState::SysTickCvr, Action::Write(reg32(SYST_RVR), 0)),
        BootState::SysTickCvr => (BootState::Clock(ClockState::Start), Action::Write(reg32(SYST_CVR), 0)),
        BootState::Clock(cs) => {
            let (next, a) = clock_step(cs, input);
            if let Action::Done = a {
                let (g, ga) = gpio_step(GpioState::Start, input);
                (BootState::Gpio(g), ga)
            } else {
                (BootState::Clock(next), a)
            }
        },
        BootState::Gpio(gs) => {
            let (next, a) = gpio_step(gs, input);
            if let Action::Done = a {
                (BootState::HoldOn, Action::Write(reg32(GPIOB_BSRR), pin_set_word(LED_PIN)))
            } else {
                (BootState::Gpio(next), a)
            }
        },
        BootState::HoldOn => (BootState::LedOff, Action::DelayMs(BOOT_ON_MS)),
        BootState::LedOff => (BootState::HoldOff, Action::Write(reg32(GPIOB_BSRR), pin_reset_word(LED_PIN))),
        BootState::HoldOff => (BootState::BlinkRead, Action::DelayMs(BOOT_OFF_MS)),
        BootState::BlinkRead => (BootState::BlinkWrite, Action::Read(reg32(GPIOB_ODR))),
        BootState::BlinkWrite => (BootState::BlinkWait, Action::Write(reg32(GPIOB_ODR), toggled(input, LED_PIN))),
        BootState::BlinkWait => (BootState::BlinkRead, Action::DelayMs(BLINK_HALF_MS)),
    }
}

} // verus!
