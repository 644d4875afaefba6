use vstd::prelude::*;
use crate::regs::{
    reg32, Action, Reg, GPIOB_BSRR, GPIOB_MODER, LED_PIN, RCC_AHB2ENR, RCC_AHB2ENR_GPIOBEN,
    RCC_APB2ENR, RCC_APB2ENR_SYSCFGEN, SYSCFG_CFGR1, SYSCFG_CFGR1_TRACESWO_DISABLE,
};

verus! {

/// Pin mode "general purpose output" in a two-bit MODER field.
pub const MODE_OUTPUT: u32 = 1;

/// The two bits of MODER that belong to `pin`.
pub open spec fn mode_mask(pin: u32) -> u32 {
    (3u32 << (2 * pin) as u32) as u32
}

/// The mode field of `pin` in a MODER value.
pub open spec fn mode_of(moder: u32, pin: u32) -> u32 {
    ((moder >> (2 * pin) as u32) & 3u32) as u32
}

/// `moder` with the mode field of `pin` replaced by `mode`.
pub open spec fn with_mode(moder: u32, pin: u32, mode: u32) -> u32 {
    ((moder & !mode_mask(pin)) | (mode << (2 * pin) as u32)) as u32
}

/// Returns `moder` with the mode field of `pin` set to `mode`: the field is
/// cleared, then the new mode is or-ed in; every other bit is kept.
pub fn set_mode_field(moder: u32, pin: u32, mode: u32) -> (r: u32)
    requires
        pin < 16,
        mode < 4,
    ensures
        r == with_mode(moder, pin, mode),
        r & !mode_mask(pin) == moder & !mode_mask(pin),
        mode_of(r, pin) == mode,
{
    let shift: u32 = pin * 2;
    let r = (moder & !(3u32 << shift)) | (mode << shift);
    assert(r & !(3u32 << shift) == moder & !(3u32 << shift) && (r >> shift) & 3u32 == mode)
        by (bit_vector)
        requires
            shift <= 30,
            mode < 4,
            r == (moder & !(3u32 << shift)) | (mode << shift),
    ;
    r
}

/// The BSRR word that drives `pin` high.
pub fn pin_set_word(pin: u32) -> (r: u32)
    requires
        pin < 16,
    ensures
        r == 1u32 << pin,
{
    1u32 << pin
}

/// The BSRR word that drives `pin` low.
pub fn pin_reset_word(pin: u32) -> (r: u32)
    requires
        pin < 16,
    ensures
        r == 1u32 << (pin + 16) as u32,
{
    1u32 << (pin + 16)
}

/// An ODR value with the output of `pin` inverted and every other bit kept.
pub fn toggled(odr: u32, pin: u32) -> (r: u32)
    requires
        pin < 16,
    ensures
        r == odr ^ (1u32 << pin),
{
    odr ^ (1u32 << pin)
}

/// The value that a write action stores; 0 for any other action.
pub open spec fn written(a: Action) -> u32 {
    match a {
        Action::Write(_, v) => v,
        _ => 0,
    }
}

/// Where pin bring-up stands; `Await...` states take the value just read.
#[derive(Clone, Copy, Debug, PartialEq, Eq, Structural)]
pub enum GpioState {
    Start,
    AwaitAhb2,
    ReadApb2,
    AwaitApb2,
    ReadSyscfg,
    AwaitSyscfg,
    ReadModer,
    AwaitModer,
    DriveLow,
    Finished,
}

/// One step of pin bring-up.
pub open spec fn gpio_next(s: GpioState, input: u32) -> (GpioState, Action) {
    match s {
        GpioState::Start => (GpioState::AwaitAhb2, Action::Read(Reg { addr: RCC_AHB2ENR })),
        GpioState::AwaitAhb2 => (
            GpioState::ReadApb2,
            Action::Write(Reg { addr: RCC_AHB2ENR }, input | RCC_AHB2ENR_GPIOBEN),
        ),
        GpioState::ReadApb2 => (GpioState::AwaitApb2, Action::Read(Reg { addr: RCC_APB2ENR })),
        GpioState::AwaitApb2 => (
            GpioState::ReadSyscfg,
            Action::Write(Reg { addr: RCC_APB2ENR }, input | RCC_APB2ENR_SYSCFGEN),
        ),
        GpioState::ReadSyscfg => (GpioState::AwaitSyscfg, Action::Read(Reg { addr: SYSCFG_CFGR1 })),
        GpioState::AwaitSyscfg => (
            GpioState::ReadModer,
            Action::Write(Reg { addr: SYSCFG_CFGR1 }, input | SYSCFG_CFGR1_TRACESWO_DISABLE),
        ),
        GpioState::ReadModer => (GpioState::AwaitModer, Action::Read(Reg { addr: GPIOB_MODER })),
        GpioState::AwaitModer => (
            GpioState::DriveLow,
            Action::Write(
                Reg { addr: GPIOB_MODER },
                with_mode(input, LED_PIN, MODE_OUTPUT),
            ),
        ),
        GpioState::DriveLow => (
            GpioState::Finished,
            Action::Write(Reg { addr: GPIOB_BSRR }, 1u32 << (LED_PIN + 16) as u32),
        ),
        GpioState::Finished => (GpioState::Finished, Action::Done),
    }
}

/// Advances pin bring-up by one step: clock the GPIO bank and the system
/// configuration block, take the trace function off the LED pin, make the
/// pin an output, and drive it low through BSRR.
pub fn gpio_step(s: GpioState, input: u32) -> (r: (GpioState, Action))
    ensures
        r == gpio_next(s, input),
        s is AwaitModer ==> r.1 == Action::Write(Reg { addr: GPIOB_MODER }, written(r.1)),
        s is AwaitModer ==> written(r.1) & !mode_mask(LED_PIN) == input & !mode_mask(LED_PIN),
        s is AwaitModer ==> mode_of(written(r.1), LED_PIN) == MODE_OUTPUT,
{
    match s {
        GpioState::Start => (GpioState::AwaitAhb2, Action::Read(reg32(RCC_AHB2ENR))),
        GpioState::AwaitAhb2 => (
            GpioState::ReadApb2,
            Action::Write(reg32(RCC_AHB2ENR), input | RCC_AHB2ENR_GPIOBEN),
        ),
        GpioState::ReadApb2 => (GpioState::AwaitApb2, Action::Read(reg32(RCC_APB2ENR))),
        GpioState::AwaitApb2 => (
            GpioState::ReadSyscfg,
            Action::Write(reg32(RCC_APB2ENR), input | RCC_APB2ENR_SYSCFGEN),
        ),
        GpioState::ReadSyscfg => (GpioState::AwaitSyscfg, Action::Read(reg32(SYSCFG_CFGR1))),
        GpioState::AwaitSyscfg => (
            GpioState::ReadModer,
            Action::Write(reg32(SYSCFG_CFGR1), input | SYSCFG_CFGR1_TRACESWO_DISABLE),
        ),
        GpioState::ReadModer => (GpioState::AwaitModer, Action::Read(reg32(GPIOB_MODER))),
        GpioState::AwaitModer => {
            let v = set_mode_field(input, LED_PIN, MODE_OUTPUT);
            (GpioState::DriveLow, Action::Write(reg32(GPIOB_MODER), v))
        },
        GpioState::DriveLow => (GpioState::Finished, Action::Write(reg32(GPIOB_BSRR), pin_reset_word(LED_PIN))),
        GpioState::Finished => (GpioState::Finished, Action::Done),
    }
}

} // verus!
