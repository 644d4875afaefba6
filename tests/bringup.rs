use std::collections::HashMap;

use stage0::boot::{boot_step, BootState, BOOT_OFF_MS, BOOT_ON_MS, BLINK_HALF_MS};
use stage0::clock::{clock_step, ClockState};
use stage0::gpio::{gpio_step, set_mode_field, GpioState, MODE_OUTPUT};
use stage0::regs::{
    reg32, Action, GPIOB_BSRR, GPIOB_MODER, GPIOB_ODR, RCC_AHB2ENR, RCC_APB2ENR, RCC_CFGR,
    RCC_CR, RCC_CR_MSION, RCC_CR_MSIRDY, RCC_CR_PLLON, RCC_CR_PLLRDY, RCC_ICSCR, SCB_VTOR,
    SYSCFG_CFGR1, SYST_CSR, SYST_CVR, SYST_RVR,
};

/// A register file that answers like the chip: MSIRDY follows MSION after a
/// number of reads (or never), PLLRDY follows PLLON, SWS follows SW, writes
/// leave those status bits alone, and BSRR writes set or reset ODR bits.
struct Board {
    regs: HashMap<u32, u32>,
    msi_reads_until_ready: u32,
    msi_broken: bool,
    log: Vec<(Action, u32)>,
}

impl Board {
    fn power_on() -> Board {
        Board { regs: HashMap::new(), msi_reads_until_ready: 0, msi_broken: false, log: Vec::new() }
    }

    fn get(&self, addr: u32) -> u32 {
        *self.regs.get(&addr).unwrap_or(&0)
    }

    fn read(&mut self, addr: u32) -> u32 {
        let v = self.get(addr);
        if addr == RCC_CR {
            let mut r = v & !(RCC_CR_MSIRDY | RCC_CR_PLLRDY);
            if v & RCC_CR_MSION != 0 && !self.msi_broken {
                if self.msi_reads_until_ready == 0 {
                    r |= RCC_CR_MSIRDY;
                } else {
                    self.msi_reads_until_ready -= 1;
                }
            }
            if v & RCC_CR_PLLON != 0 {
                r |= RCC_CR_PLLRDY;
            }
            r
        } else if addr == RCC_CFGR {
            (v & !0xC) | ((v & 0x3) << 2)
        } else {
            v
        }
    }

    fn write(&mut self, addr: u32, v: u32) {
        if addr == GPIOB_BSRR {
            let odr = self.get(GPIOB_ODR);
            let odr = (odr | (v & 0xFFFF)) & !(v >> 16);
            self.regs.insert(GPIOB_ODR, odr);
        } else if addr == RCC_CR {
            // the ready flags are read-only
            self.regs.insert(addr, v & !(RCC_CR_MSIRDY | RCC_CR_PLLRDY));
        } else if addr == RCC_CFGR {
            // the switch status is read-only
            self.regs.insert(addr, v & !0xC);
        } else {
            self.regs.insert(addr, v);
        }
    }

    /// Performs an action; returns the value read, or 0.
    fn perform(&mut self, a: Action) -> u32 {
        let got = match a {
            Action::Read(r) => self.read(r.addr),
            Action::Write(r, v) => {
                self.write(r.addr, v);
                0
            }
            _ => 0,
        };
        self.log.push((a, got));
        got
    }

    fn run_clock(&mut self, max_steps: usize) -> ClockState {
        let mut s = ClockState::Start;
        let mut input: u32 = 0;
        for _ in 0..max_steps {
            let (next, a) = clock_step(s, input);
            s = next;
            if a == Action::Done {
                break;
            }
            input = self.perform(a);
        }
        s
    }

    /// Runs the entry sequence until `stop` holds of an action, or for at most `max_steps`.
    /// Returns the state that takes the next step.
    fn run_boot(&mut self, max_steps: usize, stop: impl Fn(&Action) -> bool) -> BootState {
        let mut s = BootState::Start;
        let mut input: u32 = 0;
        for _ in 0..max_steps {
            let (next, a) = boot_step(s, input);
            s = next;
            input = self.perform(a);
            if stop(&a) {
                break;
            }
        }
        s
    }

    fn index_of(&self, wanted: Action) -> Option<usize> {
        self.log.iter().position(|(a, _)| *a == wanted)
    }

    fn writes_to(&self, addr: u32) -> Vec<usize> {
        self.log
            .iter()
            .enumerate()
            .filter(|(_, (a, _))| matches!(a, Action::Write(r, _) if r.addr == addr))
            .map(|(i, _)| i)
            .collect()
    }
}

#[test]
fn boot_from_power_on_reaches_steady_state() {
    let mut b = Board::power_on();
    let s = b.run_boot(10_000, |a| matches!(a, Action::DelayMs(_)));
    assert_eq!(s, BootState::LedOff);
    assert_eq!(b.log.last().unwrap().0, Action::DelayMs(BOOT_ON_MS));
    let cr = b.read(RCC_CR);
    assert!(cr & RCC_CR_MSION != 0);
    assert!(cr & RCC_CR_MSIRDY != 0);
    assert_eq!(cr & RCC_CR_PLLON, 0);
    assert_eq!(b.get(RCC_CFGR) & 0x3, 0);
    assert_eq!((b.get(RCC_ICSCR) >> 4) & 0xF, 6);
    assert_eq!((b.get(GPIOB_MODER) >> 6) & 0x3, 0b01);
    assert_eq!(b.get(RCC_AHB2ENR) & 0x2, 0x2);
    assert_eq!(b.get(RCC_APB2ENR) & 0x1, 0x1);
    assert_eq!(b.get(SYSCFG_CFGR1) & (1 << 24), 1 << 24);
    assert_eq!(b.get(SCB_VTOR), 0x0800_0000);
    for r in [SYST_CSR, SYST_RVR, SYST_CVR] {
        assert!(b.writes_to(r).len() == 1);
        assert_eq!(b.get(r), 0);
    }
    let low = b.index_of(Action::Write(reg32(GPIOB_BSRR), 1 << 19)).unwrap();
    let high = b.index_of(Action::Write(reg32(GPIOB_BSRR), 1 << 3)).unwrap();
    assert!(low < high);
    assert_eq!(b.index_of(Action::DisableInterrupts), Some(1));
}

#[test]
fn boot_signal_then_blinks() {
    let mut b = Board::power_on();
    let mut s = b.run_boot(10_000, |a| *a == Action::DelayMs(BOOT_OFF_MS));
    assert_eq!(s, BootState::BlinkRead);
    assert_eq!(b.get(GPIOB_ODR) & 0x8, 0);
    let mut input: u32 = 0;
    for expected in [0x8u32, 0x0, 0x8, 0x0] {
        loop {
            let (next, a) = boot_step(s, input);
            s = next;
            input = b.perform(a);
            if let Action::DelayMs(ms) = a {
                assert_eq!(ms, BLINK_HALF_MS);
                break;
            }
        }
        assert_eq!(b.get(GPIOB_ODR) & 0x8, expected);
    }
}

#[test]
fn stuck_oscillator_never_switches_clock() {
    let mut b = Board::power_on();
    b.msi_broken = true;
    let s = b.run_boot(5_000, |_| false);
    assert_eq!(s, BootState::Clock(ClockState::AwaitMsiReady));
    assert!(b.writes_to(RCC_CFGR).is_empty());
    assert!(b.writes_to(RCC_ICSCR).is_empty());
}

#[test]
fn clock_switch_only_after_ready_observed() {
    let mut b = Board::power_on();
    b.msi_reads_until_ready = 7;
    assert_eq!(b.run_clock(1_000), ClockState::Finished);
    let switch = b.writes_to(RCC_CFGR)[0];
    let ready = b
        .log
        .iter()
        .position(|(a, v)| *a == Action::Read(reg32(RCC_CR)) && v & RCC_CR_MSIRDY != 0)
        .unwrap();
    assert!(ready < switch);
}

#[test]
fn clock_configuration_is_idempotent() {
    let mut b = Board::power_on();
    b.regs.insert(RCC_CR, RCC_CR_PLLON | 0x0000_0100);
    b.regs.insert(RCC_CFGR, 0x3);
    b.regs.insert(RCC_ICSCR, 0xABCD_00F0);
    assert_eq!(b.run_clock(1_000), ClockState::Finished);
    let once = b.regs.clone();
    assert_eq!(b.run_clock(1_000), ClockState::Finished);
    assert_eq!(b.regs, once);
    assert_eq!(once[&RCC_CR] & RCC_CR_PLLON, 0);
    assert_eq!(once[&RCC_CR] & RCC_CR_MSION, RCC_CR_MSION);
    assert_eq!(once[&RCC_CFGR] & 0x3, 0);
    assert_eq!(once[&RCC_ICSCR], 0xABCD_0060);
}

#[test]
fn clock_without_pll_skips_pll_write() {
    let mut b = Board::power_on();
    b.run_clock(1_000);
    assert_eq!(b.writes_to(RCC_CR).len(), 1);
}

#[test]
fn pin_mode_write_keeps_other_fields() {
    let seeded: u32 = 0xABCD_EF5A;
    let r = set_mode_field(seeded, 3, MODE_OUTPUT);
    assert_eq!(r & !(0x3 << 6), seeded & !(0x3 << 6));
    assert_eq!((r >> 6) & 0x3, 0b01);
    assert_eq!(r, 0xABCD_EF5A & !0xC0 | 0x40);
    assert_eq!(set_mode_field(0xFFFF_FFFF, 0, 2), 0xFFFF_FFFE);
    assert_eq!(set_mode_field(0, 15, 3), 0xC000_0000);
}

#[test]
fn gpio_bring_up_on_seeded_moder() {
    let mut b = Board::power_on();
    b.regs.insert(GPIOB_MODER, 0xABFF_FFFF);
    let mut s = GpioState::Start;
    let mut input: u32 = 0;
    loop {
        let (next, a) = gpio_step(s, input);
        s = next;
        if a == Action::Done {
            break;
        }
        input = b.perform(a);
    }
    assert_eq!(b.get(GPIOB_MODER), 0xABFF_FF7F);
    assert_eq!(b.log.last().unwrap().0, Action::Write(reg32(GPIOB_BSRR), 1 << 19));
}
