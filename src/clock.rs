use vstd::prelude::*;
use crate::regs::{
    reg32, Action, Reg, RCC_CFGR, RCC_CFGR_SWS_MASK, RCC_CFGR_SW_MASK, RCC_CR, RCC_CR_MSION,
    RCC_CR_MSIRDY, RCC_CR_PLLON, RCC_CR_PLLRDY, RCC_ICSCR, RCC_ICSCR_MSIRANGE_4MHZ,
    RCC_ICSCR_MSIRANGE_MASK,
};

verus! {

/// Where clock configuration stands. A state named `Await...` takes, as the
/// input of its step, the value that the previous `Action::Read` returned.
#[derive(Clone, Copy, Debug, PartialEq, Eq, Structural)]
pub enum ClockState {
    Start,
    AwaitCrForEnable,
    PollMsi,
    AwaitMsiReady,
    AwaitIcscr,
    ReadCfgr,
    AwaitCfgr,
    PollSws,
    AwaitSws,
    AwaitPllCheck,
    PollPll,
    AwaitPllOff,
    Finished,
}

/// CR with the MSI oscillator requested on.
pub open spec fn msi_enabled(cr: u32) -> u32 {
    cr | RCC_CR_MSION
}

/// ICSCR with the MSI range field set to 4 MHz and every other bit kept.
pub open spec fn range_4mhz(icscr: u32) -> u32 {
    (icscr & !RCC_ICSCR_MSIRANGE_MASK) | RCC_ICSCR_MSIRANGE_4MHZ
}

/// CFGR with MSI selected as the system clock and every other bit kept.
pub open spec fn msi_selected(cfgr: u32) -> u32 {
    cfgr & !RCC_CFGR_SW_MASK
}

/// CR with the PLL requested off.
pub open spec fn pll_disabled(cr: u32) -> u32 {
    cr & !RCC_CR_PLLON
}

/// One step of the configuration: the state and register value in, the
/// next state and the action to perform out.
pub open spec fn clock_next(s: ClockState, input: u32) -> (ClockState, Action) {
    match s {
        ClockState::Start => (ClockState::AwaitCrForEnable, Action::Read(Reg { addr: RCC_CR })),
        ClockState::AwaitCrForEnable => (
            ClockState::PollMsi,
            Action::Write(Reg { addr: RCC_CR }, msi_enabled(input)),
        ),
        ClockState::PollMsi => (ClockState::AwaitMsiReady, Action::Read(Reg { addr: RCC_CR })),
        ClockState::AwaitMsiReady => if input & RCC_CR_MSIRDY == 0 {
            (ClockState::AwaitMsiReady, Action::Read(Reg { addr: RCC_CR }))
        } else {
            (ClockState::AwaitIcscr, Action::Read(Reg { addr: RCC_ICSCR }))
        },
        ClockState::AwaitIcscr => (
            ClockState::ReadCfgr,
            Action::Write(Reg { addr: RCC_ICSCR }, range_4mhz(input)),
        ),
        ClockState::ReadCfgr => (ClockState::AwaitCfgr, Action::Read(Reg { addr: RCC_CFGR })),
        ClockState::AwaitCfgr => (
            ClockState::PollSws,
            Action::Write(Reg { addr: RCC_CFGR }, msi_selected(input)),
        ),
        ClockState::PollSws => (ClockState::AwaitSws, Action::Read(Reg { addr: RCC_CFGR })),
        ClockState::AwaitSws => if input & RCC_CFGR_SWS_MASK != 0 {
            (ClockState::AwaitSws, Action::Read(Reg { addr: RCC_CFGR }))
        } else {
            (ClockState::AwaitPllCheck, Action::Read(Reg { addr: RCC_CR }))
        },
        ClockState::AwaitPllCheck => if input & RCC_CR_PLLON != 0 {
            (ClockState::PollPll, Action::Write(Reg { addr: RCC_CR }, pll_disabled(input)))
        } else {
            (ClockState::Finished, Action::Done)
        },
        ClockState::PollPll => (ClockState::AwaitPllOff, Action::Read(Reg { addr: RCC_CR })),
        ClockState::AwaitPllOff => if input & RCC_CR_PLLRDY != 0 {
            (ClockState::AwaitPllOff, Action::Read(Reg { addr: RCC_CR }))
        } else {
            (ClockState::Finished, Action::Done)
        },
        ClockState::Finished => (ClockState::Finished, Action::Done),
    }
}

/// Advances clock configuration by one step. The order is fixed: MSI on and
/// ready, then its 4 MHz range, then MSI as system clock until the switch
/// status confirms it, then the PLL off if it was on.
pub fn clock_step(s: ClockState, input: u32) -> (r: (ClockState, Action))
    ensures
        r == clock_next(s, input),
{
    let cr = reg32(RCC_CR);
    let cfgr = reg32(RCC_CFGR);
    match s {
        ClockState::Start => (ClockState::AwaitCrForEnable, Action::Read(cr)),
        ClockState::AwaitCrForEnable => (ClockState::PollMsi, Action::Write(cr, input | RCC_CR_MSION)),
        ClockState::PollMsi => (ClockState::AwaitMsiReady, Action::Read(cr)),
        ClockState::AwaitMsiReady => {
            if input & RCC_CR_MSIRDY == 0 {
                (ClockState::AwaitMsiReady, Action::Read(cr))
            } else {
                (ClockState::AwaitIcscr, Action::Read(reg32(RCC_ICSCR)))
            }
        },
        ClockState::AwaitIcscr => {
            let v = (input & !RCC_ICSCR_MSIRANGE_MASK) | RCC_ICSCR_MSIRANGE_4MHZ;
            (ClockState::ReadCfgr, Action::Write(reg32(RCC_ICSCR), v))
        },
        ClockState::ReadCfgr => (ClockState::AwaitCfgr, Action::Read(cfgr)),
        ClockState::AwaitCfgr => (ClockState::PollSws, Action::Write(cfgr, input & !RCC_CFGR_SW_MASK)),
        ClockState::PollSws => (ClockState::AwaitSws, Action::Read(cfgr)),
        ClockState::AwaitSws => {
            if input & RCC_CFGR_SWS_MASK != 0 {
                (ClockState::AwaitSws, Action::Read(cfgr))
            } else {
                (ClockState::AwaitPllCheck, Action::Read(cr))
            }
        },
        ClockState::AwaitPllCheck => {
            if input & RCC_CR_PLLON != 0 {
                (ClockState::PollPll, Action::Write(cr, input & !RCC_CR_PLLON))
            } else {
                (ClockState::Finished, Action::Done)
            }
        },
        ClockState::PollPll => (ClockState::AwaitPllOff, Action::Read(cr)),
        ClockState::AwaitPllOff => {
            if input & RCC_CR_PLLRDY != 0 {
                (ClockState::AwaitPllOff, Action::Read(cr))
            } else {
                (ClockState::Finished, Action::Done)
            }
        },
        ClockState::Finished => (ClockState::Finished, Action::Done),
    }
}

/// The state after feeding the first `n` inputs to the machine from `Start`.
pub open spec fn clock_state_after(inputs: Seq<u32>, n: nat) -> ClockState
    decreases n,
{
    if n == 0 {
        ClockState::Start
    } else {
        clock_next(clock_state_after(inputs, (n - 1) as nat), inputs[n - 1]).0
    }
}

/// The action of step `n`, which takes `inputs[n]` as its input.
pub open spec fn clock_action_at(inputs: Seq<u32>, n: nat) -> Action {
    clock_next(clock_state_after(inputs, n), inputs[n as int]).1
}

/// Step `j` read CR and the value handed to the next step had MSIRDY set.
pub open spec fn ready_observed_at(inputs: Seq<u32>, j: nat) -> bool {
    &&& j + 1 < inputs.len()
    &&& clock_action_at(inputs, j) == Action::Read(Reg { addr: RCC_CR })
    &&& inputs[(j + 1) as int] & RCC_CR_MSIRDY != 0
}

/// The states that the machine can only reach once MSI was seen ready.
pub open spec fn past_msi_ready(s: ClockState) -> bool {
    !(s is Start || s is AwaitCrForEnable || s is PollMsi || s is AwaitMsiReady)
}

proof fn lemma_ready_history(inputs: Seq<u32>, n: nat)
    requires
        n <= inputs.len(),
    ensures
        clock_state_after(inputs, n) is AwaitMsiReady ==> n >= 1 && clock_action_at(
            inputs,
            (n - 1) as nat,
        ) == Action::Read(Reg { addr: RCC_CR }),
        past_msi_ready(clock_state_after(inputs, n)) ==> exists|j: nat|
            j < n && #[trigger] ready_observed_at(inputs, j),
    decreases n,
{
    if n > 0 {
        let m = (n - 1) as nat;
        lemma_ready_history(inputs, m);
        let prev = clock_state_after(inputs, m);
        if past_msi_ready(clock_state_after(inputs, n)) && prev is AwaitMsiReady {
            assert(ready_observed_at(inputs, (m - 1) as nat));
        }
    }
}

/// Whatever the registers report, the machine never writes the clock switch
/// in CFGR before a read of CR has shown the MSI oscillator ready.
pub proof fn lemma_no_switch_before_ready(inputs: Seq<u32>, n: nat, v: u32)
    requires
        n < inputs.len(),
        clock_action_at(inputs, n) == Action::Write(Reg { addr: RCC_CFGR }, v),
    ensures
        exists|j: nat| j < n && #[trigger] ready_observed_at(inputs, j),
{
    lemma_ready_history(inputs, n);
}

/// If no read of CR ever shows MSI ready, CFGR is never written.
pub proof fn lemma_stuck_oscillator_never_switches(inputs: Seq<u32>, n: nat, v: u32)
    requires
        n < inputs.len(),
        forall|i: int| 0 <= i < inputs.len() ==> #[trigger] inputs[i] & RCC_CR_MSIRDY == 0,
    ensures
        clock_action_at(inputs, n) != Action::Write(Reg { addr: RCC_CFGR }, v),
{
    if clock_action_at(inputs, n) == Action::Write(Reg { addr: RCC_CFGR }, v) {
        lemma_no_switch_before_ready(inputs, n, v);
        let j = choose|j: nat| j < n && #[trigger] ready_observed_at(inputs, j);
        assert(inputs[(j + 1) as int] & RCC_CR_MSIRDY == 0);
    }
}

/// Every value that configuration writes is a fixed point of its update, so
/// configuring a second time writes the same values again; and once the PLL
/// was requested off, a second run finds it off and leaves it alone.
pub proof fn lemma_clock_writes_idempotent(cr: u32, icscr: u32, cfgr: u32)
    ensures
        msi_enabled(msi_enabled(cr)) == msi_enabled(cr),
        range_4mhz(range_4mhz(icscr)) == range_4mhz(icscr),
        msi_selected(msi_selected(cfgr)) == msi_selected(cfgr),
        pll_disabled(pll_disabled(cr)) == pll_disabled(cr),
        pll_disabled(cr) & RCC_CR_PLLON == 0,
        msi_enabled(cr) & RCC_CR_MSION != 0,
        range_4mhz(icscr) & RCC_ICSCR_MSIRANGE_MASK == RCC_ICSCR_MSIRANGE_4MHZ,
        msi_selected(cfgr) & RCC_CFGR_SW_MASK == 0,
{
    assert((cr | 1u32) | 1u32 == cr | 1u32) by (bit_vector);
    assert(((icscr & !0xF0u32) | 0x60u32) & !0xF0u32 | 0x60u32 == (icscr & !0xF0u32) | 0x60u32)
        by (bit_vector);
    assert((cfgr & !3u32) & !3u32 == cfgr & !3u32) by (bit_vector);
    assert((cr & !0x0100_0000u32) & !0x0100_0000u32 == cr & !0x0100_0000u32) by (bit_vector);
    assert((cr & !0x0100_0000u32) & 0x0100_0000u32 == 0) by (bit_vector);
    assert((cr | 1u32) & 1u32 != 0) by (bit_vector);
    assert(((icscr & !0xF0u32) | 0x60u32) & 0xF0u32 == 0x60u32) by (bit_vector);
    assert((cfgr & !3u32) & 3u32 == 0) by (bit_vector);
}

/// The read-only ready flags of CR, MSIRDY and PLLRDY.
pub const CR_READY_FLAGS: u32 = 0x0200_0002;
/// The enables whose ready flags sit one bit above them, MSION and PLLON.
pub const CR_ENABLES: u32 = 0x0100_0001;

/// The clock registers of a chip whose oscillators respond at once: the
/// ready flags follow their enable bits and the switch status follows the
/// switch. Flags and status are read-only.
pub struct ClockRegs {
    pub cr: u32,
    pub icscr: u32,
    pub cfgr: u32,
}

/// CR as read: the stored bits, with MSIRDY and PLLRDY reporting MSION and PLLON.
pub open spec fn read_cr(cr: u32) -> u32 {
    (cr & !CR_READY_FLAGS) | ((cr & CR_ENABLES) << 1u32)
}

/// CFGR as read: the stored bits, with SWS reporting SW.
pub open spec fn read_cfgr(cfgr: u32) -> u32 {
    (cfgr & !RCC_CFGR_SWS_MASK) | ((cfgr & RCC_CFGR_SW_MASK) << 2u32)
}

/// What a register access returns on these registers.
pub open spec fn regs_read(r: ClockRegs, addr: u32) -> u32 {
    if addr == RCC_CR {
        read_cr(r.cr)
    } else if addr == RCC_ICSCR {
        r.icscr
    } else if addr == RCC_CFGR {
        read_cfgr(r.cfgr)
    } else {
        0
    }
}

/// The registers after a write; read-only bits keep their stored value of zero.
pub open spec fn regs_write(r: ClockRegs, addr: u32, v: u32) -> ClockRegs {
    if addr == RCC_CR {
        ClockRegs { cr: v & !CR_READY_FLAGS, ..r }
    } else if addr == RCC_ICSCR {
        ClockRegs { icscr: v, ..r }
    } else if addr == RCC_CFGR {
        ClockRegs { cfgr: v & !RCC_CFGR_SWS_MASK, ..r }
    } else {
        r
    }
}

/// Registers as the chip can hold them: no stored value in a read-only bit.
pub open spec fn regs_wf(r: ClockRegs) -> bool {
    &&& r.cr & CR_READY_FLAGS == 0
    &&& r.cfgr & RCC_CFGR_SWS_MASK == 0
}

/// Runs the machine on the registers for at most `fuel` steps, or until it
/// reports `Done`; gives the registers and the state reached.
pub open spec fn clock_run(r: ClockRegs, s: ClockState, input: u32, fuel: nat) -> (ClockRegs, ClockState)
    decreases fuel,
{
    if fuel == 0 {
        (r, s)
    } else {
        let (next, a) = clock_next(s, input);
        match a {
            Action::Read(reg) => clock_run(r, next, regs_read(r, reg.addr), (fuel - 1) as nat),
            Action::Write(reg, v) => clock_run(regs_write(r, reg.addr, v), next, 0, (fuel - 1) as nat),
            _ => (r, next),
        }
    }
}

/// Steps that configuration takes at most on these registers.
pub open spec fn clock_steps() -> nat {
    14
}

/// The registers that configuration leaves behind: MSI on, PLL off, the
/// 4 MHz range, MSI selected; every other bit as it was.
pub open spec fn configured(r: ClockRegs) -> ClockRegs {
    ClockRegs {
        cr: pll_disabled(msi_enabled(r.cr)),
        icscr: range_4mhz(r.icscr),
        cfgr: msi_selected(r.cfgr),
    }
}

proof fn lemma_cr_bits(c: u32)
    requires
        c & CR_READY_FLAGS == 0,
    ensures
        c & RCC_CR_MSION != 0 ==> read_cr(c) & RCC_CR_MSIRDY != 0,
        c & RCC_CR_PLLON == 0 ==> read_cr(c) & RCC_CR_PLLRDY == 0,
        read_cr(c) & RCC_CR_PLLON == c & RCC_CR_PLLON,
        (read_cr(c) | RCC_CR_MSION) & !CR_READY_FLAGS == c | RCC_CR_MSION,
        (read_cr(c) & !RCC_CR_PLLON) & !CR_READY_FLAGS == c & !RCC_CR_PLLON,
        (c | RCC_CR_MSION) & CR_READY_FLAGS == 0,
        (c & !RCC_CR_PLLON) & CR_READY_FLAGS == 0,
        (c & !RCC_CR_PLLON) & RCC_CR_MSION == c & RCC_CR_MSION,
        (c | RCC_CR_MSION) & RCC_CR_MSION != 0,
        (c | RCC_CR_MSION) & !RCC_CR_PLLON & RCC_CR_PLLON == 0,
        c & RCC_CR_PLLON == 0 ==> c & !RCC_CR_PLLON == c,
        c & RCC_CR_MSION != 0 ==> c | RCC_CR_MSION == c,
        (c & !RCC_CR_PLLON) | RCC_CR_MSION == (c | RCC_CR_MSION) & !RCC_CR_PLLON,
{
    let x = read_cr(c);
    assert(c & 0x0200_0002u32 == 0 ==> {
        &&& (c & 1u32 != 0 ==> x & 2u32 != 0)
        &&& (c & 0x0100_0000u32 == 0 ==> x & 0x0200_0000u32 == 0)
        &&& x & 0x0100_0000u32 == c & 0x0100_0000u32
        &&& (x | 1u32) & !0x0200_0002u32 == c | 1u32
        &&& (x & !0x0100_0000u32) & !0x0200_0002u32 == c & !0x0100_0000u32
        &&& (c | 1u32) & 0x0200_0002u32 == 0
        &&& (c & !0x0100_0000u32) & 0x0200_0002u32 == 0
        &&& (c & !0x0100_0000u32) & 1u32 == c & 1u32
        &&& (c | 1u32) & 1u32 != 0
        &&& (c | 1u32) & !0x0100_0000u32 & 0x0100_0000u32 == 0
        &&& (c & 0x0100_0000u32 == 0 ==> c & !0x0100_0000u32 == c)
        &&& (c & 1u32 != 0 ==> c | 1u32 == c)
        &&& (c & !0x0100_0000u32) | 1u32 == (c | 1u32) & !0x0100_0000u32
    }) by (bit_vector)
        requires
            x == (c & !0x0200_0002u32) | ((c & 0x0100_0001u32) << 1u32),
    ;
}

proof fn lemma_cfgr_bits(f: u32)
    requires
        f & RCC_CFGR_SWS_MASK == 0,
    ensures
        f & RCC_CFGR_SW_MASK == 0 ==> read_cfgr(f) & RCC_CFGR_SWS_MASK == 0,
        (read_cfgr(f) & !RCC_CFGR_SW_MASK) & !RCC_CFGR_SWS_MASK == f & !RCC_CFGR_SW_MASK,
        (f & !RCC_CFGR_SW_MASK) & RCC_CFGR_SW_MASK == 0,
        (f & !RCC_CFGR_SW_MASK) & RCC_CFGR_SWS_MASK == 0,
        (f & !RCC_CFGR_SW_MASK) & !RCC_CFGR_SW_MASK == f & !RCC_CFGR_SW_MASK,
{
    let x = read_cfgr(f);
    assert(f & 0xCu32 == 0 ==> {
        &&& (f & 3u32 == 0 ==> x & 0xCu32 == 0)
        &&& (x & !3u32) & !0xCu32 == f & !3u32
        &&& (f & !3u32) & 3u32 == 0
        &&& (f & !3u32) & 0xCu32 == 0
        &&& (f & !3u32) & !3u32 == f & !3u32
    }) by (bit_vector)
        requires
            x == (f & !0xCu32) | ((f & 3u32) << 2u32),
    ;
}

/// On registers that respond at once, configuration finishes within
/// `clock_steps()` steps and leaves exactly `configured(r)`.
pub proof fn lemma_clock_run_result(r: ClockRegs)
    requires
        regs_wf(r),
    ensures
        clock_run(r, ClockState::Start, 0, clock_steps()) == (configured(r), ClockState::Finished),
        regs_wf(configured(r)),
{
    reveal_with_fuel(clock_run, 15);
    lemma_cr_bits(r.cr);
    lemma_cr_bits(r.cr | RCC_CR_MSION);
    lemma_cr_bits((r.cr | RCC_CR_MSION) & !RCC_CR_PLLON);
    lemma_cfgr_bits(r.cfgr);
    lemma_cfgr_bits(r.cfgr & !RCC_CFGR_SW_MASK);
}

/// Configuring the clock twice in succession leaves the registers as
/// configuring it once does: MSI on and ready, 4 MHz, MSI selected, PLL off.
pub proof fn lemma_clock_idempotent(r: ClockRegs)
    requires
        regs_wf(r),
    ensures
        ({
            let once = clock_run(r, ClockState::Start, 0, clock_steps());
            let twice = clock_run(once.0, ClockState::Start, 0, clock_steps());
            &&& twice == once
            &&& once.1 is Finished
            &&& read_cr(once.0.cr) & RCC_CR_MSIRDY != 0
            &&& once.0.cr & RCC_CR_PLLON == 0
            &&& once.0.icscr & RCC_ICSCR_MSIRANGE_MASK == RCC_ICSCR_MSIRANGE_4MHZ
            &&& read_cfgr(once.0.cfgr) & RCC_CFGR_SWS_MASK == 0
        }),
{
    lemma_clock_run_result(r);
    let c = configured(r);
    lemma_clock_run_result(c);
    lemma_clock_writes_idempotent(r.cr, r.icscr, r.cfgr);
    lemma_cr_bits(r.cr);
    lemma_cr_bits(r.cr | RCC_CR_MSION);
    lemma_cr_bits(c.cr);
    lemma_cfgr_bits(r.cfgr);
    lemma_cfgr_bits(c.cfgr);
    assert(configured(c) == c);
}

} // verus!
