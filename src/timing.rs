use vstd::prelude::*;

verus! {

/// Inner loop iterations per millisecond at the 4 MHz system clock.
pub const CYCLES_PER_MS: u32 = 4000;

/// Relies on core::hint::spin_loop: a no-effect instruction that the
/// compiler may not remove, so each loop iteration takes time.
#[verifier::external_body]
fn spin_once() {
    core::hint::spin_loop()
}

/// Spins `cycles` times; returns the number of spins made.
pub fn delay_cycles(cycles: u32) -> (n: u32)
    ensures
        n == cycles,
{
    let mut left: u32 = cycles;
    while left != 0
        invariant
            left <= cycles,
        decreases left,
    {
        spin_once();
        left = left - 1;
    }
    cycles - left
}

/// Busy-waits for about `ms` milliseconds; returns the number of spins made.
pub fn delay_ms(ms: u32) -> (n: u64)
    ensures
        n == ms as int * CYCLES_PER_MS as int,
{
    let mut left: u32 = ms;
    let mut total: u64 = 0;
    while left != 0
        invariant
            left <= ms,
            total == (ms - left) as int * CYCLES_PER_MS as int,
        decreases left,
    {
        let spun = delay_cycles(CYCLES_PER_MS);
        total = total + spun as u64;
        left = left - 1;
    }
    total
}

} // verus!
