//! The timings of the modem's pins and start-up, in milliseconds.
use vstd::prelude::*;

verus! {

/// How long `PWR_ON` is held low to switch the modem on.
pub fn pwr_on_time() -> (r: u64)
    ensures
        r == 100,
{
    100
}

/// How long `PWR_ON` is held low to switch the modem off gracefully.
pub fn pwr_off_time() -> (r: u64)
    ensures
        r == 3000,
{
    3000
}

/// How long `RESET_N` is held low to reset the modem.
pub fn reset_time() -> (r: u64)
    ensures
        r == 200,
{
    200
}

/// How long the modem takes to boot.
pub fn boot_time() -> (r: u64)
    ensures
        r == 10000,
{
    10000
}

/// How long the runner waits for the modem to answer `AT` after power-up.
pub fn alive_timeout() -> (r: u64)
    ensures
        r == 2 * 10000,
{
    2 * boot_time()
}

} // verus!
