//! Telemetry: uptime and the internal temperature sensor.
use vstd::prelude::*;

verus! {

/// Integer division rounding toward zero, as Rust's `/` does on signed integers.
pub open spec fn div_trunc(a: int, b: int) -> int
    recommends
        b > 0,
{
    if a >= 0 {
        a / b
    } else {
        -((-a) / b)
    }
}

/// Temperature in degrees Celsius for a raw 12-bit reading of the sensor:
/// 27 - (V - 706 mV) / 1.721 mV per degree, with V = raw * 3300 / 4096 mV.
pub open spec fn temperature_c(raw: u16) -> int {
    let v_mv = raw as int * 3300 / 4096;
    27 - div_trunc((v_mv - 706) * 1000, 1721)
}

/// Read temperature from the internal sensor in degrees Celsius.
///
/// `reading` is the raw ADC value, or `None` if the ADC is not initialized or the
/// reading failed, in which case the result is 0.
pub fn read_temperature_c(reading: Option<u16>) -> (r: i32)
    ensures
        r == match reading {
            None => 0,
            Some(raw) => temperature_c(raw),
        },
{
    let raw = match reading {
        Some(val) => val,
        None => return 0,
    };
    let v_mv = (raw as i32) * 3300 / 4096;
    let temp = 27 - (v_mv - 706) * 1000 / 1721;
    temp
}

/// Whole seconds elapsed since boot, truncated to 32 bits; 0 before the boot time is
/// recorded. Times are in ticks of a timer running at `tick_hz`.
pub fn uptime_secs(boot: Option<u64>, now: u64, tick_hz: u64) -> (r: u32)
    requires
        tick_hz > 0,
        boot matches Some(b) ==> now >= b,
    ensures
        r == match boot {
            None => 0,
            Some(b) => (((now - b) / tick_hz as int) % 0x1_0000_0000int),
        },
{
    match boot {
        Some(b) => {
            let secs = (now - b) / tick_hz;
            assert((secs as u32) as u64 == secs % 0x1_0000_0000u64) by (bit_vector);
            secs as u32
        },
        None => 0,
    }
}

} // verus!
