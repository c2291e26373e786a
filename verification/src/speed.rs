//! Minimum-throughput enforcement for one streaming transfer. The caller
//! streams the bytes and the clock; this module holds the byte count and
//! decides, exactly, when a transfer counts as too slow.

use vstd::prelude::*;

verus! {

/// Seconds a transfer must have run before the running average is judged.
pub const SPEED_CHECK_DELAY_SECS: u64 = 3;

/// Average throughput in whole bytes per second, with the elapsed time
/// floored to one second so a completed transfer never divides by zero.
pub open spec fn avg_bps(received: u64, elapsed_secs: u64) -> int {
    (received as int) / (if elapsed_secs == 0 {
        1int
    } else {
        elapsed_secs as int
    })
}

/// A running transfer is too slow once it has run at least
/// `SPEED_CHECK_DELAY_SECS` seconds with a running average below the floor.
pub open spec fn too_slow_mid(received: u64, elapsed_secs: u64, floor_bps: u64) -> bool {
    elapsed_secs >= SPEED_CHECK_DELAY_SECS && (received as int) / (elapsed_secs as int) < floor_bps
}

/// A completed transfer is too slow when its overall average is below the
/// floor.
pub open spec fn too_slow_final(received: u64, elapsed_secs: u64, floor_bps: u64) -> bool {
    avg_bps(received, elapsed_secs) < floor_bps
}

/// Watches one streaming transfer against a throughput floor.
pub struct SpeedGuard {
    pub floor_bps: u64,
    pub received: u64,
}

impl SpeedGuard {
    pub fn new(floor_bps: u64) -> (r: SpeedGuard)
        ensures
            r.floor_bps == floor_bps,
            r.received == 0,
    {
        SpeedGuard { floor_bps, received: 0 }
    }

    /// Accounts one received chunk and decides whether the transfer may
    /// continue: `false` exactly when the running average has fallen below
    /// the floor after the initial grace period.
    pub fn record_chunk(&mut self, chunk_len: u64, elapsed_secs: u64) -> (ok: bool)
        requires
            old(self).received + chunk_len <= u64::MAX,
        ensures
            final(self).floor_bps == old(self).floor_bps,
            final(self).received == old(self).received + chunk_len,
            ok == !too_slow_mid(final(self).received, elapsed_secs, final(self).floor_bps),
    {
        self.received = self.received + chunk_len;
        if elapsed_secs >= SPEED_CHECK_DELAY_SECS {
            let bps = self.received / elapsed_secs;
            bps >= self.floor_bps
        } else {
            true
        }
    }

    /// The check made once the stream ends: `false` exactly when the
    /// overall average throughput is below the floor.
    pub fn final_check(&self, elapsed_secs: u64) -> (ok: bool)
        ensures
            ok == !too_slow_final(self.received, elapsed_secs, self.floor_bps),
    {
        let secs = if elapsed_secs == 0 {
            1
        } else {
            elapsed_secs
        };
        let bps = self.received / secs;
        bps >= self.floor_bps
    }
}

} // verus!
