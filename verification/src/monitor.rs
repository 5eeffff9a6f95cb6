//! A change monitor: remembers a hash of the state it watches and the tick
//! at which the state last changed, so a panel can hold its writes back
//! until the consumer has stopped editing.
//!
//! The clock is the caller's: every method takes the current tick in
//! milliseconds.

use vstd::prelude::*;
use vstd::std_specs::hash::DefaultHasherAdditionalSpecFns;

verus! {

/// About a year, in milliseconds: the sleep that [`StateMonitor::sleep`]
/// uses to hold writes back until the next real change.
pub const SLEEP_MS: u64 = 31536000000;

/// Watches one value's hash code over time.
pub struct StateMonitor {
    /// The hash code last seen.
    pub current_hash: u64,
    /// The tick at which the watched state is next considered changed.
    pub last_modification_ms: u64,
}

impl StateMonitor {
    /// A monitor that saw code zero at the given tick.
    pub fn new(now_ms: u64) -> (r: Self)
        ensures
            r.current_hash == 0,
            r.last_modification_ms == now_ms,
    {
        StateMonitor { current_hash: 0, last_modification_ms: now_ms }
    }

    /// Pushes the modification mark `delta_ms` past the current tick.
    pub fn advance(&mut self, now_ms: u64, delta_ms: u64)
        ensures
            final(self).current_hash == old(self).current_hash,
            final(self).last_modification_ms == now_ms as int + delta_ms as int
                || (final(self).last_modification_ms == u64::MAX && now_ms + delta_ms
                > u64::MAX),
    {
        self.last_modification_ms = if now_ms <= u64::MAX - delta_ms {
            now_ms + delta_ms
        } else {
            u64::MAX
        };
    }

    /// Whether `wait_ms` has passed since the last modification.
    pub fn time_elapsed(&self, now_ms: u64, wait_ms: u64) -> (r: bool)
        ensures
            r == (now_ms >= self.last_modification_ms as int + wait_ms as int),
    {
        wait_ms <= now_ms && self.last_modification_ms <= now_ms - wait_ms
    }

    /// Holds writes back for about a year, until the next real change.
    pub fn sleep(&mut self, now_ms: u64)
        ensures
            final(self).current_hash == old(self).current_hash,
            final(self).last_modification_ms == now_ms as int + SLEEP_MS as int
                || (final(self).last_modification_ms == u64::MAX && now_ms + SLEEP_MS
                > u64::MAX),
    {
        self.advance(now_ms, SLEEP_MS)
    }

    /// Notes the watched state's current code; a changed code marks this
    /// tick as the last modification.
    pub fn update(&mut self, code: u64, now_ms: u64)
        ensures
            final(self).current_hash == code,
            code == old(self).current_hash ==> final(self).last_modification_ms == old(
                self,
            ).last_modification_ms,
            code != old(self).current_hash ==> final(self).last_modification_ms == now_ms,
    {
        if code != self.current_hash {
            self.current_hash = code;
            self.last_modification_ms = now_ms;
        }
    }
}

/// The hash code of one byte string, under the standard library's default
/// hasher.
pub fn hash_bytes(bytes: &Vec<u8>) -> (r: u64)
    ensures
        r == std::collections::hash_map::DefaultHasher::spec_finish(seq![bytes@]),
{
    let mut h = std::collections::hash_map::DefaultHasher::new();
    std::hash::Hasher::write(&mut h, bytes.as_slice());
    proof {
        assert(h@ =~= seq![bytes@]);
    }
    std::hash::Hasher::finish(&h)
}

} // verus!
