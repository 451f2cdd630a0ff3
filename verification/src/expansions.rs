//! The expansion interface: an optional host-provided module that the engine
//! invokes on a flagged SYNC to repopulate the utility buffer.

use vstd::prelude::*;

verus! {

use crate::engine::zeros;

/// An expansion observes and rewrites the utility buffer when the guest
/// triggers it through SYNC. The engine lends it a zeroed scratch buffer of
/// `MEMSIZE` words for the duration of the call; the expansion's writes become
/// the new utility buffer.
pub trait Expansion {
    /// The interface version the expansion was built against; a host loader
    /// accepts only the exact version it expects.
    fn api_version(&self) -> u32;

    /// Called exactly once, before the engine executes its first instruction.
    fn on_init(&mut self);

    /// Called exactly once, by `Engine::shutdown`, when the host is done with
    /// the engine, and only if `on_init` had fired.
    fn on_deinit(&mut self);

    /// Called on each triggered sync. The buffer is always a freshly zeroed
    /// full bank, so triggers are independent events; the expansion may read
    /// and write it freely, but must leave it a full bank.
    fn expansion_triggered(&mut self, buffer: &mut Vec<u16>)
        requires
            old(buffer)@ == zeros(),
        ensures
            final(buffer)@.len() == old(buffer)@.len(),
    ;
}

/// The null expansion: triggering it leaves the scratch buffer zeroed, so the
/// utility buffer is cleared.
pub struct NoExpansion;

impl Expansion for NoExpansion {
    fn api_version(&self) -> (version: u32)
        ensures
            version == 1,
    {
        1
    }

    fn on_init(&mut self) {
    }

    fn on_deinit(&mut self) {
    }

    fn expansion_triggered(&mut self, buffer: &mut Vec<u16>)
        ensures
            final(buffer)@ == old(buffer)@,
    {
    }
}

/// Relies on rand::random: a freshly sampled value of the thread-local
/// generator; nothing can be promised of it.
#[verifier::external_body]
fn random_word() -> u16 {
    rand::random::<u16>()
}

/// An expansion that fills the utility buffer with fresh random words on each
/// trigger.
pub struct RandomExpansion;

impl Expansion for RandomExpansion {
    fn api_version(&self) -> (version: u32)
        ensures
            version == 1,
    {
        1
    }

    fn on_init(&mut self) {
    }

    fn on_deinit(&mut self) {
    }

    fn expansion_triggered(&mut self, buffer: &mut Vec<u16>) {
        let n = buffer.len();
        let mut i: usize = 0;
        while i < n
            invariant
                i <= n,
                buffer@.len() == n,
                n == old(buffer)@.len(),
            decreases n - i,
        {
            buffer[i] = random_word();
            i = i + 1;
        }
    }
}

} // verus!
