//! Typed access to the current ledger, and the test-time mutators.
use vstd::prelude::*;

use crate::env::Env;
use crate::ledger_info::{max_live_until, max_live_until_fits, LedgerInfo};

verus! {

/// Reads the metadata of the ledger that its environment holds.
#[derive(Clone, Copy, Debug)]
pub struct Ledger(Env);

impl View for Ledger {
    type V = LedgerInfo;

    closed spec fn view(&self) -> LedgerInfo {
        self.0@
    }
}

impl Ledger {
    pub closed spec fn spec_env(&self) -> Env {
        self.0
    }

    pub fn env(&self) -> (r: &Env)
        ensures
            *r == self.spec_env(),
    {
        &self.0
    }

    pub fn new(env: &Env) -> (r: Ledger)
        ensures
            r.spec_env() == *env,
            r@ == env@,
    {
        Ledger(*env)
    }

    /// The version of the protocol that the ledger was created with.
    pub fn protocol_version(&self) -> (r: u32)
        ensures
            r == self@.protocol_version,
    {
        self.env().get_ledger_version()
    }

    /// The sequence number of the ledger.
    pub fn sequence(&self) -> (r: u32)
        ensures
            r == self@.sequence_number,
    {
        self.env().get_ledger_sequence()
    }

    /// The last ledger sequence up to which data can stay live.
    pub fn max_live_until_ledger(&self) -> (r: u32)
        requires
            max_live_until_fits(self@),
        ensures
            r == max_live_until(self@),
    {
        self.env().get_max_live_until_ledger()
    }

    /// The unix time, in seconds without leap seconds, at which the ledger
    /// was closed.
    pub fn timestamp(&self) -> (r: u64)
        ensures
            r == self@.timestamp,
    {
        self.env().get_ledger_timestamp()
    }

    /// The network identifier: the digest of the network passphrase.
    pub fn network_id(&self) -> (r: [u8; 32])
        ensures
            r == self@.network_id,
    {
        self.env().get_ledger_network_id()
    }

    /// Whether this ledger may be changed, which holds in a test environment
    /// only.
    pub open spec fn mutable(&self) -> bool {
        self.spec_env().is_testing()
    }

    /// Replaces the whole record.
    pub fn set(&mut self, li: LedgerInfo)
        requires
            old(self).mutable(),
        ensures
            final(self).mutable(),
            final(self)@ == li,
    {
        let r = self.0.set_ledger_info(li);
        proof {
            assert(r is Ok);
        }
    }

    pub fn set_protocol_version(&mut self, protocol_version: u32)
        requires
            old(self).mutable(),
        ensures
            final(self).mutable(),
            final(self)@ == old(self)@.with_protocol_version(protocol_version),
    {
        let update = |li: LedgerInfo| -> (r: LedgerInfo)
            ensures
                r == li.with_protocol_version(protocol_version),
            {
                LedgerInfo { protocol_version, ..li }
            };
        self.with_mut(update);
    }

    pub fn set_sequence_number(&mut self, sequence_number: u32)
        requires
            old(self).mutable(),
        ensures
            final(self).mutable(),
            final(self)@ == old(self)@.with_sequence_number(sequence_number),
    {
        let update = |li: LedgerInfo| -> (r: LedgerInfo)
            ensures
                r == li.with_sequence_number(sequence_number),
            {
                LedgerInfo { sequence_number, ..li }
            };
        self.with_mut(update);
    }

    pub fn set_timestamp(&mut self, timestamp: u64)
        requires
            old(self).mutable(),
        ensures
            final(self).mutable(),
            final(self)@ == old(self)@.with_timestamp(timestamp),
    {
        let update = |li: LedgerInfo| -> (r: LedgerInfo)
            ensures
                r == li.with_timestamp(timestamp),
            {
                LedgerInfo { timestamp, ..li }
            };
        self.with_mut(update);
    }

    pub fn set_network_id(&mut self, network_id: [u8; 32])
        requires
            old(self).mutable(),
        ensures
            final(self).mutable(),
            final(self)@ == old(self)@.with_network_id(network_id),
    {
        let update = |li: LedgerInfo| -> (r: LedgerInfo)
            ensures
                r == li.with_network_id(network_id),
            {
                LedgerInfo { network_id, ..li }
            };
        self.with_mut(update);
    }

    pub fn set_base_reserve(&mut self, base_reserve: u32)
        requires
            old(self).mutable(),
        ensures
            final(self).mutable(),
            final(self)@ == old(self)@.with_base_reserve(base_reserve),
    {
        let update = |li: LedgerInfo| -> (r: LedgerInfo)
            ensures
                r == li.with_base_reserve(base_reserve),
            {
                LedgerInfo { base_reserve, ..li }
            };
        self.with_mut(update);
    }

    pub fn set_min_temp_entry_ttl(&mut self, min_temp_entry_ttl: u32)
        requires
            old(self).mutable(),
        ensures
            final(self).mutable(),
            final(self)@ == old(self)@.with_min_temp_entry_ttl(min_temp_entry_ttl),
    {
        let update = |li: LedgerInfo| -> (r: LedgerInfo)
            ensures
                r == li.with_min_temp_entry_ttl(min_temp_entry_ttl),
            {
                LedgerInfo { min_temp_entry_ttl, ..li }
            };
        self.with_mut(update);
    }

    pub fn set_min_persistent_entry_ttl(&mut self, min_persistent_entry_ttl: u32)
        requires
            old(self).mutable(),
        ensures
            final(self).mutable(),
            final(self)@ == old(self)@.with_min_persistent_entry_ttl(min_persistent_entry_ttl),
    {
        let update = |li: LedgerInfo| -> (r: LedgerInfo)
            ensures
                r == li.with_min_persistent_entry_ttl(min_persistent_entry_ttl),
            {
                LedgerInfo { min_persistent_entry_ttl, ..li }
            };
        self.with_mut(update);
    }

    /// Sets the maximum TTL, given without the current ledger. The host
    /// counts the current ledger, so one more is stored, saturating at
    /// `u32::MAX`.
    pub fn set_max_entry_ttl(&mut self, max_entry_ttl: u32)
        requires
            old(self).mutable(),
        ensures
            final(self).mutable(),
            final(self)@ == old(self)@.with_max_entry_ttl(max_entry_ttl),
    {
        let update = |li: LedgerInfo| -> (r: LedgerInfo)
            ensures
                r == li.with_max_entry_ttl(max_entry_ttl),
            {
                LedgerInfo { max_entry_ttl: max_entry_ttl.saturating_add(1), ..li }
            };
        self.with_mut(update);
    }

    /// A copy of the current record; changing it leaves the ledger as it is.
    pub fn get(&self) -> (r: LedgerInfo)
        ensures
            r == self@,
    {
        self.env().get_ledger_info()
    }

    /// Applies `f` to the record and keeps the record it returns.
    pub fn with_mut<F: FnOnce(LedgerInfo) -> LedgerInfo>(&mut self, f: F)
        requires
            old(self).mutable(),
            f.requires((old(self)@,)),
        ensures
            final(self).mutable(),
            f.ensures((old(self)@,), final(self)@),
    {
        let r = self.0.with_mut_ledger_info(f);
        proof {
            assert(r is Ok);
        }
    }
}

} // verus!
