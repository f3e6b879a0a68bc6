//! The host side: the environment that owns the ledger record and answers
//! the calls made on it.
use vstd::prelude::*;

use crate::ledger_info::{max_live_until, max_live_until_fits, LedgerInfo};

verus! {

/// The error the host returns when the ledger record is asked to change
/// outside a test environment.
#[derive(Clone, Copy, Debug, PartialEq, Eq)]
pub enum HostError {
    LedgerNotMutable,
}

/// An environment: the current ledger record, and whether the host runs as
/// a test harness, the only mode in which the record may change.
#[derive(Clone, Copy, Debug)]
pub struct Env {
    ledger_info: LedgerInfo,
    testing: bool,
}

impl View for Env {
    type V = LedgerInfo;

    closed spec fn view(&self) -> LedgerInfo {
        self.ledger_info
    }
}

impl Env {
    /// Whether the ledger record of this environment may be changed.
    pub closed spec fn is_testing(&self) -> bool {
        self.testing
    }

    /// An environment running a contract against a fixed ledger.
    pub fn new(ledger_info: LedgerInfo) -> (r: Env)
        ensures
            r@ == ledger_info,
            !r.is_testing(),
    {
        Env { ledger_info, testing: false }
    }

    /// An environment of a test harness, whose ledger record may be changed.
    pub fn new_testing(ledger_info: LedgerInfo) -> (r: Env)
        ensures
            r@ == ledger_info,
            r.is_testing(),
    {
        Env { ledger_info, testing: true }
    }

    pub fn testing(&self) -> (r: bool)
        ensures
            r == self.is_testing(),
    {
        self.testing
    }

    pub fn get_ledger_version(&self) -> (r: u32)
        ensures
            r == self@.protocol_version,
    {
        self.ledger_info.protocol_version
    }

    pub fn get_ledger_sequence(&self) -> (r: u32)
        ensures
            r == self@.sequence_number,
    {
        self.ledger_info.sequence_number
    }

    /// The last ledger sequence up to which an entry may stay live.
    pub fn get_max_live_until_ledger(&self) -> (r: u32)
        requires
            max_live_until_fits(self@),
        ensures
            r == max_live_until(self@),
    {
        let seq = self.ledger_info.sequence_number as u64;
        let ttl = self.ledger_info.max_entry_ttl as u64;
        (seq + ttl - 1) as u32
    }

    pub fn get_ledger_timestamp(&self) -> (r: u64)
        ensures
            r == self@.timestamp,
    {
        self.ledger_info.timestamp
    }

    pub fn get_ledger_network_id(&self) -> (r: [u8; 32])
        ensures
            r == self@.network_id,
    {
        self.ledger_info.network_id
    }

    /// A copy of the current record.
    pub fn get_ledger_info(&self) -> (r: LedgerInfo)
        ensures
            r == self@,
    {
        self.ledger_info
    }

    /// Replaces the record; refused, with the record kept, outside a test
    /// environment.
    pub fn set_ledger_info(&mut self, ledger_info: LedgerInfo) -> (r: Result<(), HostError>)
        ensures
            final(self).is_testing() == old(self).is_testing(),
            old(self).is_testing() ==> r is Ok && final(self)@ == ledger_info,
            !old(self).is_testing() ==> r == Err::<(), HostError>(HostError::LedgerNotMutable)
                && final(self)@ == old(self)@,
    {
        if self.testing {
            self.ledger_info = ledger_info;
            Ok(())
        } else {
            Err(HostError::LedgerNotMutable)
        }
    }

    /// Applies `f` to the record and keeps what it returns; refused, with the
    /// record kept and `f` not called, outside a test environment.
    pub fn with_mut_ledger_info<F: FnOnce(LedgerInfo) -> LedgerInfo>(&mut self, f: F) -> (r: Result<
        (),
        HostError,
    >)
        requires
            old(self).is_testing() ==> f.requires((old(self)@,)),
        ensures
            final(self).is_testing() == old(self).is_testing(),
            old(self).is_testing() ==> r is Ok && f.ensures((old(self)@,), final(self)@),
            !old(self).is_testing() ==> r == Err::<(), HostError>(HostError::LedgerNotMutable)
                && final(self)@ == old(self)@,
    {
        if self.testing {
            self.ledger_info = f(self.ledger_info);
            Ok(())
        } else {
            Err(HostError::LedgerNotMutable)
        }
    }
}

} // verus!
