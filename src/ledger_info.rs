//! The ledger record and the conventions that relate its fields.
use vstd::prelude::*;

verus! {

/// A snapshot of the metadata of one ledger.
///
/// `max_entry_ttl` is kept in the host's convention, which counts the
/// current ledger; every other interface speaks of TTLs without it.
#[derive(Clone, Copy, Debug, PartialEq, Eq)]
pub struct LedgerInfo {
    pub protocol_version: u32,
    pub sequence_number: u32,
    pub timestamp: u64,
    pub network_id: [u8; 32],
    pub base_reserve: u32,
    pub min_temp_entry_ttl: u32,
    pub min_persistent_entry_ttl: u32,
    pub max_entry_ttl: u32,
}

/// The host-convention value of a TTL given without the current ledger:
/// one more, saturating at `u32::MAX`.
pub open spec fn ttl_with_current_ledger(ttl: u32) -> u32 {
    if ttl < u32::MAX {
        (ttl + 1) as u32
    } else {
        u32::MAX
    }
}

/// The last ledger sequence up to which an entry may stay live: the current
/// sequence plus the maximum TTL, the current ledger counted once.
pub open spec fn max_live_until(info: LedgerInfo) -> int {
    info.sequence_number + info.max_entry_ttl - 1
}

/// The host can name the last live ledger only when it is a `u32`.
pub open spec fn max_live_until_fits(info: LedgerInfo) -> bool {
    0 <= max_live_until(info) <= u32::MAX
}

impl LedgerInfo {
    pub open spec fn with_protocol_version(self, v: u32) -> LedgerInfo {
        LedgerInfo { protocol_version: v, ..self }
    }

    pub open spec fn with_sequence_number(self, v: u32) -> LedgerInfo {
        LedgerInfo { sequence_number: v, ..self }
    }

    pub open spec fn with_timestamp(self, v: u64) -> LedgerInfo {
        LedgerInfo { timestamp: v, ..self }
    }

    pub open spec fn with_network_id(self, v: [u8; 32]) -> LedgerInfo {
        LedgerInfo { network_id: v, ..self }
    }

    pub open spec fn with_base_reserve(self, v: u32) -> LedgerInfo {
        LedgerInfo { base_reserve: v, ..self }
    }

    pub open spec fn with_min_temp_entry_ttl(self, v: u32) -> LedgerInfo {
        LedgerInfo { min_temp_entry_ttl: v, ..self }
    }

    pub open spec fn with_min_persistent_entry_ttl(self, v: u32) -> LedgerInfo {
        LedgerInfo { min_persistent_entry_ttl: v, ..self }
    }

    /// The record after a maximum TTL given without the current ledger has
    /// been stored in the host's convention.
    pub open spec fn with_max_entry_ttl(self, ttl: u32) -> LedgerInfo {
        LedgerInfo { max_entry_ttl: ttl_with_current_ledger(ttl), ..self }
    }
}

/// A maximum TTL below `u32::MAX` is stored as one more, so that the host
/// counts the current ledger too.
pub proof fn lemma_max_entry_ttl_counts_current_ledger(info: LedgerInfo, n: u32)
    requires
        n < u32::MAX,
    ensures
        info.with_max_entry_ttl(n).max_entry_ttl == n + 1,
{
}

/// A maximum TTL of `u32::MAX` is stored as `u32::MAX`: the conversion
/// saturates and never wraps.
pub proof fn lemma_max_entry_ttl_saturates(info: LedgerInfo)
    ensures
        info.with_max_entry_ttl(u32::MAX).max_entry_ttl == u32::MAX,
{
}

/// The network identifier read after setting one is exactly the 32 bytes set.
pub proof fn lemma_network_id_reads_back(info: LedgerInfo, id: [u8; 32])
    ensures
        info.with_network_id(id).network_id == id,
        info.with_network_id(id).network_id@ == id@,
{
}

/// Each field setter changes its own field and leaves every other field as
/// it was.
pub proof fn lemma_setters_change_one_field(
    info: LedgerInfo,
    protocol_version: u32,
    sequence_number: u32,
    timestamp: u64,
    network_id: [u8; 32],
    base_reserve: u32,
    min_temp_entry_ttl: u32,
    min_persistent_entry_ttl: u32,
    max_entry_ttl: u32,
)
    ensures
        info.with_protocol_version(protocol_version).protocol_version == protocol_version,
        info.with_protocol_version(protocol_version).sequence_number == info.sequence_number,
        info.with_protocol_version(protocol_version).timestamp == info.timestamp,
        info.with_protocol_version(protocol_version).network_id == info.network_id,
        info.with_protocol_version(protocol_version).base_reserve == info.base_reserve,
        info.with_protocol_version(protocol_version).min_temp_entry_ttl == info.min_temp_entry_ttl,
        info.with_protocol_version(protocol_version).min_persistent_entry_ttl == info.min_persistent_entry_ttl,
        info.with_protocol_version(protocol_version).max_entry_ttl == info.max_entry_ttl,
        info.with_sequence_number(sequence_number).protocol_version == info.protocol_version,
        info.with_sequence_number(sequence_number).sequence_number == sequence_number,
        info.with_sequence_number(sequence_number).timestamp == info.timestamp,
        info.with_sequence_number(sequence_number).network_id == info.network_id,
        info.with_sequence_number(sequence_number).base_reserve == info.base_reserve,
        info.with_sequence_number(sequence_number).min_temp_entry_ttl == info.min_temp_entry_ttl,
        info.with_sequence_number(sequence_number).min_persistent_entry_ttl == info.min_persistent_entry_ttl,
        info.with_sequence_number(sequence_number).max_entry_ttl == info.max_entry_ttl,
        info.with_timestamp(timestamp).protocol_version == info.protocol_version,
        info.with_timestamp(timestamp).sequence_number == info.sequence_number,
        info.with_timestamp(timestamp).timestamp == timestamp,
        info.with_timestamp(timestamp).network_id == info.network_id,
        info.with_timestamp(timestamp).base_reserve == info.base_reserve,
        info.with_timestamp(timestamp).min_temp_entry_ttl == info.min_temp_entry_ttl,
        info.with_timestamp(timestamp).min_persistent_entry_ttl == info.min_persistent_entry_ttl,
        info.with_timestamp(timestamp).max_entry_ttl == info.max_entry_ttl,
        info.with_network_id(network_id).protocol_version == info.protocol_version,
        info.with_network_id(network_id).sequence_number == info.sequence_number,
        info.with_network_id(network_id).timestamp == info.timestamp,
        info.with_network_id(network_id).network_id == network_id,
        info.with_network_id(network_id).base_reserve == info.base_reserve,
        info.with_network_id(network_id).min_temp_entry_ttl == info.min_temp_entry_ttl,
        info.with_network_id(network_id).min_persistent_entry_ttl == info.min_persistent_entry_ttl,
        info.with_network_id(network_id).max_entry_ttl == info.max_entry_ttl,
        info.with_base_reserve(base_reserve).protocol_version == info.protocol_version,
        info.with_base_reserve(base_reserve).sequence_number == info.sequence_number,
        info.with_base_reserve(base_reserve).timestamp == info.timestamp,
        info.with_base_reserve(base_reserve).network_id == info.network_id,
        info.with_base_reserve(base_reserve).base_reserve == base_reserve,
        info.with_base_reserve(base_reserve).min_temp_entry_ttl == info.min_temp_entry_ttl,
        info.with_base_reserve(base_reserve).min_persistent_entry_ttl == info.min_persistent_entry_ttl,
        info.with_base_reserve(base_reserve).max_entry_ttl == info.max_entry_ttl,
        info.with_min_temp_entry_ttl(min_temp_entry_ttl).protocol_version == info.protocol_version,
        info.with_min_temp_entry_ttl(min_temp_entry_ttl).sequence_number == info.sequence_number,
        info.with_min_temp_entry_ttl(min_temp_entry_ttl).timestamp == info.timestamp,
        info.with_min_temp_entry_ttl(min_temp_entry_ttl).network_id == info.network_id,
        info.with_min_temp_entry_ttl(min_temp_entry_ttl).base_reserve == info.base_reserve,
        info.with_min_temp_entry_ttl(min_temp_entry_ttl).min_temp_entry_ttl == min_temp_entry_ttl,
        info.with_min_temp_entry_ttl(min_temp_entry_ttl).min_persistent_entry_ttl == info.min_persistent_entry_ttl,
        info.with_min_temp_entry_ttl(min_temp_entry_ttl).max_entry_ttl == info.max_entry_ttl,
        info.with_min_persistent_entry_ttl(min_persistent_entry_ttl).protocol_version == info.protocol_version,
        info.with_min_persistent_entry_ttl(min_persistent_entry_ttl).sequence_number == info.sequence_number,
        info.with_min_persistent_entry_ttl(min_persistent_entry_ttl).timestamp == info.timestamp,
        info.with_min_persistent_entry_ttl(min_persistent_entry_ttl).network_id == info.network_id,
        info.with_min_persistent_entry_ttl(min_persistent_entry_ttl).base_reserve == info.base_reserve,
        info.with_min_persistent_entry_ttl(min_persistent_entry_ttl).min_temp_entry_ttl == info.min_temp_entry_ttl,
        info.with_min_persistent_entry_ttl(min_persistent_entry_ttl).min_persistent_entry_ttl == min_persistent_entry_ttl,
        info.with_min_persistent_entry_ttl(min_persistent_entry_ttl).max_entry_ttl == info.max_entry_ttl,
        info.with_max_entry_ttl(max_entry_ttl).protocol_version == info.protocol_version,
        info.with_max_entry_ttl(max_entry_ttl).sequence_number == info.sequence_number,
        info.with_max_entry_ttl(max_entry_ttl).timestamp == info.timestamp,
        info.with_max_entry_ttl(max_entry_ttl).network_id == info.network_id,
        info.with_max_entry_ttl(max_entry_ttl).base_reserve == info.base_reserve,
        info.with_max_entry_ttl(max_entry_ttl).min_temp_entry_ttl == info.min_temp_entry_ttl,
        info.with_max_entry_ttl(max_entry_ttl).min_persistent_entry_ttl == info.min_persistent_entry_ttl,
        info.with_max_entry_ttl(max_entry_ttl).max_entry_ttl == ttl_with_current_ledger(max_entry_ttl),
{
}

} // verus!
