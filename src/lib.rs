//! Metadata about the ledger that a contract invocation runs in, and the
//! test-time interface that replaces or edits it.
pub mod env;
pub mod ledger;
pub mod ledger_info;
