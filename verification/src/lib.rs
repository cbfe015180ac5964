//! Snapshot-identity and record/replay support for test suites.
//!
//! The crate derives stable, collision-resistant names for the snapshots a
//! test emits, keeps a shared counter table that disambiguates repeated
//! names, decides between recording and replaying a mocked call, and
//! carries redaction rules that rewrite a structured value before it is
//! persisted. Storage itself — snapshot files on disk — is a collaborator
//! spoken to through the [`store::SnapshotStore`] interface.

pub mod assertions;
pub mod counters;
pub mod errors;
pub mod mocks;
pub mod pathutil;
pub mod pytest_info;
pub mod redactions;
pub mod snapshot_info;
pub mod store;
pub mod strutil;
