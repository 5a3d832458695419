//! Trusted view of the kernel submission-entry type.
//!
//! A submission entry is an opaque descriptor built by the concrete I/O
//! wrappers; the core only ever stamps its correlation token into the entry's
//! `user_data` field and hands the entry on towards the kernel.

use vstd::prelude::*;

verus! {

#[verifier::external_type_specification]
#[verifier::external_body]
pub struct ExEntry(io_uring::squeue::Entry);

/// The correlation token carried in a submission entry's `user_data` field.
pub uninterp spec fn entry_user_data(e: io_uring::squeue::Entry) -> u64;

/// Relies on io_uring::squeue::Entry::user_data: it returns the entry with
/// `data` stored in its `user_data` field.
#[verifier::external_body]
pub fn with_user_data(e: io_uring::squeue::Entry, data: u64) -> (r: io_uring::squeue::Entry)
    ensures
        entry_user_data(r) == data,
{
    e.user_data(data)
}

} // verus!
