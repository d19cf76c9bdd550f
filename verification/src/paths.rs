//! Where the files stand, below the directory that holds the application's data.

use vstd::prelude::*;

verus! {

/// The name of the log's file.
pub open spec fn spec_wal_file_name() -> Seq<char> {
    "operation.wal"@
}

/// The name of the registry's file.
pub open spec fn spec_registry_file_name() -> Seq<char> {
    "vaults.json"@
}

/// The name of the log's file. That the file is there says that a
/// transaction is in progress; there is no other mark of it.
pub fn wal_file_name() -> (name: &'static str)
    ensures
        name@ == spec_wal_file_name(),
{
    "operation.wal"
}

/// The name of the registry's file, which recovery writes back.
pub fn registry_file_name() -> (name: &'static str)
    ensures
        name@ == spec_registry_file_name(),
{
    "vaults.json"
}

} // verus!
