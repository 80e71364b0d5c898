//! Settings of the store session and the insert statement.
//!
//! One session is opened at startup and shared by every request. Row values
//! are always bound as parameters, in the column order of `INSERT_READING`,
//! never written into the statement text.

use vstd::prelude::*;

verus! {

/// Seconds allowed for the initial connection to the cluster.
pub const CONNECT_TIMEOUT_SECS: u64 = 3;

/// Seconds between refreshes of the cluster's topology.
pub const METADATA_REFRESH_SECS: u64 = 10;

/// Parameterized insert of one stored row into the selected keyspace.
pub const INSERT_READING: &'static str =
    "INSERT INTO temps (name,time,\"auth-code\",humidity,id,pressure,temp) VALUES (?,?,?,?,?,?,?)";

} // verus!
