//! The database in which the server keeps its clients.

use crate::path::PathParts;
use vstd::prelude::*;
use vstd::string::*;

verus! {

/// The file of the database in a directory.
pub fn database_file(db_dir: &PathParts) -> (r: PathParts)
    ensures
        r@ == db_dir@.push("server.db"@),
{
    db_dir.join("server.db")
}

/// The address of the database at `path`, which is created if it is not there.
pub fn database_url(path: &str) -> (r: String)
    ensures
        r@ == "sqlite://"@ + path@ + "?mode=rwc"@,
{
    "sqlite://".to_owned().concat(path).concat("?mode=rwc")
}

} // verus!
