//! The name that a client keeps between runs.

use crate::outside::{is_uuid, new_uuid};
use crate::path::PathParts;
use crate::text::opt_text;
use vstd::prelude::*;
use vstd::string::*;

verus! {

/// The name of the client, as it is kept on disk.
#[derive(Debug)]
pub struct StorageManager {
    client_id: String,
}

/// The directory of the database.
pub fn database_dir() -> (r: PathParts)
    ensures
        r@ == seq!["work"@, "db"@],
{
    let r = PathParts::from_text("work").join("db");
    assert(r@ =~= seq!["work"@, "db"@]);
    r
}

/// The file of the database.
pub fn database_file() -> (r: PathParts)
    ensures
        r@ == seq!["work"@, "db"@, "client.db"@],
{
    let r = database_dir().join("client.db");
    assert(r@ =~= seq!["work"@, "db"@, "client.db"@]);
    r
}

/// The address of the database at `path`.
pub fn database_url(path: &str) -> (r: String)
    ensures
        r@ == "sqlite:"@ + path@,
{
    "sqlite:".to_owned().concat(path)
}

impl StorageManager {
    /// The name of the client.
    pub closed spec fn id(&self) -> Seq<char> {
        self.client_id@
    }

    /// The name that was kept, or else `new_id`, and whether it is to be kept.
    pub fn from_stored(stored: Option<String>, new_id: String) -> (r: (Self, bool))
        ensures
            match stored {
                Some(id) => r.0.id() == id@ && !r.1,
                None => r.0.id() == new_id@ && r.1,
            },
    {
        match stored {
            Some(id) => (StorageManager { client_id: id }, false),
            None => (StorageManager { client_id: new_id }, true),
        }
    }

    /// The name that was kept, or else a random one, and whether it is to be
    /// kept.
    pub fn get_or_create_client_id(stored: Option<String>) -> (r: (Self, bool))
        ensures
            r.1 == (stored is None),
            match opt_text(stored) {
                Some(id) => r.0.id() == id,
                None => is_uuid(r.0.id()),
            },
    {
        match stored {
            Some(id) => StorageManager::from_stored(Some(id), String::new()),
            None => StorageManager::from_stored(None, new_uuid()),
        }
    }

    /// The name of the client.
    pub fn get_id(&self) -> (r: &str)
        ensures
            r@ == self.id(),
    {
        self.client_id.as_str()
    }
}

} // verus!
