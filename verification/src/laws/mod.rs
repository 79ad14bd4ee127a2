//! What the operations are for: laws on what comes of them, over all that they
//! may be given. Where a law speaks of an operation, it holds of every result
//! that the operation may give.

pub mod answers;
pub mod clients;
pub mod combining;
pub mod cutting;
pub mod encoding;
pub mod jobs;
pub mod lists;
pub mod probing;
pub mod servers;
pub mod texts;
pub mod transfers;
