//! A command-pipeline layer over a compressed bitmap: it normalizes the
//! pipeline's heterogeneous inputs (ranges, lists, raw bytes, streams,
//! bitmap handles) into one canonical in-memory bitmap and answers
//! cardinality, membership, enumeration and serialization queries on it.

use vstd::prelude::*;

pub mod bitmap;
pub mod command;
pub mod error;
pub mod input;
pub mod laws;
pub mod range;

pub use command::contains::ContainsCommand;
pub use command::len::LenCommand;
pub use command::list::ListCommand;
pub use command::new::NewCommand;
pub use command::serialize::SerializeCommand;

verus! {

/// The plugin root: the commands this crate offers.
pub struct RoaringPlugin;

impl RoaringPlugin {
    /// The names of the commands, in registration order.
    pub fn commands(&self) -> (names: Vec<&'static str>)
        ensures
            names@.len() == 5,
            names@[0]@ == "roaring new"@,
            names@[1]@ == "roaring len"@,
            names@[2]@ == "roaring contains"@,
            names@[3]@ == "roaring list"@,
            names@[4]@ == "roaring ser"@,
    {
        let mut names: Vec<&'static str> = Vec::new();
        names.push("roaring new");
        names.push("roaring len");
        names.push("roaring contains");
        names.push("roaring list");
        names.push("roaring ser");
        names
    }
}

} // verus!
