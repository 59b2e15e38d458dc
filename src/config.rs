//! The configuration document, as the data that templates are rendered with.
//!
//! The library only carries these values: it gives them their defaults and
//! never interprets them. A partition's identifier is a UUID held as its 128-bit
//! value.

use vstd::prelude::*;

verus! {

/// The host name that a configuration has when the document gives none.
pub open spec fn default_hostname() -> Seq<char> {
    seq!['m', 'a', 'p', 'l', 'e']
}

/// The `fsck` pass number of a partition whose entry gives none.
pub const DEFAULT_FSCK: usize = 2;

/// One partition entry of the configuration.
#[derive(Debug, Clone)]
pub struct PartitionConfiguration {
    pub format: String,
    pub fsck: usize,
    pub id: u128,
    pub mountpoint: Option<String>,
    pub options: Vec<String>,
}

/// The whole configuration document.
#[derive(Debug, Clone)]
pub struct Configuration {
    pub hostname: String,
    pub partition: Vec<PartitionConfiguration>,
}

/// The `fsck` pass number of a partition entry that leaves it out.
pub fn partition_default_fsck() -> (r: usize)
    ensures
        r == DEFAULT_FSCK,
{
    DEFAULT_FSCK
}

/// The mount options of a partition entry that leaves them out: none.
pub fn partition_default_options() -> (r: Vec<String>)
    ensures
        r@.len() == 0,
{
    Vec::new()
}

impl Default for Configuration {
    /// The configuration of a document that sets nothing: host name `maple`,
    /// no partitions.
    fn default() -> (r: Self)
        ensures
            r.hostname@ == default_hostname(),
            r.partition@.len() == 0,
    {
        proof {
            reveal_strlit("maple");
        }
        let hostname = "maple".to_owned();
        assert(hostname@ =~= default_hostname());
        Configuration { hostname, partition: Vec::new() }
    }
}

} // verus!
