//! The process-lifetime configuration: constructed once at startup from
//! the environment, immutable afterwards, shared by every request.

use vstd::prelude::*;
use crate::sign::is_known_region_name;

verus! {

/// Listen address and the one bucket this proxy serves. `region` holds the
/// canonical (lower-case, dashed) region name; an unknown region name is a
/// fatal startup error, so no request handler ever sees one.
pub struct Config {
    pub port: u16,
    pub host: String,
    pub region: String,
    pub bucket: String,
}

impl Config {
    /// A well-formed configuration names a region the signer knows.
    pub open spec fn wf(self) -> bool {
        is_known_region_name(self.region@)
    }

    /// Builds the configuration; the caller has already validated the
    /// region name, as startup fails on one that does not parse.
    pub fn new(port: u16, host: String, region: String, bucket: String) -> (c: Config)
        requires
            is_known_region_name(region@),
        ensures
            c.port == port,
            c.host == host,
            c.region == region,
            c.bucket == bucket,
            c.wf(),
    {
        Config { port, host, region, bucket }
    }
}

} // verus!
