//! Runtime configuration: the single recognized option is the listen address.

use vstd::prelude::*;

verus! {

/// Configuration surface of the exporter. The only recognized option is the
/// socket address the HTTP server listens on.
pub struct Config {
    pub listen: String,
}

impl Default for Config {
    /// The default listen address serves every interface on port 9185.
    fn default() -> (r: Config)
        ensures
            r.listen@ == "[::]:9185"@,
    {
        Config { listen: String::from_str("[::]:9185") }
    }
}

} // verus!
