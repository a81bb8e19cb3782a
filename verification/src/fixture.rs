//! The description of the database server image the smoke tests run
//! against: image name, tag, the log line that signals readiness, and
//! the environment the server needs.
//!
//! The description is plain, fixed data with exact contracts; actually
//! running a container from it is the test harness's business, outside
//! this crate.

use vstd::prelude::*;
use vstd::string::StringExecFns;

verus! {

/// The containerised database server image used for smoke testing.
#[derive(Debug, Clone, PartialEq, Eq)]
pub struct MSSQL {
}

impl Default for MSSQL {
    /// The one and only description.
    fn default() -> (d: MSSQL)
        ensures
            d == (MSSQL {  }),
    {
        MSSQL {  }
    }
}

impl MSSQL {
    /// The image name.
    pub fn name(&self) -> (r: String)
        ensures
            r@ == "mcr.microsoft.com/mssql/server"@,
    {
        String::from_str("mcr.microsoft.com/mssql/server")
    }

    /// The image tag.
    pub fn tag(&self) -> (r: String)
        ensures
            r@ == "2017-CU12"@,
    {
        String::from_str("2017-CU12")
    }

    /// The log messages whose appearance means the server is ready.
    pub fn ready_conditions(&self) -> (r: Vec<String>)
        ensures
            r@.len() == 1,
            r@[0]@
                == "Recovery is complete. This is an informational message only. No user action is required."@,
    {
        let mut v: Vec<String> = Vec::new();
        v.push(
            String::from_str(
                "Recovery is complete. This is an informational message only. No user action is required.",
            ),
        );
        v
    }

    /// The environment the server container needs: the administrator
    /// password and the licence acceptance flag.
    pub fn env_vars(&self) -> (r: Vec<(String, String)>)
        ensures
            r@.len() == 2,
            r@[0].0@ == "SA_PASSWORD"@,
            r@[0].1@ == "ThePassword1!"@,
            r@[1].0@ == "ACCEPT_EULA"@,
            r@[1].1@ == "Y"@,
    {
        let mut v: Vec<(String, String)> = Vec::new();
        v.push((String::from_str("SA_PASSWORD"), String::from_str("ThePassword1!")));
        v.push((String::from_str("ACCEPT_EULA"), String::from_str("Y")));
        v
    }
}

} // verus!
