//! Shapes shared with the HTTP API.

use vstd::prelude::*;

verus! {

/// The envelope of every API response.
#[derive(Clone, Debug, PartialEq)]
pub struct ResultData<T> {
    pub data: Option<T>,
    pub msg: Option<String>,
    pub total: Option<usize>,
}

/// The servers the client talks to.
#[derive(Clone, Copy, Debug, PartialEq, Eq, Structural)]
pub enum Host {
    ApiBase,
    Base,
}

impl Host {
    /// The base address of this server.
    pub open spec fn spec_url(self) -> Seq<char> {
        match self {
            Host::ApiBase => "http://localhost:8881/api"@,
            Host::Base => "http://localhost:8881"@,
        }
    }

    /// The base address of this server.
    pub fn url(&self) -> (r: &'static str)
        ensures
            r@ == self.spec_url(),
    {
        match self {
            Host::ApiBase => "http://localhost:8881/api",
            Host::Base => "http://localhost:8881",
        }
    }
}

} // verus!
