//! Configuration for the embedding backend. The network call that turns
//! text into vectors lives outside the library; what is modelled here is
//! the client configuration the gateway constructs at startup.

use vstd::prelude::*;
use vstd::string::StringExecFns;

verus! {

/// Configuration of the hosted embedding model: the fixed model name and
/// the account credentials the requests are sent with.
#[derive(Clone, Debug)]
pub struct CfBaaiBgeM3Embeder {
    pub model_name: String,
    pub account_id: String,
    pub api_token: String,
}

impl CfBaaiBgeM3Embeder {
    /// A client configuration for the given account: the model name is
    /// fixed, the credentials are taken as given.
    pub fn new(account_id: String, api_token: String) -> (r: CfBaaiBgeM3Embeder)
        ensures
            r.model_name@ == "@cf/baai/bge-m3"@,
            r.account_id@ == account_id@,
            r.api_token@ == api_token@,
    {
        CfBaaiBgeM3Embeder {
            model_name: String::from_str("@cf/baai/bge-m3"),
            account_id,
            api_token,
        }
    }
}

} // verus!
