use vstd::prelude::*;
use vstd::string::*;

verus! {

/// The `napcat` section of the configuration file.
#[derive(Debug, Clone)]
pub struct NapcatConfig {
    pub adapter: NapcatAdapterConfig,
}

/// Connection settings of the NapCat websocket adapter.
#[derive(Debug, Clone)]
pub struct NapcatAdapterConfig {
    pub url: String,
    pub token: String,
}

/// The query-string key under which the access token travels.
pub open spec fn access_token_query() -> Seq<char> {
    seq!['?', 'a', 'c', 'c', 'e', 's', 's', '_', 't', 'o', 'k', 'e', 'n', '=']
}

impl NapcatAdapterConfig {
    /// The websocket address with the access token appended as a query parameter.
    pub fn ws_address_with_token(&self) -> (address: String)
        ensures
            address@ == self.url@ + access_token_query() + self.token@,
            address@ == self.url@ + "?access_token="@ + self.token@,
    {
        let mut address = self.url.clone();
        let key = "?access_token=";
        proof {
            reveal_strlit("?access_token=");
        }
        address.append(key);
        address.append(self.token.as_str());
        address
    }
}

} // verus!
