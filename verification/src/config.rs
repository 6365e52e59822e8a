//! What the deployment supplies: credentials and endpoints. A value that is
//! absent makes the one call that needs it fail; nothing else depends on it.

use vstd::prelude::*;

verus! {

/// The settings of one deployment. `None` stands for a setting that was not
/// supplied; an empty string is a supplied setting.
#[derive(Clone, Debug, PartialEq, Eq)]
pub struct Config {
    /// The key for the search provider.
    pub search_api_key: Option<String>,
    /// The identifier of the search scope to query.
    pub search_scope: Option<String>,
    /// The base URL of the tunnel to the self-hosted code model.
    pub tunnel_url: Option<String>,
    /// The key for the hosted generative API.
    pub generative_api_key: Option<String>,
}

/// The settings of a deployment as plain text.
pub struct ConfigView {
    pub search_api_key: Option<Seq<char>>,
    pub search_scope: Option<Seq<char>>,
    pub tunnel_url: Option<Seq<char>>,
    pub generative_api_key: Option<Seq<char>>,
}

/// The characters of an optional setting.
pub open spec fn setting(value: Option<String>) -> Option<Seq<char>> {
    match value {
        Some(text) => Some(text@),
        None => None,
    }
}

impl View for Config {
    type V = ConfigView;

    open spec fn view(&self) -> ConfigView {
        ConfigView {
            search_api_key: setting(self.search_api_key),
            search_scope: setting(self.search_scope),
            tunnel_url: setting(self.tunnel_url),
            generative_api_key: setting(self.generative_api_key),
        }
    }
}

} // verus!
