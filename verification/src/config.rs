use vstd::prelude::*;

verus! {

/// Connection settings handed to the transport layer; the mapping layer
/// itself only ever reads `url` and `token` to assemble the endpoint base.
pub struct Config {
    /// Environment: Debug mode.
    pub debug: bool,
    /// Environment: Is production.
    pub production: bool,
    /// Bot API token.
    pub token: String,
    /// Bot API base url.
    pub url: String,
    /// Request timeout in seconds.
    pub timeout: u64,
    /// Connect timeout in seconds.
    pub connect_timeout: u64,
}

impl Config {
    /// Builds a configuration value from already-parsed settings.
    pub fn new(
        debug: bool,
        production: bool,
        token: String,
        url: String,
        timeout: u64,
        connect_timeout: u64,
    ) -> (c: Config)
        ensures
            c.debug == debug,
            c.production == production,
            c.token@ == token@,
            c.url@ == url@,
            c.timeout == timeout,
            c.connect_timeout == connect_timeout,
    {
        Config { debug, production, token, url, timeout, connect_timeout }
    }

    /// The base url every method call is sent under: `<url>bot<token>/`.
    pub fn build_url(&self) -> (r: String)
        ensures
            r@ == self.url@ + "bot"@ + self.token@ + "/"@,
    {
        let mut r = self.url.clone();
        r.append("bot");
        r.append(self.token.as_str());
        r.append("/");
        r
    }
}

} // verus!
