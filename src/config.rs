use vstd::prelude::*;

use crate::common::text;

verus! {

#[verifier::external_type_specification]
#[verifier::external_body]
pub struct ExUrl(url::Url);

#[verifier::external_type_specification]
#[verifier::external_body]
pub struct ExParseError(url::ParseError);

/// Whether `Url::parse` reads an absolute URL from the characters `s`.
pub uninterp spec fn url_parses(s: Seq<char>) -> bool;

/// Relies on url::Url::parse: `Ok` exactly when the input reads as an
/// absolute URL, which depends on the input alone.
#[verifier::external_body]
fn parse_url(s: &str) -> (r: Result<url::Url, url::ParseError>)
    ensures
        r is Ok == url_parses(s@),
{
    url::Url::parse(s)
}

/// Why a configuration was refused.
#[derive(PartialEq, Eq, Structural, Clone, Copy, Debug)]
pub enum ConfigError {
    /// The server address is not an absolute URL.
    InvalidTarget,
    /// The keepalive interval is zero.
    ZeroPingInterval,
    /// The reconnect delay is zero.
    ZeroReconnectDelay,
}

/// Settings fixed at start-up.
pub struct Config {
    /// The socket server's address (`ws://` or `wss://`).
    pub ws_url: String,
    /// The base address of the HTTP API.
    pub api_url: String,
    /// Seconds between keepalive probes.
    pub ping_interval: u64,
    /// Seconds to wait after a failed connection attempt.
    pub reconnect_delay: u64,
}

/// `s` without the `c` characters at its end.
pub open spec fn trim_end(s: Seq<char>, c: char) -> Seq<char>
    decreases s.len(),
{
    if s.len() > 0 && s.last() == c {
        trim_end(s.drop_last(), c)
    } else {
        s
    }
}

/// `s` without the `c` characters at its start.
pub open spec fn trim_start(s: Seq<char>, c: char) -> Seq<char>
    decreases s.len(),
{
    if s.len() > 0 && s[0] == c {
        trim_start(s.drop_first(), c)
    } else {
        s
    }
}

/// The address of an API endpoint: the base without trailing slashes, one
/// slash, the endpoint without leading slashes.
pub open spec fn api_url_of(base: Seq<char>, endpoint: Seq<char>) -> Seq<char> {
    trim_end(base, '/') + seq!['/'] + trim_start(endpoint, '/')
}

proof fn lemma_trim_end_prefix(s: Seq<char>, c: char, n: int)
    requires
        0 <= n <= s.len(),
        forall|i: int| n <= i < s.len() ==> s[i] == c,
    ensures
        trim_end(s, c) == trim_end(s.subrange(0, n), c),
    decreases s.len() - n,
{
    if n < s.len() {
        assert(s.drop_last() =~= s.subrange(0, s.len() - 1));
        assert(s.drop_last().subrange(0, n) =~= s.subrange(0, n));
        lemma_trim_end_prefix(s.drop_last(), c, n);
    } else {
        assert(s.subrange(0, n) =~= s);
    }
}

proof fn lemma_trim_start_suffix(s: Seq<char>, c: char, n: int)
    requires
        0 <= n <= s.len(),
        forall|i: int| 0 <= i < n ==> s[i] == c,
    ensures
        trim_start(s, c) == trim_start(s.subrange(n, s.len() as int), c),
    decreases n,
{
    if n > 0 {
        assert(s.drop_first().subrange(n - 1, s.drop_first().len() as int) =~= s.subrange(
            n,
            s.len() as int,
        ));
        lemma_trim_start_suffix(s.drop_first(), c, n - 1);
    } else {
        assert(s.subrange(0, s.len() as int) =~= s);
    }
}

fn without_trailing_slashes(s: &str) -> (r: &str)
    ensures
        r@ == trim_end(s@, '/'),
{
    let n = s.unicode_len();
    let mut end: usize = n;
    while end > 0 && s.get_char(end - 1) == '/'
        invariant
            end <= n == s@.len(),
            forall|i: int| end <= i < n ==> s@[i] == '/',
        decreases end,
    {
        end = end - 1;
    }
    proof {
        lemma_trim_end_prefix(s@, '/', end as int);
    }
    s.substring_char(0, end)
}

fn without_leading_slashes(s: &str) -> (r: &str)
    ensures
        r@ == trim_start(s@, '/'),
{
    let n = s.unicode_len();
    let mut start: usize = 0;
    while start < n && s.get_char(start) == '/'
        invariant
            start <= n == s@.len(),
            forall|i: int| 0 <= i < start ==> s@[i] == '/',
        decreases n - start,
    {
        start = start + 1;
    }
    proof {
        lemma_trim_start_suffix(s@, '/', start as int);
    }
    s.substring_char(start, n)
}

impl Config {
    /// A configuration, refused when the server address is not an absolute
    /// URL or either period is zero. The address is checked first.
    pub fn new(ws_url: String, api_url: String, ping_interval: u64, reconnect_delay: u64) -> (r:
        Result<Config, ConfigError>)
        ensures
            !url_parses(ws_url@) ==> r == Err::<Config, ConfigError>(ConfigError::InvalidTarget),
            url_parses(ws_url@) && ping_interval == 0 ==> r == Err::<Config, ConfigError>(
                ConfigError::ZeroPingInterval,
            ),
            url_parses(ws_url@) && ping_interval > 0 && reconnect_delay == 0 ==> r == Err::<
                Config,
                ConfigError,
            >(ConfigError::ZeroReconnectDelay),
            url_parses(ws_url@) && ping_interval > 0 && reconnect_delay > 0 ==> r == Ok::<
                Config,
                ConfigError,
            >(Config { ws_url, api_url, ping_interval, reconnect_delay }),
    {
        if parse_url(ws_url.as_str()).is_err() {
            return Err(ConfigError::InvalidTarget);
        }
        if ping_interval == 0 {
            return Err(ConfigError::ZeroPingInterval);
        }
        if reconnect_delay == 0 {
            return Err(ConfigError::ZeroReconnectDelay);
        }
        Ok(Config { ws_url, api_url, ping_interval, reconnect_delay })
    }

    /// The parsed server address, `None` when it is not an absolute URL.
    pub fn ws_target(&self) -> (r: Option<url::Url>)
        ensures
            r is Some == url_parses(self.ws_url@),
    {
        match parse_url(self.ws_url.as_str()) {
            Ok(u) => Some(u),
            Err(_) => None,
        }
    }

    /// Gets the URL for the given API endpoint.
    pub fn get_api_url(&self, endpoint: &str) -> (r: String)
        ensures
            r@ == api_url_of(self.api_url@, endpoint@),
    {
        let base = without_trailing_slashes(self.api_url.as_str());
        let rest = without_leading_slashes(endpoint);
        proof {
            reveal_strlit("/");
        }
        text(base).concat("/").concat(rest)
    }
}

} // verus!
