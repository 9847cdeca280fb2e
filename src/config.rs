//! The server's settings, checked once when the server starts.

use vstd::prelude::*;

use crate::path::{is_prefix_of, starts_with};
use crate::uri::{parse_uri, uri_accepted};

verus! {

/// The largest TCP port number.
pub const MAX_PORT: u32 = 65535;

/// `c` is an ASCII decimal digit.
pub open spec fn is_digit(c: char) -> bool {
    '0' <= c && c <= '9'
}

/// The value of the decimal digit `c`.
pub open spec fn digit_value(c: char) -> nat {
    (c as nat - '0' as nat) as nat
}

/// The number written by the decimal digits `s`, most significant first.
pub open spec fn decimal_value(s: Seq<char>) -> nat
    decreases s.len(),
{
    if s.len() == 0 {
        0
    } else {
        decimal_value(s.drop_last()) * 10 + digit_value(s.last())
    }
}

/// `s` writes a port number: one or more decimal digits, at most `MAX_PORT`.
pub open spec fn is_port_text(s: Seq<char>) -> bool {
    &&& s.len() > 0
    &&& forall|i: int| 0 <= i < s.len() ==> is_digit(#[trigger] s[i])
    &&& decimal_value(s) <= MAX_PORT
}

/// The number of characters of the scheme part (`http://` or `https://`)
/// that `s` starts with, or 0 when it starts with neither.
pub open spec fn scheme_len(s: Seq<char>) -> int {
    if is_prefix_of("http://"@, s) {
        7
    } else if is_prefix_of("https://"@, s) {
        8
    } else {
        0
    }
}

/// `s` is an absolute HTTP URI prefix: an `http` or `https` scheme, a
/// non-empty authority, an optional path, and text that the URI parser
/// accepts.
pub open spec fn is_upstream_base(s: Seq<char>) -> bool {
    &&& scheme_len(s) > 0
    &&& scheme_len(s) < s.len()
    &&& s[scheme_len(s)] != '/'
    &&& uri_accepted(s)
}

/// `s` can serve as the API prefix: it is an absolute path.
pub open spec fn is_api_prefix(s: Seq<char>) -> bool {
    s.len() > 0 && s[0] == '/'
}

proof fn lemma_value_of_prefix(s: Seq<char>, k: int)
    requires
        0 <= k <= s.len(),
        forall|i: int| 0 <= i < s.len() ==> is_digit(#[trigger] s[i]),
    ensures
        decimal_value(s.take(k)) <= decimal_value(s),
    decreases s.len() - k,
{
    if k < s.len() {
        let t = s.drop_last();
        assert forall|i: int| 0 <= i < t.len() implies is_digit(#[trigger] t[i]) by {
            assert(t[i] == s[i]);
        }
        lemma_value_of_prefix(t, k);
        assert(t.take(k) =~= s.take(k));
    } else {
        assert(s.take(k) =~= s);
    }
}

/// Reads a port number from its decimal text.
pub fn parse_port(s: &str) -> (r: Option<u16>)
    ensures
        r is Some <==> is_port_text(s@),
        r matches Some(p) ==> p as nat == decimal_value(s@),
{
    let n = s.unicode_len();
    if n == 0 {
        return None;
    }
    let mut v: u32 = 0;
    let mut i: usize = 0;
    while i < n
        invariant
            n == s@.len(),
            i <= n,
            v as nat == decimal_value(s@.take(i as int)),
            v <= MAX_PORT,
            forall|k: int| 0 <= k < i ==> is_digit(#[trigger] s@[k]),
        decreases n - i,
    {
        let c = s.get_char(i);
        if !('0' <= c && c <= '9') {
            return None;
        }
        assert(s@.take(i + 1).drop_last() =~= s@.take(i as int));
        let d = (c as u32) - ('0' as u32);
        v = v * 10 + d;
        i = i + 1;
        if v > MAX_PORT {
            proof {
                if forall|k: int| 0 <= k < s@.len() ==> is_digit(#[trigger] s@[k]) {
                    lemma_value_of_prefix(s@, i as int);
                }
            }
            return None;
        }
    }
    assert(s@.take(n as int) =~= s@);
    Some(v as u16)
}

/// Why the settings cannot start a server.
#[derive(Clone, Copy, Debug, PartialEq, Eq, Structural)]
pub enum ConfigError {
    /// The listen port is not a decimal number up to `MAX_PORT`.
    BadPort,
    /// The API prefix is not an absolute path.
    BadPrefix,
    /// The upstream base is not an absolute `http` or `https` URI.
    BadUpstreamBase,
    /// The static root is empty.
    EmptyStaticRoot,
}

/// The settings that every request reads; they never change once made.
pub struct ServerConfig {
    pub port: u16,
    pub prefix: String,
    pub upstream_base: String,
    pub static_root: String,
}

impl ServerConfig {
    /// The settings are those that `new` accepts.
    pub open spec fn wf(&self) -> bool {
        &&& is_api_prefix(self.prefix@)
        &&& is_upstream_base(self.upstream_base@)
        &&& self.static_root@.len() > 0
    }

    /// Checks the settings, in the order port, prefix, upstream base, static
    /// root, and fails on the first that is not valid.
    pub fn new(port: &str, prefix: &str, upstream_base: &str, static_root: &str) -> (r: Result<
        ServerConfig,
        ConfigError,
    >)
        ensures
            r is Ok <==> (is_port_text(port@) && is_api_prefix(prefix@) && is_upstream_base(
                upstream_base@,
            ) && static_root@.len() > 0),
            r matches Ok(c) ==> {
                &&& c.wf()
                &&& c.port as nat == decimal_value(port@)
                &&& c.prefix@ == prefix@
                &&& c.upstream_base@ == upstream_base@
                &&& c.static_root@ == static_root@
            },
            r == Err::<ServerConfig, ConfigError>(ConfigError::BadPort) <==> !is_port_text(port@),
            r == Err::<ServerConfig, ConfigError>(ConfigError::BadPrefix) <==> (is_port_text(port@)
                && !is_api_prefix(prefix@)),
            r == Err::<ServerConfig, ConfigError>(ConfigError::BadUpstreamBase) <==> (
            is_port_text(port@) && is_api_prefix(prefix@) && !is_upstream_base(upstream_base@)),
            r == Err::<ServerConfig, ConfigError>(ConfigError::EmptyStaticRoot) <==> (
            is_port_text(port@) && is_api_prefix(prefix@) && is_upstream_base(upstream_base@)
                && static_root@.len() == 0),
    {
        let port_number = match parse_port(port) {
            Some(p) => p,
            None => return Err(ConfigError::BadPort),
        };
        if prefix.unicode_len() == 0 || prefix.get_char(0) != '/' {
            return Err(ConfigError::BadPrefix);
        }
        if !check_upstream_base(upstream_base) {
            return Err(ConfigError::BadUpstreamBase);
        }
        if static_root.unicode_len() == 0 {
            return Err(ConfigError::EmptyStaticRoot);
        }
        Ok(
            ServerConfig {
                port: port_number,
                prefix: String::from_str(prefix),
                upstream_base: String::from_str(upstream_base),
                static_root: String::from_str(static_root),
            },
        )
    }
}

/// Tests whether `s` can serve as the upstream base.
pub fn check_upstream_base(s: &str) -> (r: bool)
    ensures
        r == is_upstream_base(s@),
{
    proof {
        reveal_strlit("http://");
        reveal_strlit("https://");
    }
    let skip: usize = if starts_with(s, "http://") {
        7
    } else if starts_with(s, "https://") {
        8
    } else {
        return false;
    };
    if s.unicode_len() <= skip || s.get_char(skip) == '/' {
        return false;
    }
    parse_uri(s).is_ok()
}

} // verus!
