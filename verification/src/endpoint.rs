//! The endpoint string grammar and its normalisation.
//!
//! An endpoint may be given as a bare port (`:3000`), as `host:port`, as
//! `host:port/path`, or as a full URL with an `http` or `https` scheme.
//! Normalisation fills in the defaults: scheme `http`, host `localhost`
//! (only for the bare-port form), the scheme's default port, and path
//! `/metrics`. Anything else — another scheme, a malformed host, a port
//! that is not a number below 65536 — is rejected.

use vstd::prelude::*;
use vstd::string::*;
use crate::text::{str_eq, find_from, lemma_find_from, lemma_find_from_unique, find_char, is_digit,
    digit_val, all_digits, dec_value, lemma_dec_value_prefix_le};

verus! {

/// Why an endpoint string was rejected.
#[derive(Clone, Copy, PartialEq, Eq, Structural, Debug)]
pub enum EndpointParseError {
    /// The host part is empty where one is required, or holds a character
    /// that cannot appear in a host name.
    InvalidHost,
    /// The port part is empty, not a number, or larger than 65535.
    InvalidPort,
    /// The path part holds a character outside printable ASCII.
    InvalidPath,
}

/// True when `s` begins with `p`.
pub open spec fn starts_with(s: Seq<char>, p: Seq<char>) -> bool {
    s.len() >= p.len() && s.subrange(0, p.len() as int) == p
}

/// True when the input names the `https` scheme explicitly.
pub open spec fn spec_is_https(s: Seq<char>) -> bool {
    starts_with(s, "https://"@)
}

/// True when the input names the `http` scheme explicitly.
pub open spec fn spec_is_http(s: Seq<char>) -> bool {
    !spec_is_https(s) && starts_with(s, "http://"@)
}

/// True when the input names its scheme explicitly.
pub open spec fn spec_has_scheme(s: Seq<char>) -> bool {
    spec_is_https(s) || spec_is_http(s)
}

/// The input with any explicit scheme prefix removed.
pub open spec fn spec_rest(s: Seq<char>) -> Seq<char> {
    if spec_is_https(s) {
        s.subrange(8, s.len() as int)
    } else if spec_is_http(s) {
        s.subrange(7, s.len() as int)
    } else {
        s
    }
}

/// The scheme of the normalised endpoint: as given, or `http` by default.
pub open spec fn spec_scheme(s: Seq<char>) -> Seq<char> {
    if spec_is_https(s) {
        "https"@
    } else {
        "http"@
    }
}

/// Where the host part of `r` ends: at the first `:` or `/`, whichever
/// comes first, or at the end of `r`.
pub open spec fn spec_host_end(r: Seq<char>) -> int {
    let colon = find_from(r, 0, ':');
    let slash = find_from(r, 0, '/');
    if colon < slash {
        colon
    } else {
        slash
    }
}

/// The host part of `r`, possibly empty.
pub open spec fn spec_raw_host(r: Seq<char>) -> Seq<char> {
    r.subrange(0, spec_host_end(r))
}

/// True when `r` has an explicit port part.
pub open spec fn spec_has_port(r: Seq<char>) -> bool {
    find_from(r, 0, ':') < find_from(r, 0, '/')
}

/// The port part of `r`: between the colon and the first slash.
pub open spec fn spec_raw_port(r: Seq<char>) -> Seq<char>
    recommends
        spec_has_port(r),
{
    r.subrange(find_from(r, 0, ':') + 1, find_from(r, 0, '/'))
}

/// True when `r` has a path part.
pub open spec fn spec_has_path(r: Seq<char>) -> bool {
    find_from(r, 0, '/') < r.len()
}

/// The path part of `r`: from the first slash to the end.
pub open spec fn spec_raw_path(r: Seq<char>) -> Seq<char>
    recommends
        spec_has_path(r),
{
    r.subrange(find_from(r, 0, '/'), r.len() as int)
}

/// True for the characters accepted in a host name.
pub open spec fn is_host_char(c: char) -> bool {
    ||| ('a' as int <= c as int && c as int <= 'z' as int)
    ||| ('A' as int <= c as int && c as int <= 'Z' as int)
    ||| is_digit(c)
    ||| c == '.'
    ||| c == '-'
    ||| c == '_'
}

/// True when every character of `h` may appear in a host name.
pub open spec fn all_host_chars(h: Seq<char>) -> bool {
    forall|j: int| 0 <= j < h.len() ==> is_host_char(#[trigger] h[j])
}

/// True for the characters accepted in a path: printable ASCII, no space.
pub open spec fn is_path_char(c: char) -> bool {
    '!' as int <= c as int && c as int <= '~' as int
}

/// True when every character of `p` may appear in a path.
pub open spec fn all_path_chars(p: Seq<char>) -> bool {
    forall|j: int| 0 <= j < p.len() ==> is_path_char(#[trigger] p[j])
}

/// The host part of the input is acceptable: either non-empty and made of
/// host characters, or empty in the bare-port form (no explicit scheme,
/// an explicit port), where it defaults to `localhost`.
pub open spec fn spec_host_ok(s: Seq<char>) -> bool {
    let r = spec_rest(s);
    let h = spec_raw_host(r);
    if h.len() == 0 {
        !spec_has_scheme(s) && spec_has_port(r)
    } else {
        all_host_chars(h)
    }
}

/// The port part of the input, if any, is a non-empty digit string whose
/// value fits a port number.
pub open spec fn spec_port_ok(s: Seq<char>) -> bool {
    let r = spec_rest(s);
    spec_has_port(r) ==> {
        let p = spec_raw_port(r);
        p.len() > 0 && all_digits(p) && dec_value(p) <= 65535
    }
}

/// The path part of the input, if any, is made of path characters.
pub open spec fn spec_path_ok(s: Seq<char>) -> bool {
    let r = spec_rest(s);
    spec_has_path(r) ==> all_path_chars(spec_raw_path(r))
}

/// True when the input is an acceptable endpoint string.
pub open spec fn spec_endpoint_valid(s: Seq<char>) -> bool {
    spec_host_ok(s) && spec_port_ok(s) && spec_path_ok(s)
}

/// The host of the normalised endpoint.
pub open spec fn spec_norm_host(s: Seq<char>) -> Seq<char> {
    let h = spec_raw_host(spec_rest(s));
    if h.len() == 0 {
        "localhost"@
    } else {
        h
    }
}

/// The port of the normalised endpoint: as given, or the scheme's default.
pub open spec fn spec_norm_port(s: Seq<char>) -> Seq<char> {
    let r = spec_rest(s);
    if spec_has_port(r) {
        spec_raw_port(r)
    } else if spec_is_https(s) {
        "443"@
    } else {
        "80"@
    }
}

/// The path of the normalised endpoint: as given, or `/metrics` when the
/// input has no path or only `/`.
pub open spec fn spec_norm_path(s: Seq<char>) -> Seq<char> {
    let r = spec_rest(s);
    if !spec_has_path(r) {
        "/metrics"@
    } else {
        let p = spec_raw_path(r);
        if p == "/"@ {
            "/metrics"@
        } else {
            p
        }
    }
}

/// The normalised endpoint string.
pub open spec fn spec_normalized(s: Seq<char>) -> Seq<char> {
    spec_scheme(s) + "://"@ + spec_norm_host(s) + ":"@ + spec_norm_port(s) + spec_norm_path(s)
}

/// A parsed URL, held as plain parts. The port is kept as the digit string
/// it was written as, or as the scheme's default.
#[derive(Clone, Debug)]
pub struct UrlParts {
    pub scheme: String,
    pub host: String,
    pub port: String,
    pub path: String,
}

impl UrlParts {
    /// Well-formedness: an `http` or `https` scheme, a non-empty host of
    /// host characters, a non-empty digit port below 65536, and a path
    /// that starts with `/` and holds only path characters.
    pub open spec fn wf(self) -> bool {
        &&& (self.scheme@ == "http"@ || self.scheme@ == "https"@)
        &&& self.host@.len() > 0
        &&& all_host_chars(self.host@)
        &&& self.port@.len() > 0
        &&& all_digits(self.port@)
        &&& dec_value(self.port@) <= 65535
        &&& self.path@.len() > 0
        &&& self.path@[0] == '/'
        &&& all_path_chars(self.path@)
    }

    /// The rendering of the parts as a URL string.
    pub open spec fn spec_render(self) -> Seq<char> {
        self.scheme@ + "://"@ + self.host@ + ":"@ + self.port@ + self.path@
    }

    /// Renders the parts as a URL string.
    pub fn render(&self) -> (r: String)
        ensures
            r@ == self.spec_render(),
    {
        let mut r = String::new();
        r.append(self.scheme.as_str());
        r.append("://");
        r.append(self.host.as_str());
        r.append(":");
        r.append(self.port.as_str());
        r.append(self.path.as_str());
        proof {
            assert(r@ =~= self.spec_render());
        }
        r
    }

    /// The `host:port` authority of the parts.
    pub fn authority(&self) -> (r: String)
        ensures
            r@ == self.host@ + ":"@ + self.port@,
    {
        let mut r = String::new();
        r.append(self.host.as_str());
        r.append(":");
        r.append(self.port.as_str());
        proof {
            assert(r@ =~= self.host@ + ":"@ + self.port@);
        }
        r
    }
}

/// Endpoint grammar round trip: the rendering of well-formed parts is
/// itself a valid endpoint string, and it parses back to exactly the
/// same parts — so normalisation is idempotent. The one rendering left
/// out is a bare `/` path, which normalisation never produces: it would
/// normalise to `/metrics`.
pub proof fn lemma_render_parses_back(u: UrlParts)
    requires
        u.wf(),
        u.path@ != "/"@,
    ensures
        spec_endpoint_valid(u.spec_render()),
        spec_scheme(u.spec_render()) == u.scheme@,
        spec_norm_host(u.spec_render()) == u.host@,
        spec_norm_port(u.spec_render()) == u.port@,
        spec_norm_path(u.spec_render()) == u.path@,
        spec_normalized(u.spec_render()) == u.spec_render(),
{
    reveal_strlit("http");
    reveal_strlit("https");
    reveal_strlit("http://");
    reveal_strlit("https://");
    reveal_strlit("://");
    reveal_strlit(":");
    reveal_strlit("/");
    let s = u.spec_render();
    let sch = u.scheme@;
    let h = u.host@;
    let p = u.port@;
    let path = u.path@;
    let hlen = h.len() as int;
    let plen = p.len() as int;

    if sch == "https"@ {
        assert(s.subrange(0, 8) =~= "https://"@);
        assert(spec_is_https(s));
        assert(spec_rest(s) =~= h + ":"@ + p + path);
        assert(spec_scheme(s) == sch);
    } else {
        assert(sch == "http"@);
        assert(s[4] == ':');
        assert(!spec_is_https(s)) by {
            if starts_with(s, "https://"@) {
                assert(s.subrange(0, 8)[4] == s[4]);
                assert("https://"@[4] == 's');
            }
        }
        assert(s.subrange(0, 7) =~= "http://"@);
        assert(spec_is_http(s));
        assert(spec_rest(s) =~= h + ":"@ + p + path);
        assert(spec_scheme(s) == sch);
    }
    let r = spec_rest(s);
    assert(r == h + ":"@ + p + path);
    assert(r.len() == hlen + 1 + plen + path.len());

    // The first colon of the rest ends the host: no host character is a
    // colon.
    assert forall|j: int| 0 <= j < hlen implies r[j] != ':' by {
        assert(r[j] == h[j]);
        assert(is_host_char(h[j]));
    }
    assert(r[hlen] == ':');
    lemma_find_from_unique(r, ':', hlen);

    // The first slash of the rest starts the path: neither the host nor
    // the colon nor the port digits hold a slash.
    let slash = hlen + 1 + plen;
    assert forall|j: int| 0 <= j < slash implies r[j] != '/' by {
        if j < hlen {
            assert(r[j] == h[j]);
            assert(is_host_char(h[j]));
        } else if j == hlen {
            assert(r[j] == ':');
        } else {
            assert(r[j] == p[j - hlen - 1]);
            assert(is_digit(p[j - hlen - 1]));
        }
    }
    assert(r[slash] == path[0]);
    assert(path[0] == '/');
    lemma_find_from_unique(r, '/', slash);

    assert(spec_host_end(r) == hlen);
    assert(spec_raw_host(r) =~= h);
    assert(spec_has_port(r));
    assert(spec_raw_port(r) =~= p);
    assert(spec_has_path(r));
    assert(spec_raw_path(r) =~= path);

    assert(spec_host_ok(s));
    assert(spec_port_ok(s));
    assert(spec_path_ok(s));
    assert(spec_norm_host(s) == h);
    assert(spec_norm_port(s) == p);
    assert(spec_norm_path(s) == path);
    assert(spec_normalized(s) == s);
}

/// True when `s` begins with `p`, character for character.
pub fn starts_with_lit(s: &str, p: &str) -> (r: bool)
    ensures
        r == starts_with(s@, p@),
{
    let sl = s.unicode_len();
    let pl = p.unicode_len();
    if sl < pl {
        return false;
    }
    str_eq(s.substring_char(0, pl), p)
}

/// True exactly when every character of `s` may appear in a host name.
fn check_host_chars(s: &str) -> (r: bool)
    ensures
        r == all_host_chars(s@),
{
    let len = s.unicode_len();
    let mut i: usize = 0;
    while i < len
        invariant
            i <= len,
            len == s@.len(),
            forall|j: int| 0 <= j < i ==> is_host_char(#[trigger] s@[j]),
        decreases len - i,
    {
        let c = s.get_char(i);
        let v = c as u32;
        let ok = (97 <= v && v <= 122) || (65 <= v && v <= 90) || (48 <= v && v <= 57) || c == '.'
            || c == '-' || c == '_';
        if !ok {
            assert(!is_host_char(s@[i as int]));
            return false;
        }
        i += 1;
    }
    true
}

/// True exactly when every character of `s` is a decimal digit.
fn check_digits(s: &str) -> (r: bool)
    ensures
        r == all_digits(s@),
{
    let len = s.unicode_len();
    let mut i: usize = 0;
    while i < len
        invariant
            i <= len,
            len == s@.len(),
            forall|j: int| 0 <= j < i ==> is_digit(#[trigger] s@[j]),
        decreases len - i,
    {
        let c = s.get_char(i);
        let v = c as u32;
        if !(48 <= v && v <= 57) {
            assert(!is_digit(s@[i as int]));
            return false;
        }
        i += 1;
    }
    true
}

/// True exactly when every character of `s` may appear in a path.
fn check_path_chars(s: &str) -> (r: bool)
    ensures
        r == all_path_chars(s@),
{
    let len = s.unicode_len();
    let mut i: usize = 0;
    while i < len
        invariant
            i <= len,
            len == s@.len(),
            forall|j: int| 0 <= j < i ==> is_path_char(#[trigger] s@[j]),
        decreases len - i,
    {
        let c = s.get_char(i);
        let v = c as u32;
        if !(33 <= v && v <= 126) {
            assert(!is_path_char(s@[i as int]));
            return false;
        }
        i += 1;
    }
    true
}

/// True exactly when the digit string `p` has a value at most 65535.
fn check_port_value(p: &str) -> (r: bool)
    requires
        all_digits(p@),
        p@.len() > 0,
    ensures
        r == (dec_value(p@) <= 65535),
{
    let len = p.unicode_len();
    let mut v: u32 = 0;
    let mut i: usize = 0;
    proof {
        assert(p@.subrange(0, 0) =~= Seq::<char>::empty());
    }
    while i < len
        invariant
            i <= len,
            len == p@.len(),
            all_digits(p@),
            v <= 65535,
            v == dec_value(p@.subrange(0, i as int)),
        decreases len - i,
    {
        let c = p.get_char(i);
        let d = (c as u32) - 48;
        proof {
            assert(is_digit(p@[i as int]));
            assert(p@.subrange(0, i + 1).drop_last() =~= p@.subrange(0, i as int));
            assert(p@.subrange(0, i + 1).last() == p@[i as int]);
        }
        let next = v * 10 + d;
        assert(next == dec_value(p@.subrange(0, i + 1)));
        if next > 65535 {
            proof {
                lemma_dec_value_prefix_le(p@, i + 1);
            }
            return false;
        }
        v = next;
        i += 1;
    }
    proof {
        assert(p@.subrange(0, len as int) =~= p@);
    }
    true
}

/// The default ports are well-formed digit strings with small values.
proof fn lemma_default_ports()
    ensures
        "443"@.len() > 0 && all_digits("443"@) && dec_value("443"@) == 443,
        "80"@.len() > 0 && all_digits("80"@) && dec_value("80"@) == 80,
{
    reveal_strlit("443");
    reveal_strlit("80");
    let a = "443"@;
    assert(a.drop_last() =~= seq!['4', '4']);
    assert(seq!['4', '4'].drop_last() =~= seq!['4']);
    assert(seq!['4'].drop_last() =~= Seq::<char>::empty());
    assert(dec_value(Seq::<char>::empty()) == 0);
    assert(digit_val('4') == 4);
    assert(dec_value(seq!['4']) == 4);
    assert(dec_value(seq!['4', '4']) == 44);
    assert(dec_value(a) == 443);
    let b = "80"@;
    assert(b.drop_last() =~= seq!['8']);
    assert(seq!['8'].drop_last() =~= Seq::<char>::empty());
    assert(dec_value(seq!['8']) == 8);
    assert(dec_value(b) == 80);
}

/// The default host and path are well-formed.
proof fn lemma_default_host_path()
    ensures
        "localhost"@.len() > 0 && all_host_chars("localhost"@),
        "/metrics"@.len() > 0 && "/metrics"@[0] == '/' && all_path_chars("/metrics"@),
{
    reveal_strlit("localhost");
    reveal_strlit("/metrics");
}

/// Parses an endpoint string and normalises it.
///
/// Returns the parts of the normalised endpoint exactly when the input is
/// an acceptable endpoint string; the error says which part was rejected,
/// with the host checked first, then the port, then the path.
pub fn endpoint_parser(input: &str) -> (r: Result<UrlParts, EndpointParseError>)
    ensures
        match r {
            Ok(u) => {
                &&& spec_endpoint_valid(input@)
                &&& u.wf()
                &&& u.path@ != "/"@
                &&& u.scheme@ == spec_scheme(input@)
                &&& u.host@ == spec_norm_host(input@)
                &&& u.port@ == spec_norm_port(input@)
                &&& u.path@ == spec_norm_path(input@)
            },
            Err(EndpointParseError::InvalidHost) => !spec_host_ok(input@),
            Err(EndpointParseError::InvalidPort) => spec_host_ok(input@) && !spec_port_ok(input@),
            Err(EndpointParseError::InvalidPath) => spec_host_ok(input@) && spec_port_ok(input@)
                && !spec_path_ok(input@),
        },
{
    proof {
        reveal_strlit("https://");
        reveal_strlit("http://");
        reveal_strlit("/");
        reveal_strlit("/metrics");
        lemma_default_ports();
        lemma_default_host_path();
    }
    let len = input.unicode_len();
    let https = starts_with_lit(input, "https://");
    let http = if https {
        false
    } else {
        starts_with_lit(input, "http://")
    };
    let rest: &str = if https {
        input.substring_char(8, len)
    } else if http {
        input.substring_char(7, len)
    } else {
        input
    };
    assert(rest@ == spec_rest(input@));
    let scheme_str: &str = if https {
        "https"
    } else {
        "http"
    };

    let rlen = rest.unicode_len();
    let colon = find_char(rest, 0, ':');
    let slash = find_char(rest, 0, '/');
    proof {
        lemma_find_from(rest@, 0, ':');
        lemma_find_from(rest@, 0, '/');
    }
    let has_port = colon < slash;
    let host_end = if colon < slash {
        colon
    } else {
        slash
    };
    let host_raw = rest.substring_char(0, host_end);

    let host_final: &str;
    if host_raw.unicode_len() == 0 {
        if https || http || !has_port {
            return Err(EndpointParseError::InvalidHost);
        }
        host_final = "localhost";
    } else {
        if !check_host_chars(host_raw) {
            return Err(EndpointParseError::InvalidHost);
        }
        host_final = host_raw;
    }
    assert(spec_host_ok(input@));
    assert(host_final@ == spec_norm_host(input@));

    let port_str: &str;
    if has_port {
        let p = rest.substring_char(colon + 1, slash);
        if p.unicode_len() == 0 {
            return Err(EndpointParseError::InvalidPort);
        }
        if !check_digits(p) {
            return Err(EndpointParseError::InvalidPort);
        }
        if !check_port_value(p) {
            return Err(EndpointParseError::InvalidPort);
        }
        port_str = p;
    } else {
        port_str = if https {
            "443"
        } else {
            "80"
        };
    }
    assert(spec_port_ok(input@));
    assert(port_str@ == spec_norm_port(input@));

    let path_str: &str;
    if slash == rlen {
        path_str = "/metrics";
    } else {
        let p = rest.substring_char(slash, rlen);
        if !check_path_chars(p) {
            return Err(EndpointParseError::InvalidPath);
        }
        if p.unicode_len() == 1 {
            assert(p@[0] == '/');
            assert(p@ =~= "/"@);
            path_str = "/metrics";
        } else {
            assert(p@ != "/"@) by {
                assert(p@.len() != "/"@.len());
            }
            path_str = p;
        }
    }
    assert(spec_path_ok(input@));
    assert(path_str@ == spec_norm_path(input@));
    assert(path_str@.len() > 0 && path_str@[0] == '/') by {
        if slash < rlen {
            assert(rest@[slash as int] == '/');
        }
    }

    Ok(UrlParts {
        scheme: scheme_str.to_owned(),
        host: host_final.to_owned(),
        port: port_str.to_owned(),
        path: path_str.to_owned(),
    })
}

} // verus!
