//! Parsing of the resource locator the request is issued against: the
//! dedicated `web://` scheme, the authority/path split, and host and port
//! extraction from the authority, bracketed IPv6 hosts included.

use crate::bytes::bytes_eq;
use vstd::prelude::*;

verus! {

/// The port used when the authority names none, or names one that does
/// not parse as a 16-bit number.
pub const DEFAULT_PORT: u16 = 4433;

/// A parsed resource locator. `authority` and `path` feed the request's
/// pseudo-headers as written; `host` and `port` are what the socket layer
/// resolves and connects to.
pub struct Target {
    /// The authority exactly as written, port and IPv6 brackets included.
    pub authority: Vec<u8>,
    /// The path, starting with a slash; `/` when the locator had none.
    pub path: Vec<u8>,
    /// The host with IPv6 brackets trimmed and the port removed.
    pub host: Vec<u8>,
    /// The port, or `DEFAULT_PORT`.
    pub port: u16,
}

/// The scheme prefix `b"web://"`.
pub open spec fn spec_scheme() -> Seq<u8> {
    seq![119u8, 101u8, 98u8, 58u8, 47u8, 47u8]
}

/// Whether a locator starts with the dedicated scheme. Locators of any
/// other scheme are rejected.
pub open spec fn spec_has_scheme(u: Seq<u8>) -> bool {
    u.len() >= 6 && u.subrange(0, 6) == spec_scheme()
}

/// The first position at or after `i` holding `c`, if any.
pub open spec fn spec_find_from(s: Seq<u8>, c: u8, i: int) -> Option<int>
    decreases s.len() - i,
{
    if i < 0 || i >= s.len() {
        None
    } else if s[i] == c {
        Some(i)
    } else {
        spec_find_from(s, c, i + 1)
    }
}

/// The last position holding `c`, if any.
pub open spec fn spec_rfind(s: Seq<u8>, c: u8) -> Option<int>
    decreases s.len(),
{
    if s.len() == 0 {
        None
    } else if s[s.len() - 1] == c {
        Some(s.len() - 1)
    } else {
        spec_rfind(s.drop_last(), c)
    }
}

/// Where the authority ends: at the first slash after the scheme, or at
/// the end of the locator.
pub open spec fn spec_authority_end(u: Seq<u8>) -> int {
    match spec_find_from(u, 47u8, 6) {
        Some(p) => p,
        None => u.len() as int,
    }
}

/// The authority of a locator with the scheme: the bytes between the
/// scheme and the first slash, or everything after the scheme.
pub open spec fn spec_authority(u: Seq<u8>) -> Seq<u8> {
    u.subrange(6, spec_authority_end(u))
}

/// The path of a locator with the scheme: from the first slash after the
/// scheme to the end, or the single slash `/` when there is none.
pub open spec fn spec_path(u: Seq<u8>) -> Seq<u8> {
    if spec_find_from(u, 47u8, 6) is Some {
        u.subrange(spec_authority_end(u), u.len() as int)
    } else {
        seq![47u8]
    }
}

/// Whether a byte sequence is one or more decimal digits.
pub open spec fn spec_is_digits(s: Seq<u8>) -> bool {
    s.len() > 0 && forall|j: int| 0 <= j < s.len() ==> 48 <= #[trigger] s[j] <= 57
}

/// The number named by a sequence of decimal digits, most significant
/// first.
pub open spec fn spec_digits_value(s: Seq<u8>) -> int
    decreases s.len(),
{
    if s.len() == 0 {
        0
    } else {
        spec_digits_value(s.drop_last()) * 10 + (s[s.len() - 1] - 48)
    }
}

/// The port a byte sequence names: an optional leading plus sign, then
/// decimal digits whose value fits sixteen bits; anything else falls back
/// to `DEFAULT_PORT`.
pub open spec fn spec_port_number(s: Seq<u8>) -> u16 {
    let d = if s.len() > 0 && s[0] == 43 {
        s.drop_first()
    } else {
        s
    };
    if spec_is_digits(d) && spec_digits_value(d) <= 65535 {
        spec_digits_value(d) as u16
    } else {
        DEFAULT_PORT
    }
}

/// The host part of an authority (brackets kept) and its port. A port is
/// taken after the last colon, except that for a bracketed IPv6 host the
/// colon must come after the closing bracket; in every other case the
/// whole authority is the host and the port is `DEFAULT_PORT`.
pub open spec fn spec_split_host_port(a: Seq<u8>) -> (Seq<u8>, u16) {
    match spec_rfind(a, 58u8) {
        Some(colon) => {
            if a.len() > 0 && a[0] == 91 {
                match spec_find_from(a, 93u8, 0) {
                    Some(be) => if be < colon {
                        (
                            a.subrange(0, be + 1),
                            spec_port_number(a.subrange(colon + 1, a.len() as int)),
                        )
                    } else {
                        (a, DEFAULT_PORT)
                    },
                    None => (a, DEFAULT_PORT),
                }
            } else {
                (a.subrange(0, colon), spec_port_number(a.subrange(colon + 1, a.len() as int)))
            }
        },
        None => (a, DEFAULT_PORT),
    }
}

/// A sequence with every leading `c` removed.
pub open spec fn spec_trim_leading(s: Seq<u8>, c: u8) -> Seq<u8>
    decreases s.len(),
{
    if s.len() > 0 && s[0] == c {
        spec_trim_leading(s.drop_first(), c)
    } else {
        s
    }
}

/// A sequence with every trailing `c` removed.
pub open spec fn spec_trim_trailing(s: Seq<u8>, c: u8) -> Seq<u8>
    decreases s.len(),
{
    if s.len() > 0 && s[s.len() - 1] == c {
        spec_trim_trailing(s.drop_last(), c)
    } else {
        s
    }
}

/// The host of a locator with the scheme: the host part of the authority
/// with IPv6 brackets trimmed.
pub open spec fn spec_host(u: Seq<u8>) -> Seq<u8> {
    spec_trim_trailing(spec_trim_leading(spec_split_host_port(spec_authority(u)).0, 91u8), 93u8)
}

/// The port of a locator with the scheme.
pub open spec fn spec_port(u: Seq<u8>) -> u16 {
    spec_split_host_port(spec_authority(u)).1
}

/// Copy the bytes of `s` between `a` and `b` into a fresh vector.
fn copy_range(s: &[u8], a: usize, b: usize) -> (r: Vec<u8>)
    requires
        a <= b <= s@.len(),
    ensures
        r@ == s@.subrange(a as int, b as int),
{
    let mut v: Vec<u8> = Vec::new();
    let mut i: usize = a;
    while i < b
        invariant
            a <= i <= b <= s@.len(),
            v@ == s@.subrange(a as int, i as int),
        decreases b - i,
    {
        v.push(s[i]);
        proof {
            assert(v@ =~= s@.subrange(a as int, i as int + 1));
        }
        i = i + 1;
    }
    v
}

/// Find the first position at or after `start` holding `c`.
fn find_byte_from(s: &[u8], c: u8, start: usize) -> (r: Option<usize>)
    requires
        start <= s@.len(),
    ensures
        match r {
            Some(p) => start <= p < s@.len() && spec_find_from(s@, c, start as int) == Some(
                p as int,
            ),
            None => spec_find_from(s@, c, start as int) is None,
        },
{
    let mut i: usize = start;
    while i < s.len()
        invariant
            start <= i <= s@.len(),
            spec_find_from(s@, c, start as int) == spec_find_from(s@, c, i as int),
        decreases s@.len() - i,
    {
        if s[i] == c {
            return Some(i);
        }
        proof {
            assert(spec_find_from(s@, c, i as int) == spec_find_from(s@, c, i as int + 1));
        }
        i = i + 1;
    }
    None
}

/// Find the last position holding `c`.
fn rfind_byte(s: &[u8], c: u8) -> (r: Option<usize>)
    ensures
        match r {
            Some(p) => p < s@.len() && spec_rfind(s@, c) == Some(p as int),
            None => spec_rfind(s@, c) is None,
        },
{
    proof {
        assert(s@.subrange(0, s@.len() as int) =~= s@);
    }
    let mut i: usize = s.len();
    while i > 0
        invariant
            i <= s@.len(),
            spec_rfind(s@, c) == spec_rfind(s@.subrange(0, i as int), c),
        decreases i,
    {
        if s[i - 1] == c {
            return Some(i - 1);
        }
        proof {
            assert(s@.subrange(0, i as int).drop_last() =~= s@.subrange(0, i as int - 1));
        }
        i = i - 1;
    }
    None
}

/// The value of a digit sequence is never negative.
proof fn lemma_digits_value_nonneg(s: Seq<u8>)
    requires
        forall|j: int| 0 <= j < s.len() ==> 48 <= #[trigger] s[j] <= 57,
    ensures
        spec_digits_value(s) >= 0,
    decreases s.len(),
{
    if s.len() > 0 {
        assert(forall|j: int| 0 <= j < s.drop_last().len() ==> 48 <= #[trigger] s.drop_last()[j]
            <= 57);
        lemma_digits_value_nonneg(s.drop_last());
    }
}

/// Extending a digit sequence to the right never lowers its value.
proof fn lemma_digits_value_prefix(s: Seq<u8>, i: int)
    requires
        0 <= i <= s.len(),
        forall|j: int| 0 <= j < s.len() ==> 48 <= #[trigger] s[j] <= 57,
    ensures
        spec_digits_value(s.subrange(0, i)) <= spec_digits_value(s),
    decreases s.len() - i,
{
    if i == s.len() {
        assert(s.subrange(0, i) =~= s);
    } else {
        assert(forall|j: int| 0 <= j < s.subrange(0, i).len() ==> 48 <= #[trigger] s.subrange(
            0,
            i,
        )[j] <= 57);
        lemma_digits_value_nonneg(s.subrange(0, i));
        assert(s.subrange(0, i + 1).drop_last() =~= s.subrange(0, i));
        lemma_digits_value_prefix(s, i + 1);
    }
}

/// Parse a port: an optional leading plus sign, then decimal digits whose
/// value fits sixteen bits; anything else yields `DEFAULT_PORT`.
fn parse_port(s: &[u8]) -> (p: u16)
    ensures
        p == spec_port_number(s@),
{
    let start: usize = if s.len() > 0 && s[0] == 43 {
        1
    } else {
        0
    };
    let ghost d: Seq<u8> = s@.subrange(start as int, s@.len() as int);
    proof {
        if s@.len() > 0 && s@[0] == 43 {
            assert(s@.drop_first() =~= d);
        } else {
            assert(s@ =~= d);
        }
    }
    if start >= s.len() {
        return DEFAULT_PORT;
    }
    let mut val: u32 = 0;
    let mut i: usize = start;
    while i < s.len()
        invariant
            start <= i <= s@.len(),
            start < s@.len(),
            d == s@.subrange(start as int, s@.len() as int),
            spec_port_number(s@) == (if spec_is_digits(d) && spec_digits_value(d) <= 65535 {
                spec_digits_value(d) as u16
            } else {
                DEFAULT_PORT
            }),
            val == spec_digits_value(s@.subrange(start as int, i as int)),
            val <= 65535,
            forall|j: int| start <= j < i ==> 48 <= #[trigger] s@[j] <= 57,
        decreases s@.len() - i,
    {
        let b = s[i];
        if b < 48 || b > 57 {
            // one non-digit byte spoils the whole port
            proof {
                assert(d[i as int - start as int] == s@[i as int]);
                assert(!spec_is_digits(d));
            }
            return DEFAULT_PORT;
        }
        let nv: u32 = val * 10 + ((b - 48) as u32);
        proof {
            assert(s@.subrange(start as int, i as int + 1).drop_last() =~= s@.subrange(
                start as int,
                i as int,
            ));
        }
        if nv > 65535 {
            // the digits already read exceed any sixteen-bit value, and
            // further digits only grow the number
            proof {
                if spec_is_digits(d) {
                    assert(s@.subrange(start as int, i as int + 1) =~= d.subrange(
                        0,
                        i as int + 1 - start,
                    ));
                    lemma_digits_value_prefix(d, i as int + 1 - start);
                }
            }
            return DEFAULT_PORT;
        }
        val = nv;
        i = i + 1;
    }
    proof {
        assert(s@.subrange(start as int, i as int) =~= d);
        assert(spec_is_digits(d));
    }
    val as u16
}

/// Parse a resource locator. Yields a target exactly when the locator
/// starts with the dedicated scheme; a locator of any other scheme is
/// rejected with nothing else reported.
pub fn parse_target(url: &[u8]) -> (r: Option<Target>)
    ensures
        match r {
            Some(t) => {
                &&& spec_has_scheme(url@)
                &&& t.authority@ == spec_authority(url@)
                &&& t.path@ == spec_path(url@)
                &&& t.host@ == spec_host(url@)
                &&& t.port == spec_port(url@)
            },
            None => !spec_has_scheme(url@),
        },
{
    if url.len() < 6 {
        return None;
    }
    let scheme: Vec<u8> = vec![119u8, 101u8, 98u8, 58u8, 47u8, 47u8];
    proof {
        assert(scheme@ =~= spec_scheme());
    }
    let prefix = copy_range(url, 0, 6);
    if !bytes_eq(prefix.as_slice(), scheme.as_slice()) {
        return None;
    }
    // authority and path
    let auth_end: usize = match find_byte_from(url, 47u8, 6) {
        Some(p) => p,
        None => url.len(),
    };
    let authority = copy_range(url, 6, auth_end);
    let path: Vec<u8> = if auth_end < url.len() {
        copy_range(url, auth_end, url.len())
    } else {
        vec![47u8]
    };
    proof {
        assert(path@ =~= spec_path(url@));
    }
    // host and port within the authority
    let alen = authority.len();
    let (host_full, port): (Vec<u8>, u16) = match rfind_byte(authority.as_slice(), 58u8) {
        None => (copy_range(authority.as_slice(), 0, alen), DEFAULT_PORT),
        Some(colon) => {
            if authority.len() > 0 && authority[0] == 91u8 {
                match find_byte_from(authority.as_slice(), 93u8, 0) {
                    Some(be) => {
                        if be < colon {
                            let port_bytes = copy_range(authority.as_slice(), colon + 1, alen);
                            (
                                copy_range(authority.as_slice(), 0, be + 1),
                                parse_port(port_bytes.as_slice()),
                            )
                        } else {
                            (copy_range(authority.as_slice(), 0, alen), DEFAULT_PORT)
                        }
                    },
                    None => (copy_range(authority.as_slice(), 0, alen), DEFAULT_PORT),
                }
            } else {
                let port_bytes = copy_range(authority.as_slice(), colon + 1, alen);
                (copy_range(authority.as_slice(), 0, colon), parse_port(port_bytes.as_slice()))
            }
        },
    };
    proof {
        assert(authority@ =~= authority@.subrange(0, authority@.len() as int));
        assert(host_full@ == spec_split_host_port(spec_authority(url@)).0);
        assert(port == spec_split_host_port(spec_authority(url@)).1);
    }
    // trim IPv6 brackets off the host
    proof {
        assert(host_full@.skip(0) =~= host_full@);
    }
    let mut hstart: usize = 0;
    while hstart < host_full.len() && host_full[hstart] == 91u8
        invariant
            hstart <= host_full@.len(),
            spec_trim_leading(host_full@, 91u8) == spec_trim_leading(
                host_full@.skip(hstart as int),
                91u8,
            ),
        decreases host_full@.len() - hstart,
    {
        proof {
            assert(host_full@.skip(hstart as int).drop_first() =~= host_full@.skip(
                hstart as int + 1,
            ));
        }
        hstart = hstart + 1;
    }
    proof {
        assert(spec_trim_leading(host_full@.skip(hstart as int), 91u8) == host_full@.skip(
            hstart as int,
        ));
    }
    let mut hend: usize = host_full.len();
    while hend > hstart && host_full[hend - 1] == 93u8
        invariant
            hstart <= hend <= host_full@.len(),
            spec_trim_trailing(host_full@.skip(hstart as int), 93u8) == spec_trim_trailing(
                host_full@.subrange(hstart as int, hend as int),
                93u8,
            ),
        decreases hend,
    {
        proof {
            assert(host_full@.subrange(hstart as int, hend as int).drop_last() =~= host_full@
                .subrange(hstart as int, hend as int - 1));
        }
        hend = hend - 1;
    }
    proof {
        assert(host_full@.skip(hstart as int) =~= host_full@.subrange(
            hstart as int,
            host_full@.len() as int,
        ));
        assert(spec_trim_trailing(host_full@.subrange(hstart as int, hend as int), 93u8)
            == host_full@.subrange(hstart as int, hend as int));
    }
    let host = copy_range(host_full.as_slice(), hstart, hend);
    Some(Target { authority, path, host, port })
}

} // verus!
