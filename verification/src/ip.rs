//! The library's own address type: an IPv4 address as four dotted-quad
//! octets, with a verified parser and renderer, and the rule that extracts an
//! address token from a result value of the form `primary (secondary)`.
//!
//! The model covers IPv4 dotted quads only; a token in any other form — an
//! IPv6 address among them — is treated as malformed and leaves the address
//! field untouched.

use vstd::prelude::*;

use crate::strings::find_char_from;
use crate::strings::find_from;
use crate::strings::lemma_find_from_all;
use crate::strings::lemma_find_from_at;
use crate::strings::lemma_rfind_from_found;
use crate::strings::lemma_rfind_from_none;
use crate::strings::lemma_rskip_from_stops;
use crate::strings::lemma_skip_from_stops;
use crate::strings::rfind_char;
use crate::strings::rfind_from;
use crate::strings::rskip_from;
use crate::strings::skip_from;
use crate::strings::trim_end_char;
use crate::strings::trim_start_char;
use crate::strings::push_char;

verus! {

/// An IPv4 address; the fields are the dotted-quad octets in order.
#[derive(Clone, Copy, Debug, PartialEq, Eq, Structural)]
pub struct IpAddress {
    pub a: u8,
    pub b: u8,
    pub c: u8,
    pub d: u8,
}

pub open spec fn is_digit(c: char) -> bool {
    48 <= c as u32 <= 57
}

pub open spec fn digit_val(c: char) -> int {
    c as u32 - 48
}

pub open spec fn digit_char(v: int) -> char {
    ((48 + v) as u8) as char
}

/// The decimal value of a run of one to three digits.
pub open spec fn octet_val(s: Seq<char>) -> int {
    if s.len() == 1 {
        digit_val(s[0])
    } else if s.len() == 2 {
        10 * digit_val(s[0]) + digit_val(s[1])
    } else {
        100 * digit_val(s[0]) + 10 * digit_val(s[1]) + digit_val(s[2])
    }
}

/// A well-formed dotted-quad octet: one to three digits, value at most 255,
/// and no leading zero.
pub open spec fn is_octet(s: Seq<char>) -> bool {
    &&& 1 <= s.len() <= 3
    &&& forall|i: int| 0 <= i < s.len() ==> is_digit(#[trigger] s[i])
    &&& octet_val(s) <= 255
    &&& s.len() > 1 ==> s[0] != '0'
}

/// A well-formed dotted-quad address: four octets separated by three dots.
pub open spec fn is_ipv4(s: Seq<char>) -> bool {
    let d0 = find_from(s, 0, '.');
    let d1 = find_from(s, d0 + 1, '.');
    let d2 = find_from(s, d1 + 1, '.');
    let d3 = find_from(s, d2 + 1, '.');
    &&& d0 < s.len()
    &&& d1 < s.len()
    &&& d2 < s.len()
    &&& d3 == s.len()
    &&& is_octet(s.subrange(0, d0))
    &&& is_octet(s.subrange(d0 + 1, d1))
    &&& is_octet(s.subrange(d1 + 1, d2))
    &&& is_octet(s.subrange(d2 + 1, s.len() as int))
}

/// The address a well-formed dotted quad denotes.
pub open spec fn ipv4_of(s: Seq<char>) -> IpAddress {
    let d0 = find_from(s, 0, '.');
    let d1 = find_from(s, d0 + 1, '.');
    let d2 = find_from(s, d1 + 1, '.');
    IpAddress {
        a: octet_val(s.subrange(0, d0)) as u8,
        b: octet_val(s.subrange(d0 + 1, d1)) as u8,
        c: octet_val(s.subrange(d1 + 1, d2)) as u8,
        d: octet_val(s.subrange(d2 + 1, s.len() as int)) as u8,
    }
}

/// Parses the characters of `s` between `start` and `end` as one octet.
fn parse_octet(s: &str, start: usize, end: usize) -> (r: Option<u8>)
    requires
        start <= end <= s@.len(),
    ensures
        ({
            let t = s@.subrange(start as int, end as int);
            match r {
                Some(v) => is_octet(t) && v as int == octet_val(t),
                None => !is_octet(t),
            }
        }),
{
    let ghost t = s@.subrange(start as int, end as int);
    let len = end - start;
    if len == 0 || len > 3 {
        return None;
    }
    let c0 = s.get_char(start);
    let u0 = c0 as u32;
    if u0 < 48 || u0 > 57 {
        assert(!is_digit(t[0]));
        return None;
    }
    let mut v: u32 = u0 - 48;
    if len >= 2 {
        if c0 == '0' {
            return None;
        }
        let c1 = s.get_char(start + 1);
        let u1 = c1 as u32;
        if u1 < 48 || u1 > 57 {
            assert(!is_digit(t[1]));
            return None;
        }
        v = 10 * v + (u1 - 48);
    }
    if len == 3 {
        let c2 = s.get_char(start + 2);
        let u2 = c2 as u32;
        if u2 < 48 || u2 > 57 {
            assert(!is_digit(t[2]));
            return None;
        }
        v = 10 * v + (u2 - 48);
    }
    if v > 255 {
        return None;
    }
    assert(forall|i: int| 0 <= i < t.len() ==> is_digit(#[trigger] t[i]));
    Some(v as u8)
}

impl IpAddress {
    /// Parses a dotted-quad address, accepting exactly the well-formed ones.
    pub fn parse(s: &str) -> (r: Option<IpAddress>)
        ensures
            r is Some <==> is_ipv4(s@),
            r matches Some(ip) ==> ip == ipv4_of(s@),
    {
        let n = s.unicode_len();
        let d0 = find_char_from(s, 0, '.');
        if d0 == n {
            return None;
        }
        let d1 = find_char_from(s, d0 + 1, '.');
        if d1 == n {
            return None;
        }
        let d2 = find_char_from(s, d1 + 1, '.');
        if d2 == n {
            return None;
        }
        let d3 = find_char_from(s, d2 + 1, '.');
        if d3 != n {
            return None;
        }
        let a = match parse_octet(s, 0, d0) {
            Some(v) => v,
            None => {
                return None;
            },
        };
        let b = match parse_octet(s, d0 + 1, d1) {
            Some(v) => v,
            None => {
                return None;
            },
        };
        let c = match parse_octet(s, d1 + 1, d2) {
            Some(v) => v,
            None => {
                return None;
            },
        };
        let d = match parse_octet(s, d2 + 1, n) {
            Some(v) => v,
            None => {
                return None;
            },
        };
        Some(IpAddress { a, b, c, d })
    }

    /// Renders the address back to its dotted-quad text.
    pub fn to_text(&self) -> (r: String)
        ensures
            r@ == ip_text(*self),
    {
        let mut out = String::new();
        push_octet(&mut out, self.a);
        push_char(&mut out, '.');
        push_octet(&mut out, self.b);
        push_char(&mut out, '.');
        push_octet(&mut out, self.c);
        push_char(&mut out, '.');
        push_octet(&mut out, self.d);
        assert(out@ =~= ip_text(*self));
        out
    }
}

/// The decimal text of one octet, without leading zeros.
pub open spec fn octet_text(v: int) -> Seq<char> {
    if v < 10 {
        seq![digit_char(v)]
    } else if v < 100 {
        seq![digit_char(v / 10), digit_char(v % 10)]
    } else {
        seq![digit_char(v / 100), digit_char((v / 10) % 10), digit_char(v % 10)]
    }
}

/// The dotted-quad text of an address.
pub open spec fn ip_text(ip: IpAddress) -> Seq<char> {
    octet_text(ip.a as int) + seq!['.'] + octet_text(ip.b as int) + seq!['.'] + octet_text(
        ip.c as int,
    ) + seq!['.'] + octet_text(ip.d as int)
}

fn digit_exec(v: u8) -> (c: char)
    requires
        v < 10,
    ensures
        c == digit_char(v as int),
{
    (48 + v) as char
}

fn push_octet(out: &mut String, v: u8)
    ensures
        final(out)@ == old(out)@ + octet_text(v as int),
{
    if v >= 100 {
        push_char(out, digit_exec(v / 100));
        push_char(out, digit_exec((v / 10) % 10));
        push_char(out, digit_exec(v % 10));
        assert(final(out)@ =~= old(out)@ + octet_text(v as int));
    } else if v >= 10 {
        push_char(out, digit_exec(v / 10));
        push_char(out, digit_exec(v % 10));
        assert(final(out)@ =~= old(out)@ + octet_text(v as int));
    } else {
        push_char(out, digit_exec(v));
        assert(final(out)@ =~= old(out)@ + octet_text(v as int));
    }
}

/// The token an address is read from: the last space-separated token, with
/// every leading `(` and trailing `)` removed, so that the parenthesized
/// secondary form is preferred when present.
pub open spec fn trimmed_token(s: Seq<char>) -> Seq<char> {
    let t = s.subrange(rfind_from(s, s.len() - 1, ' ') + 1, s.len() as int);
    let u = t.subrange(skip_from(t, 0, '('), t.len() as int);
    u.subrange(0, rskip_from(u, u.len() - 1, ')') + 1)
}

/// The address a result value resolves to, if its trimmed token is one.
pub open spec fn extracted_ip(s: Seq<char>) -> Option<IpAddress> {
    if is_ipv4(trimmed_token(s)) {
        Some(ipv4_of(trimmed_token(s)))
    } else {
        None
    }
}

/// The decimal text of an octet value is a well-formed octet denoting that
/// value, and holds no separator.
pub proof fn lemma_octet_text_valid(v: int)
    requires
        0 <= v <= 255,
    ensures
        is_octet(octet_text(v)),
        octet_val(octet_text(v)) == v,
        forall|i: int| 0 <= i < octet_text(v).len() ==> #[trigger] octet_text(v)[i] != '.',
{
    let t = octet_text(v);
    assert(forall|d: int| 0 <= d <= 9 ==> is_digit(#[trigger] digit_char(d)) && digit_val(
        digit_char(d),
    ) == d && digit_char(d) != '.');
    if v < 10 {
        assert(t[0] == digit_char(v));
    } else if v < 100 {
        assert(t[0] == digit_char(v / 10) && t[1] == digit_char(v % 10));
        assert(digit_val(t[0]) != 0);
    } else {
        assert(t[0] == digit_char(v / 100) && t[1] == digit_char((v / 10) % 10) && t[2]
            == digit_char(v % 10));
        assert(digit_val(t[0]) != 0);
        assert(100 * (v / 100) + 10 * ((v / 10) % 10) + v % 10 == v);
    }
}

/// Rendering an address and parsing the text back yields the same address:
/// the dotted-quad text of every address is well formed and denotes it.
pub proof fn lemma_ip_text_round_trip(ip: IpAddress)
    ensures
        is_ipv4(ip_text(ip)),
        ipv4_of(ip_text(ip)) == ip,
{
    let ta = octet_text(ip.a as int);
    let tb = octet_text(ip.b as int);
    let tc = octet_text(ip.c as int);
    let td = octet_text(ip.d as int);
    lemma_octet_text_valid(ip.a as int);
    lemma_octet_text_valid(ip.b as int);
    lemma_octet_text_valid(ip.c as int);
    lemma_octet_text_valid(ip.d as int);
    let s = ip_text(ip);
    let la = ta.len() as int;
    let lb = tb.len() as int;
    let lc = tc.len() as int;
    let ld = td.len() as int;
    assert(s.len() == la + lb + lc + ld + 3);
    assert(s[la] == '.');
    assert(s[la + lb + 1] == '.');
    assert(s[la + lb + lc + 2] == '.');
    assert forall|j: int| 0 <= j < la implies s[j] != '.' by {
        assert(s[j] == ta[j]);
    }
    assert forall|j: int| la + 1 <= j < la + lb + 1 implies s[j] != '.' by {
        assert(s[j] == tb[j - la - 1]);
    }
    assert forall|j: int| la + lb + 2 <= j < la + lb + lc + 2 implies s[j] != '.' by {
        assert(s[j] == tc[j - la - lb - 2]);
    }
    assert forall|j: int| la + lb + lc + 3 <= j < s.len() implies s[j] != '.' by {
        assert(s[j] == td[j - la - lb - lc - 3]);
    }
    lemma_find_from_at(s, 0, la, '.');
    lemma_find_from_at(s, la + 1, la + lb + 1, '.');
    lemma_find_from_at(s, la + lb + 2, la + lb + lc + 2, '.');
    lemma_find_from_all(s, la + lb + lc + 3, '.');
    assert(s.subrange(0, la) =~= ta);
    assert(s.subrange(la + 1, la + lb + 1) =~= tb);
    assert(s.subrange(la + lb + 2, la + lb + lc + 2) =~= tc);
    assert(s.subrange(la + lb + lc + 3, s.len() as int) =~= td);
}

/// The extraction rule prefers the parenthesized secondary token: a value of
/// the form `{primary} ({secondary})`, with a secondary free of spaces and
/// parentheses, resolves exactly as the secondary text alone does, whatever
/// the primary holds.
pub proof fn lemma_extract_prefers_secondary(primary: Seq<char>, secondary: Seq<char>)
    requires
        forall|i: int| 0 <= i < secondary.len() ==> #[trigger] secondary[i] != ' '
            && secondary[i] != '(' && secondary[i] != ')',
    ensures
        extracted_ip(primary + seq![' ', '('] + secondary + seq![')']) == (if is_ipv4(secondary) {
            Some(ipv4_of(secondary))
        } else {
            None
        }),
{
    let s = primary + seq![' ', '('] + secondary + seq![')'];
    let p = primary.len() as int;
    assert(s[p] == ' ');
    assert forall|j: int| p < j < s.len() implies s[j] != ' ' by {
        if j == p + 1 {
            assert(s[j] == '(');
        } else if j < p + 2 + secondary.len() {
            assert(s[j] == secondary[j - p - 2]);
        } else {
            assert(s[j] == ')');
        }
    }
    lemma_rfind_from_found(s, p, s.len() - 1, ' ');
    let t = s.subrange(p + 1, s.len() as int);
    assert(t =~= seq!['('] + secondary + seq![')']);
    assert forall|j: int| 1 <= j < t.len() implies t[j] != '(' by {
        if j < 1 + secondary.len() {
            assert(t[j] == secondary[j - 1]);
        } else {
            assert(t[j] == ')');
        }
    }
    lemma_skip_from_stops(t, 0, 1, '(');
    let u = t.subrange(1, t.len() as int);
    assert(u =~= secondary + seq![')']);
    assert(u[u.len() - 1] == ')');
    assert forall|j: int| 0 <= j < u.len() - 1 implies u[j] != ')' by {
        assert(u[j] == secondary[j]);
    }
    lemma_rskip_from_stops(u, u.len() - 1, u.len() - 2, ')');
    assert(u.subrange(0, u.len() - 1) =~= secondary);
    assert(trimmed_token(s) == secondary);
}

/// A value without spaces or parentheses is its own token: it resolves
/// exactly as its text parses.
pub proof fn lemma_extract_plain_token(s: Seq<char>)
    requires
        forall|i: int| 0 <= i < s.len() ==> #[trigger] s[i] != ' ' && s[i] != '(' && s[i] != ')',
    ensures
        extracted_ip(s) == (if is_ipv4(s) {
            Some(ipv4_of(s))
        } else {
            None
        }),
{
    if s.len() == 0 {
        assert(trimmed_token(s) =~= s);
    } else {
        lemma_rfind_from_none(s, s.len() - 1, ' ');
        let t = s.subrange(0, s.len() as int);
        assert(t =~= s);
        lemma_skip_from_stops(s, 0, 0, '(');
        lemma_rskip_from_stops(s, s.len() - 1, s.len() - 1, ')');
        assert(trimmed_token(s) =~= s);
    }
}

/// Extracts the address from a result value such as `10.0.0.5 (10.0.0.9)`.
pub fn extract_ip(s: &str) -> (r: Option<IpAddress>)
    ensures
        r == extracted_ip(s@),
{
    let n = s.unicode_len();
    let start = match rfind_char(s, ' ') {
        Some(i) => i + 1,
        None => 0,
    };
    let tok = s.substring_char(start, n);
    let tok = trim_start_char(tok, '(');
    let tok = trim_end_char(tok, ')');
    IpAddress::parse(tok)
}

} // verus!
