//! Syntax of the strings a policy holds: resource locators, host names,
//! CIDR blocks and environment-variable names.

use vstd::prelude::*;

verus! {

/// An ASCII letter.
pub open spec fn is_letter(c: char) -> bool {
    ('a' <= c && c <= 'z') || ('A' <= c && c <= 'Z')
}

/// An ASCII decimal digit.
pub open spec fn is_digit(c: char) -> bool {
    '0' <= c && c <= '9'
}

/// An ASCII hexadecimal digit, in either case.
pub open spec fn is_hex_digit(c: char) -> bool {
    is_digit(c) || ('a' <= c && c <= 'f') || ('A' <= c && c <= 'F')
}

/// A character of an environment-variable name.
pub open spec fn is_word_char(c: char) -> bool {
    is_letter(c) || is_digit(c) || c == '_'
}

/// A character of a host name: a label character or the dot between labels.
pub open spec fn is_host_char(c: char) -> bool {
    is_letter(c) || is_digit(c) || c == '-' || c == '.'
}

/// The numeric value of a decimal digit.
pub open spec fn digit_value(c: char) -> int {
    c as int - '0' as int
}

/// `s` and `t` hold the same characters.
pub fn str_equal(s: &str, t: &str) -> (same: bool)
    ensures
        same == (s@ == t@),
{
    let n: usize = s.unicode_len();
    if t.unicode_len() != n {
        return false;
    }
    let mut i: usize = 0;
    while i < n
        invariant
            n == s@.len(),
            n == t@.len(),
            i <= n,
            forall|j: int| 0 <= j < i ==> s@[j] == t@[j],
        decreases n - i,
    {
        if s.get_char(i) != t.get_char(i) {
            return false;
        }
        i += 1;
    }
    assert(s@ =~= t@);
    true
}

/// An environment-variable name: letters, digits and underscores, at least
/// one, the first of them no digit.
pub open spec fn is_env_key(s: Seq<char>) -> bool {
    &&& s.len() > 0
    &&& !is_digit(s[0])
    &&& forall|i: int| 0 <= i < s.len() ==> is_word_char(#[trigger] s[i])
}

/// Decides whether `s` is an environment-variable name.
pub fn valid_env_key(s: &str) -> (ok: bool)
    ensures
        ok == is_env_key(s@),
{
    let n: usize = s.unicode_len();
    if n == 0 {
        return false;
    }
    let first: char = s.get_char(0);
    if first >= '0' && first <= '9' {
        return false;
    }
    let mut i: usize = 0;
    while i < n
        invariant
            n == s@.len(),
            i <= n,
            forall|j: int| 0 <= j < i ==> is_word_char(#[trigger] s@[j]),
        decreases n - i,
    {
        let c: char = s.get_char(i);
        let word: bool = (c >= 'a' && c <= 'z') || (c >= 'A' && c <= 'Z') || (c >= '0' && c
            <= '9') || c == '_';
        if !word {
            return false;
        }
        i += 1;
    }
    true
}

/// A host name: at least one character, each a letter, a digit, a hyphen or
/// a dot. Whitespace is therefore excluded.
pub open spec fn is_hostname(s: Seq<char>) -> bool {
    &&& s.len() > 0
    &&& forall|i: int| 0 <= i < s.len() ==> is_host_char(#[trigger] s[i])
}

/// Decides whether `s` is a host name.
pub fn valid_hostname(s: &str) -> (ok: bool)
    ensures
        ok == is_hostname(s@),
{
    let n: usize = s.unicode_len();
    if n == 0 {
        return false;
    }
    let mut i: usize = 0;
    while i < n
        invariant
            n == s@.len(),
            i <= n,
            forall|j: int| 0 <= j < i ==> is_host_char(#[trigger] s@[j]),
        decreases n - i,
    {
        let c: char = s.get_char(i);
        let host: bool = (c >= 'a' && c <= 'z') || (c >= 'A' && c <= 'Z') || (c >= '0' && c
            <= '9') || c == '-' || c == '.';
        if !host {
            return false;
        }
        i += 1;
    }
    true
}

/// The separator `://` stands at position `i` of `s`.
pub open spec fn separator_at(s: Seq<char>, i: int) -> bool {
    &&& 0 <= i
    &&& i + 3 <= s.len()
    &&& s[i] == ':'
    &&& s[i + 1] == '/'
    &&& s[i + 2] == '/'
}

/// A resource locator: a scheme, the separator `://` and a path, with
/// neither scheme nor path empty.
pub open spec fn is_resource_uri(s: Seq<char>) -> bool {
    exists|i: int| 0 < i && i + 3 < s.len() && separator_at(s, i)
}

/// Decides whether `s` is a resource locator.
pub fn valid_resource_uri(s: &str) -> (ok: bool)
    ensures
        ok == is_resource_uri(s@),
{
    let n: usize = s.unicode_len();
    if n < 5 {
        return false;
    }
    let mut i: usize = 1;
    while i < n - 3
        invariant
            n == s@.len(),
            n >= 5,
            1 <= i <= n - 3,
            forall|j: int| 0 < j < i ==> !separator_at(s@, j),
        decreases n - i,
    {
        if s.get_char(i) == ':' && s.get_char(i + 1) == '/' && s.get_char(i + 2) == '/' {
            assert(separator_at(s@, i as int));
            return true;
        }
        i += 1;
    }
    false
}

/// The number that a string of decimal digits writes.
pub open spec fn decimal_value(t: Seq<char>) -> int
    decreases t.len(),
{
    if t.len() == 0 {
        0
    } else {
        decimal_value(t.drop_last()) * 10 + digit_value(t.last())
    }
}

/// A prefix length: one to three decimal digits whose value is at most
/// `width`, the number of bits of an address.
pub open spec fn is_prefix_length(t: Seq<char>, width: int) -> bool {
    &&& 1 <= t.len() <= 3
    &&& forall|i: int| 0 <= i < t.len() ==> is_digit(#[trigger] t[i])
    &&& decimal_value(t) <= width
}

/// Decides whether `s` is a prefix length for addresses of `width` bits.
pub fn valid_prefix_length(s: &str, width: u32) -> (ok: bool)
    ensures
        ok == is_prefix_length(s@, width as int),
{
    let n: usize = s.unicode_len();
    if n == 0 || n > 3 {
        return false;
    }
    let mut value: u32 = 0;
    let mut i: usize = 0;
    while i < n
        invariant
            n == s@.len(),
            1 <= n <= 3,
            i <= n,
            forall|j: int| 0 <= j < i ==> is_digit(#[trigger] s@[j]),
            value as int == decimal_value(s@.take(i as int)),
            0 <= value < 1000,
            i == 0 ==> value == 0,
            i == 1 ==> value < 10,
            i == 2 ==> value < 100,
        decreases n - i,
    {
        let c: char = s.get_char(i);
        if !(c >= '0' && c <= '9') {
            return false;
        }
        assert(s@.take(i as int + 1).drop_last() =~= s@.take(i as int));
        value = value * 10 + (c as u32 - '0' as u32);
        i += 1;
    }
    assert(s@.take(n as int) =~= s@);
    value <= width
}

/// Reads a dotted IPv4 address from position `i` on. Before `i` stand
/// `parts` complete numbers and `digits` digits of the current one, which
/// write `value` so far.
pub open spec fn ipv4_from(t: Seq<char>, i: int, parts: int, digits: int, value: int) -> bool
    decreases t.len() - i,
{
    if i < 0 || i >= t.len() {
        parts == 3 && digits > 0
    } else if is_digit(t[i]) {
        let v = value * 10 + digit_value(t[i]);
        digits < 3 && v <= 255 && ipv4_from(t, i + 1, parts, digits + 1, v)
    } else if t[i] == '.' {
        digits > 0 && parts < 3 && ipv4_from(t, i + 1, parts + 1, 0, 0)
    } else {
        false
    }
}

/// An IPv4 address: four decimal numbers of one to three digits, none above
/// 255, with dots between them.
pub open spec fn is_ipv4(t: Seq<char>) -> bool {
    ipv4_from(t, 0, 0, 0, 0)
}

/// Decides whether `s` is an IPv4 address.
pub fn valid_ipv4(s: &str) -> (ok: bool)
    ensures
        ok == is_ipv4(s@),
{
    let n: usize = s.unicode_len();
    let mut parts: u32 = 0;
    let mut digits: u32 = 0;
    let mut value: u32 = 0;
    let mut i: usize = 0;
    while i < n
        invariant
            n == s@.len(),
            i <= n,
            parts <= 3,
            digits <= 3,
            value <= 255,
            is_ipv4(s@) == ipv4_from(s@, i as int, parts as int, digits as int, value as int),
        decreases n - i,
    {
        let c: char = s.get_char(i);
        if c >= '0' && c <= '9' {
            let v: u32 = value * 10 + (c as u32 - '0' as u32);
            if digits >= 3 || v > 255 {
                return false;
            }
            digits += 1;
            value = v;
        } else if c == '.' {
            if digits == 0 || parts >= 3 {
                return false;
            }
            parts += 1;
            digits = 0;
            value = 0;
        } else {
            return false;
        }
        i += 1;
    }
    parts == 3 && digits > 0
}

/// Reads an IPv6 address from position `i` on. Before `i` stand `groups`
/// complete groups and `digits` digits of the current one; `elided` says
/// whether `::` has occurred, and `colons` how many colons stand directly
/// before `i`.
pub open spec fn ipv6_from(
    t: Seq<char>,
    i: int,
    groups: int,
    digits: int,
    elided: bool,
    colons: int,
) -> bool
    decreases t.len() - i,
{
    if i < 0 || i >= t.len() {
        if digits > 0 {
            if elided {
                groups + 1 <= 7
            } else {
                groups + 1 == 8
            }
        } else {
            colons == 2 && groups <= 7
        }
    } else if is_hex_digit(t[i]) {
        digits < 4 && (colons != 1 || groups > 0) && ipv6_from(
            t,
            i + 1,
            groups,
            digits + 1,
            elided,
            0,
        )
    } else if t[i] == ':' {
        if digits > 0 {
            groups < 7 && ipv6_from(t, i + 1, groups + 1, 0, elided, 1)
        } else if colons == 1 {
            !elided && ipv6_from(t, i + 1, groups, 0, true, 2)
        } else if colons == 0 {
            i == 0 && ipv6_from(t, i + 1, groups, 0, elided, 1)
        } else {
            false
        }
    } else {
        false
    }
}

/// An IPv6 address: groups of one to four hexadecimal digits with colons
/// between them, eight groups in all, or fewer where `::` stands once for
/// the groups left out.
pub open spec fn is_ipv6(t: Seq<char>) -> bool {
    ipv6_from(t, 0, 0, 0, false, 0)
}

/// Decides whether `s` is an IPv6 address.
pub fn valid_ipv6(s: &str) -> (ok: bool)
    ensures
        ok == is_ipv6(s@),
{
    let n: usize = s.unicode_len();
    let mut groups: u32 = 0;
    let mut digits: u32 = 0;
    let mut elided: bool = false;
    let mut colons: u32 = 0;
    let mut i: usize = 0;
    while i < n
        invariant
            n == s@.len(),
            i <= n,
            groups <= 7,
            digits <= 4,
            colons <= 2,
            is_ipv6(s@) == ipv6_from(
                s@,
                i as int,
                groups as int,
                digits as int,
                elided,
                colons as int,
            ),
        decreases n - i,
    {
        let c: char = s.get_char(i);
        let hex: bool = (c >= '0' && c <= '9') || (c >= 'a' && c <= 'f') || (c >= 'A' && c
            <= 'F');
        if hex {
            if digits >= 4 || (colons == 1 && groups == 0) {
                return false;
            }
            digits += 1;
            colons = 0;
        } else if c == ':' {
            if digits > 0 {
                if groups >= 7 {
                    return false;
                }
                groups += 1;
                digits = 0;
                colons = 1;
            } else if colons == 1 {
                if elided {
                    return false;
                }
                elided = true;
                colons = 2;
            } else if colons == 0 {
                if i != 0 {
                    return false;
                }
                colons = 1;
            } else {
                return false;
            }
        } else {
            return false;
        }
        i += 1;
    }
    if digits > 0 {
        if elided {
            groups + 1 <= 7
        } else {
            groups + 1 == 8
        }
    } else {
        colons == 2
    }
}

/// `s` has its first slash at `k`, an address before it and, after it, a
/// prefix length that fits the address family.
pub open spec fn cidr_split_at(s: Seq<char>, k: int) -> bool {
    &&& 0 <= k < s.len()
    &&& s[k] == '/'
    &&& forall|j: int| 0 <= j < k ==> s[j] != '/'
    &&& {
        let address = s.subrange(0, k);
        let prefix = s.subrange(k + 1, s.len() as int);
        ||| is_ipv4(address) && is_prefix_length(prefix, 32)
        ||| is_ipv6(address) && is_prefix_length(prefix, 128)
    }
}

/// A CIDR block: an IPv4 address, a slash and a prefix length of at most 32,
/// or an IPv6 address, a slash and a prefix length of at most 128.
pub open spec fn is_cidr(s: Seq<char>) -> bool {
    exists|k: int| cidr_split_at(s, k)
}

/// Decides whether `s` is a CIDR block of either address family.
pub fn valid_cidr(s: &str) -> (ok: bool)
    ensures
        ok == is_cidr(s@),
{
    let n: usize = s.unicode_len();
    let mut k: usize = 0;
    while k < n && s.get_char(k) != '/'
        invariant
            n == s@.len(),
            k <= n,
            forall|j: int| 0 <= j < k ==> s@[j] != '/',
        decreases n - k,
    {
        k += 1;
    }
    if k >= n {
        return false;
    }
    let address: &str = s.substring_char(0, k);
    let prefix: &str = s.substring_char(k + 1, n);
    let ok: bool = (valid_ipv4(address) && valid_prefix_length(prefix, 32)) || (valid_ipv6(
        address,
    ) && valid_prefix_length(prefix, 128));
    proof {
        assert(ok == cidr_split_at(s@, k as int));
        assert forall|m: int| cidr_split_at(s@, m) implies m == k by {
            if m < k {
                assert(s@[m] != '/');
            }
        }
    }
    ok
}

} // verus!
