use vstd::prelude::*;
use vstd::string::StrSliceExecFns;

use crate::text::push_char;

verus! {

/// The telnet port, used when a site address names none.
pub const DEFAULT_TELNET_PORT: u16 = 23;

/// The index of the last `:` in `s`, if any.
pub open spec fn last_colon(s: Seq<char>) -> Option<int>
    decreases s.len(),
{
    if s.len() == 0 {
        None
    } else if s.last() == ':' {
        Some(s.len() - 1)
    } else {
        last_colon(s.drop_last())
    }
}

/// Every character is an ASCII digit.
pub open spec fn all_digits(s: Seq<char>) -> bool {
    forall|i: int| 0 <= i < s.len() ==> '0' <= #[trigger] s[i] <= '9'
}

/// The number that a string of decimal digits writes.
pub open spec fn digits_value(s: Seq<char>) -> int
    decreases s.len(),
{
    if s.len() == 0 {
        0
    } else {
        digits_value(s.drop_last()) * 10 + (s.last() as int - '0' as int)
    }
}

/// A port number as `u16::from_str` reads it: an optional `+`, then one
/// or more decimal digits whose value is at most 65535.
pub open spec fn port_number(s: Seq<char>) -> Option<u16> {
    let digits = if s.len() > 0 && s[0] == '+' { s.drop_first() } else { s };
    if digits.len() > 0 && all_digits(digits) && digits_value(digits) <= 0xffff {
        Some(digits_value(digits) as u16)
    } else {
        None
    }
}

/// The host and port of a site address: the text before and after its
/// last `:`, or the whole address and the telnet port when it has none.
/// `None` when the text after the colon is no port number.
pub open spec fn host_and_port(url: Seq<char>) -> Option<(Seq<char>, u16)> {
    match last_colon(url) {
        Some(k) => match port_number(url.subrange(k + 1, url.len() as int)) {
            Some(p) => Some((url.subrange(0, k), p)),
            None => None,
        },
        None => Some((url, 23u16)),
    }
}

/// A site address whose port is not a number from 0 to 65535.
#[derive(Clone, Copy, Debug, PartialEq, Eq, Structural)]
pub enum AddressError {
    InvalidPort,
}

/// The digits of a prefix are worth no more than the whole.
proof fn lemma_digits_prefix(s: Seq<char>, j: int)
    requires
        0 <= j <= s.len(),
        all_digits(s),
    ensures
        digits_value(s.take(j)) <= digits_value(s),
        0 <= digits_value(s.take(j)),
    decreases s.len(),
{
    if j == s.len() {
        assert(s.take(j) =~= s);
        lemma_digits_nonneg(s);
    } else {
        assert(s.drop_last().take(j) =~= s.take(j));
        lemma_digits_prefix(s.drop_last(), j);
    }
}

proof fn lemma_digits_nonneg(s: Seq<char>)
    requires
        all_digits(s),
    ensures
        digits_value(s) >= 0,
    decreases s.len(),
{
    if s.len() > 0 {
        lemma_digits_nonneg(s.drop_last());
    }
}

/// Text without a colon has no last colon.
proof fn lemma_no_colon(s: Seq<char>)
    requires
        forall|i: int| 0 <= i < s.len() ==> s[i] != ':',
    ensures
        last_colon(s) is None,
    decreases s.len(),
{
    if s.len() > 0 {
        lemma_no_colon(s.drop_last());
    }
}

/// The last colon of `host : port`, where `port` holds none, is the one
/// after `host`.
proof fn lemma_colon_before(host: Seq<char>, port: Seq<char>)
    requires
        forall|i: int| 0 <= i < port.len() ==> port[i] != ':',
    ensures
        last_colon(host + seq![':'] + port) == Some(host.len() as int),
    decreases port.len(),
{
    let x = host + seq![':'] + port;
    if port.len() > 0 {
        assert(x.last() == port.last());
        assert(x.drop_last() =~= host + seq![':'] + port.drop_last());
        lemma_colon_before(host, port.drop_last());
    }
}

/// How a port number is read: nothing, or a `+` alone, is no number; one
/// digit is its own value; a leading `+` is skipped; each further digit
/// multiplies the number so far by ten and adds its value, and the number
/// fails once it passes 65535; any other character, anywhere but a leading
/// `+`, makes it no number.
pub proof fn law_port_number(s: Seq<char>, d: char, j: int)
    ensures
        port_number(Seq::empty()) is None,
        port_number(seq!['+']) is None,
        '0' <= d <= '9' ==> port_number(seq![d]) == Some(((d as u32) - 0x30) as u16),
        s.len() == 0 || s[0] != '+' ==> port_number(seq!['+'] + s) == port_number(s),
        ({
            let dv = (d as u32) - 0x30;
            s.len() > 0 && s[0] != '+' && '0' <= d <= '9' && port_number(s) is Some ==> port_number(s.push(d)) == (
            if port_number(s)->0 * 10 + dv <= 0xffff {
                Some((port_number(s)->0 * 10 + dv) as u16)
            } else {
                None
            })
        }),
        0 <= j < s.len() && !('0' <= s[j] <= '9') && !(j == 0 && s[j] == '+') ==> port_number(s) is None,
{
    assert(seq!['+'].drop_first() =~= Seq::<char>::empty());
    let one = seq![d];
    assert(one.drop_last() =~= Seq::<char>::empty());
    if s.len() == 0 || s[0] != '+' {
        assert((seq!['+'] + s).drop_first() =~= s);
    }
    if s.len() > 0 && s[0] != '+' && '0' <= d <= '9' && port_number(s) is Some {
        assert(s.push(d).drop_last() =~= s);
        assert(s.push(d)[0] == s[0]);
        lemma_digits_nonneg(s);
        assert(port_number(s)->0 == digits_value(s));
        assert(digits_value(s.push(d)) == digits_value(s) * 10 + (d as int - '0' as int));
        assert('0' as int == 0x30);
        assert forall|i: int| 0 <= i < s.push(d).len() implies '0' <= #[trigger] s.push(d)[i] <= '9' by {
            if i < s.len() {
                assert(s.push(d)[i] == s[i]);
            }
        }
    }
    if 0 <= j < s.len() && !('0' <= s[j] <= '9') && !(j == 0 && s[j] == '+') {
        if s.len() > 0 && s[0] == '+' {
            assert(s.drop_first()[j - 1] == s[j]);
        }
    }
}

/// A site address is split at its last colon into host and port; an
/// address without a colon is all host, on the telnet port 23.
pub proof fn law_address_split(url: Seq<char>, host: Seq<char>, port: Seq<char>)
    ensures
        (forall|i: int| 0 <= i < url.len() ==> url[i] != ':') ==> host_and_port(url) == Some((url, 23u16)),
        (forall|i: int| 0 <= i < port.len() ==> port[i] != ':') ==> host_and_port(host + seq![':'] + port) == (
        match port_number(port) {
            Some(n) => Some((host, n)),
            None => None,
        }),
{
    if forall|i: int| 0 <= i < url.len() ==> url[i] != ':' {
        lemma_no_colon(url);
    }
    if forall|i: int| 0 <= i < port.len() ==> port[i] != ':' {
        lemma_colon_before(host, port);
        let x = host + seq![':'] + port;
        assert(x.subrange(host.len() as int + 1, x.len() as int) =~= port);
        assert(x.subrange(0, host.len() as int) =~= host);
    }
}

/// The characters `from..to` of `s`.
fn slice_chars(s: &str, from: usize, to: usize) -> (t: String)
    requires
        from <= to <= s@.len(),
    ensures
        t@ == s@.subrange(from as int, to as int),
{
    let mut t = String::new();
    let mut i = from;
    while i < to
        invariant
            from <= i <= to <= s@.len(),
            t@ == s@.subrange(from as int, i as int),
        decreases to - i,
    {
        push_char(&mut t, s.get_char(i));
        i += 1;
        assert(t@ =~= s@.subrange(from as int, i as int));
    }
    t
}

/// Reads a port number (see [`port_number`]) from the characters
/// `from..` of `s`.
fn parse_port(s: &str, from: usize) -> (p: Option<u16>)
    requires
        from <= s@.len(),
    ensures
        p == port_number(s@.subrange(from as int, s@.len() as int)),
{
    let len = s.unicode_len();
    let ghost text = s@.subrange(from as int, len as int);
    let mut i = from;
    if i < len && s.get_char(i) == '+' {
        i += 1;
    }
    let ghost digits = s@.subrange(i as int, len as int);
    assert(digits =~= (if text.len() > 0 && text[0] == '+' { text.drop_first() } else { text }));
    if i >= len {
        return None;
    }
    let start = i;
    let mut value: u32 = 0;
    while i < len
        invariant
            start <= i <= len,
            len == s@.len(),
            start < len,
            digits == s@.subrange(start as int, len as int),
            text == s@.subrange(from as int, len as int),
            digits == (if text.len() > 0 && text[0] == '+' { text.drop_first() } else { text }),
            all_digits(s@.subrange(start as int, i as int)),
            value == digits_value(s@.subrange(start as int, i as int)),
            value <= 0xffff,
        decreases len - i,
    {
        let c = s.get_char(i);
        if c < '0' || c > '9' {
            assert(digits[i - start] == c);
            return None;
        }
        let d = (c as u32) - ('0' as u32);
        let ghost prefix = s@.subrange(start as int, i + 1);
        assert(prefix.drop_last() =~= s@.subrange(start as int, i as int));
        value = value * 10 + d;
        i += 1;
        assert(all_digits(s@.subrange(start as int, i as int)));
        if value > 0xffff {
            proof {
                if all_digits(digits) {
                    lemma_digits_prefix(digits, i - start);
                    assert(digits.take(i - start) =~= s@.subrange(start as int, i as int));
                }
            }
            return None;
        }
    }
    assert(digits =~= s@.subrange(start as int, i as int));
    Some(value as u16)
}

/// Splits a site address into host and port (see [`host_and_port`]).
pub fn split_host_port(url: &str) -> (r: Result<(String, u16), AddressError>)
    ensures
        match r {
            Ok((host, port)) => host_and_port(url@) == Some((host@, port)),
            Err(_) => host_and_port(url@) is None,
        },
{
    let len = url.unicode_len();
    let mut k = len;
    assert(url@.take(len as int) =~= url@);
    while k > 0
        invariant
            k <= len,
            len == url@.len(),
            last_colon(url@) == last_colon(url@.take(k as int)),
        decreases k,
    {
        let c = url.get_char(k - 1);
        assert(url@.take(k as int).drop_last() =~= url@.take(k - 1));
        if c == ':' {
            let port = parse_port(url, k);
            let host = slice_chars(url, 0, k - 1);
            return match port {
                Some(p) => Ok((host, p)),
                None => Err(AddressError::InvalidPort),
            };
        }
        k -= 1;
    }
    assert(url@ =~= url@.subrange(0, len as int));
    let host = slice_chars(url, 0, len);
    Ok((host, DEFAULT_TELNET_PORT))
}

} // verus!
