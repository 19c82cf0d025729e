//! Checking a server address given as `host:port`.
use vstd::prelude::*;

verus! {

/// The pieces of `s` between occurrences of `sep`, empty pieces included,
/// as `str::split` yields them.
pub open spec fn pieces(s: Seq<char>, sep: char) -> Seq<Seq<char>>
    decreases s.len(),
{
    if s.len() == 0 {
        seq![Seq::empty()]
    } else {
        let p = pieces(s.drop_last(), sep);
        if s.last() == sep {
            p.push(Seq::empty())
        } else {
            p.update(p.len() - 1, p.last().push(s.last()))
        }
    }
}

proof fn lemma_pieces_nonempty(s: Seq<char>, sep: char)
    ensures
        pieces(s, sep).len() > 0,
    decreases s.len(),
{
    if s.len() > 0 {
        lemma_pieces_nonempty(s.drop_last(), sep);
    }
}

pub open spec fn is_digit(c: char) -> bool {
    '0' <= c <= '9'
}

pub open spec fn digit_value(c: char) -> nat {
    (c as u32 - '0' as u32) as nat
}

/// The number that a run of decimal digits spells.
pub open spec fn decimal(d: Seq<char>) -> nat
    decreases d.len(),
{
    if d.len() == 0 {
        0
    } else {
        decimal(d.drop_last()) * 10 + digit_value(d.last())
    }
}

/// The digits of an unsigned number's text: all of it, or what follows one leading `+`.
pub open spec fn digits_of(t: Seq<char>) -> Seq<char> {
    if t.len() > 0 && t[0] == '+' {
        t.drop_first()
    } else {
        t
    }
}

/// An unsigned number no greater than `max`, read as `str::parse` reads one.
pub open spec fn number_of(t: Seq<char>, max: nat) -> Option<nat> {
    let d = digits_of(t);
    if d.len() > 0 && (forall|i: int| 0 <= i < d.len() ==> is_digit(#[trigger] d[i])) && decimal(d)
        <= max {
        Some(decimal(d))
    } else {
        None
    }
}

/// How many of `parts` read as a byte.
pub open spec fn byte_count(parts: Seq<Seq<char>>) -> nat
    decreases parts.len(),
{
    if parts.len() == 0 {
        0
    } else {
        byte_count(parts.drop_last()) + if number_of(parts.last(), 255) is Some {
            1nat
        } else {
            0
        }
    }
}

/// What `str::to_lowercase` makes of a text.
pub uninterp spec fn lower_of(s: Seq<char>) -> Seq<char>;

/// A host part names a server: it lowercases to `localhost`, or exactly four
/// of its dot-separated pieces read as a byte.
pub open spec fn host_valid(host: Seq<char>, lowered: Seq<char>) -> bool {
    lowered == "localhost"@ || byte_count(pieces(host, '.')) == 4
}

/// An address is `host:port` with exactly one colon, a port from 1 to 65535,
/// and a valid host.
pub open spec fn address_valid(a: Seq<char>) -> bool {
    let p = pieces(a, ':');
    &&& p.len() == 2
    &&& number_of(p[1], 65535) matches Some(port) && port != 0
    &&& host_valid(p[0], lower_of(p[0]))
}

/// Relies on `str::to_lowercase`: the result depends on the characters alone.
#[verifier::external_body]
fn lowercase(s: &str) -> (r: String)
    ensures
        r@ == lower_of(s@),
{
    s.to_lowercase()
}

/// Where each piece of `s` between occurrences of `sep` starts and ends.
fn piece_spans(s: &str, sep: char) -> (r: Vec<(usize, usize)>)
    ensures
        r@.len() == pieces(s@, sep).len(),
        forall|j: int| 0 <= j < r@.len() ==> (#[trigger] r@[j]).0 <= r@[j].1 <= s@.len(),
        forall|j: int|
            0 <= j < r@.len() ==> #[trigger] s@.subrange(r@[j].0 as int, r@[j].1 as int) == pieces(
                s@,
                sep,
            )[j],
{
    let n = s.unicode_len();
    let mut spans: Vec<(usize, usize)> = Vec::new();
    let mut start: usize = 0;
    let mut i: usize = 0;
    assert(s@.subrange(0, 0) == Seq::<char>::empty());
    while i < n
        invariant
            n == s@.len(),
            start <= i <= n,
            spans@.len() + 1 == pieces(s@.subrange(0, i as int), sep).len(),
            s@.subrange(start as int, i as int) == pieces(s@.subrange(0, i as int), sep).last(),
            forall|j: int| 0 <= j < spans@.len() ==> (#[trigger] spans@[j]).0 <= spans@[j].1 <= i,
            forall|j: int|
                0 <= j < spans@.len() ==> #[trigger] s@.subrange(
                    spans@[j].0 as int,
                    spans@[j].1 as int,
                ) == pieces(s@.subrange(0, i as int), sep)[j],
        decreases n - i,
    {
        let c = s.get_char(i);
        let ghost p = s@.subrange(0, i as int);
        let ghost q = s@.subrange(0, i + 1);
        let ghost before = spans@;
        assert(q.drop_last() == p);
        assert(q.last() == c);
        proof {
            lemma_pieces_nonempty(p, sep);
        }
        if c == sep {
            spans.push((start, i));
            start = i + 1;
            assert(s@.subrange(start as int, i + 1) == Seq::<char>::empty());
        } else {
            assert(s@.subrange(start as int, i + 1) == s@.subrange(start as int, i as int).push(c));
        }
        assert forall|j: int| 0 <= j < spans@.len() implies (#[trigger] spans@[j]).0 <= spans@[j].1
            <= i + 1 by {
            if j < before.len() {
                assert(spans@[j] == before[j]);
            }
        }
        assert forall|j: int| 0 <= j < spans@.len() implies #[trigger] s@.subrange(
            spans@[j].0 as int,
            spans@[j].1 as int,
        ) == pieces(q, sep)[j] by {
            if j < before.len() {
                assert(spans@[j] == before[j]);
                assert(s@.subrange(before[j].0 as int, before[j].1 as int) == pieces(p, sep)[j]);
            }
        }
        i = i + 1;
    }
    spans.push((start, n));
    assert(s@.subrange(0, n as int) == s@);
    spans
}

proof fn lemma_decimal_grows(d: Seq<char>, c: char, cap: nat)
    requires
        decimal(d) >= cap,
        is_digit(c),
    ensures
        decimal(d.push(c)) >= cap,
{
    assert(d.push(c).drop_last() == d);
}

/// Reads an unsigned number no greater than `max` as `str::parse` reads one:
/// an optional `+`, then one or more ASCII digits.
pub fn parse_number(t: &str, max: u32) -> (r: Option<u32>)
    requires
        max < 100_000_000,
    ensures
        r matches Some(v) ==> number_of(t@, max as nat) == Some(v as nat),
        r is None ==> number_of(t@, max as nat) is None,
{
    let n = t.unicode_len();
    let mut k: usize = 0;
    if n > 0 && t.get_char(0) == '+' {
        k = 1;
    }
    let ghost d = digits_of(t@);
    assert(d == t@.subrange(k as int, n as int));
    if k == n {
        return None;
    }
    let cap = max + 1;
    let mut value: u32 = 0;
    let mut i: usize = k;
    while i < n
        invariant
            k <= i <= n,
            n == t@.len(),
            d == t@.subrange(k as int, n as int),
            d == digits_of(t@),
            cap == max + 1,
            max < 100_000_000,
            forall|m: int| k <= m < i ==> is_digit(#[trigger] t@[m]),
            value <= cap,
            value == (if decimal(t@.subrange(k as int, i as int)) < cap {
                decimal(t@.subrange(k as int, i as int))
            } else {
                cap as nat
            }),
        decreases n - i,
    {
        let c = t.get_char(i);
        if !('0' <= c && c <= '9') {
            assert(d[i - k] == c);
            return None;
        }
        let ghost prefix = t@.subrange(k as int, i as int);
        assert(t@.subrange(k as int, i + 1) == prefix.push(c));
        assert(prefix.push(c).drop_last() == prefix);
        let digit = (c as u32) - ('0' as u32);
        if value == cap {
            proof {
                lemma_decimal_grows(prefix, c, cap as nat);
            }
        } else {
            let next = value * 10 + digit;
            if next >= cap {
                value = cap;
            } else {
                value = next;
            }
        }
        i = i + 1;
    }
    assert forall|m: int| 0 <= m < d.len() implies is_digit(#[trigger] d[m]) by {
        assert(d[m] == t@[m + k]);
    }
    if value == cap {
        None
    } else {
        Some(value)
    }
}

/// Whether a host part names a server, given `lowered`, what
/// `str::to_lowercase` makes of it.
pub fn host_ok(host: &str, lowered: &str) -> (r: bool)
    ensures
        r == host_valid(host@, lowered@),
{
    if String::from_str(lowered) == String::from_str("localhost") {
        return true;
    }
    let spans = piece_spans(host, '.');
    let mut count: usize = 0;
    let mut j: usize = 0;
    while j < spans.len()
        invariant
            spans@.len() == pieces(host@, '.').len(),
            forall|m: int| 0 <= m < spans@.len() ==> (#[trigger] spans@[m]).0 <= spans@[m].1 <= host@.len(),
            forall|m: int|
                0 <= m < spans@.len() ==> #[trigger] host@.subrange(
                    spans@[m].0 as int,
                    spans@[m].1 as int,
                ) == pieces(host@, '.')[m],
            j <= spans@.len(),
            count == byte_count(pieces(host@, '.').subrange(0, j as int)),
            count <= j,
        decreases spans@.len() - j,
    {
        let (a, b) = spans[j];
        let part = host.substring_char(a, b);
        let ghost all = pieces(host@, '.');
        assert(all.subrange(0, j + 1).drop_last() == all.subrange(0, j as int));
        assert(host@.subrange(a as int, b as int) == all[j as int]);
        if parse_number(part, 255).is_some() {
            count = count + 1;
        }
        j = j + 1;
    }
    assert(pieces(host@, '.').subrange(0, j as int) == pieces(host@, '.'));
    count == 4
}

/// Whether `address` is a usable server address: `host:port` with exactly
/// one colon, a port from 1 to 65535, and a host that is `localhost` in any
/// case or has exactly four dot-separated pieces that read as a byte.
pub fn validate_address(address: &str) -> (r: bool)
    ensures
        r == address_valid(address@),
{
    let spans = piece_spans(address, ':');
    if spans.len() != 2 {
        return false;
    }
    let (ha, hb) = spans[0];
    let (pa, pb) = spans[1];
    let host = address.substring_char(ha, hb);
    let port = address.substring_char(pa, pb);
    match parse_number(port, 65535) {
        Some(v) => {
            if v == 0 {
                return false;
            }
        },
        None => {
            return false;
        },
    }
    let lowered = lowercase(host);
    host_ok(host, lowered.as_str())
}

} // verus!
