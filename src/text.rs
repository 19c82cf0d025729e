use vstd::prelude::*;

verus! {

/// Unicode White_Space, the set that `char::is_whitespace` tests.
pub open spec fn is_space_spec(c: char) -> bool {
    let u = c as u32;
    ||| 0x9 <= u <= 0xd
    ||| u == 0x20
    ||| u == 0x85
    ||| u == 0xa0
    ||| u == 0x1680
    ||| 0x2000 <= u <= 0x200a
    ||| u == 0x2028
    ||| u == 0x2029
    ||| u == 0x202f
    ||| u == 0x205f
    ||| u == 0x3000
}

#[verifier::when_used_as_spec(is_space_spec)]
pub fn is_space(c: char) -> (r: bool)
    ensures
        r == is_space_spec(c),
{
    let u = c as u32;
    (0x9 <= u && u <= 0xd) || u == 0x20 || u == 0x85 || u == 0xa0 || u == 0x1680 || (0x2000 <= u
        && u <= 0x200a) || u == 0x2028 || u == 0x2029 || u == 0x202f || u == 0x205f || u == 0x3000
}

/// The maximal runs of non-space characters of `s`, in order.
pub open spec fn words(s: Seq<char>) -> Seq<Seq<char>>
    decreases s.len(),
{
    if s.len() == 0 {
        Seq::empty()
    } else {
        let w = words(s.drop_last());
        let c = s.last();
        if is_space_spec(c) {
            w
        } else if s.len() >= 2 && !is_space_spec(s[s.len() - 2]) {
            w.update(w.len() - 1, w.last().push(c))
        } else {
            w.push(seq![c])
        }
    }
}

/// Where each word of `s` starts and ends, counted in characters.
pub fn word_spans(s: &str) -> (r: Vec<(usize, usize)>)
    ensures
        r@.len() == words(s@).len(),
        forall|j: int| 0 <= j < r@.len() ==> (#[trigger] r@[j]).0 <= r@[j].1 <= s@.len(),
        forall|j: int|
            0 <= j < r@.len() ==> #[trigger] s@.subrange(r@[j].0 as int, r@[j].1 as int) == words(
                s@,
            )[j],
{
    let n = s.unicode_len();
    let mut spans: Vec<(usize, usize)> = Vec::new();
    let mut start: usize = 0;
    let mut inside = false;
    let mut i: usize = 0;
    while i < n
        invariant
            n == s@.len(),
            i <= n,
            inside <==> (i > 0 && !is_space_spec(s@[i - 1])),
            inside ==> start < i && spans@.len() + 1 == words(s@.subrange(0, i as int)).len()
                && s@.subrange(start as int, i as int) == words(
                s@.subrange(0, i as int),
            ).last(),
            !inside ==> spans@.len() == words(s@.subrange(0, i as int)).len(),
            forall|j: int| 0 <= j < spans@.len() ==> (#[trigger] spans@[j]).0 <= spans@[j].1 <= i,
            forall|j: int|
                0 <= j < spans@.len() ==> #[trigger] s@.subrange(
                    spans@[j].0 as int,
                    spans@[j].1 as int,
                ) == words(s@.subrange(0, i as int))[j],
        decreases n - i,
    {
        let c = s.get_char(i);
        let ghost p = s@.subrange(0, i as int);
        let ghost q = s@.subrange(0, i + 1);
        let ghost before = spans@;
        assert(q.drop_last() == p);
        assert(q.last() == c);
        if is_space(c) {
            assert(words(q) == words(p));
            if inside {
                spans.push((start, i));
            }
            inside = false;
        } else if inside {
            assert(q[q.len() - 2] == s@[i - 1]);
            assert(s@.subrange(start as int, i + 1) == s@.subrange(start as int, i as int).push(c));
            assert(words(q) == words(p).update(words(p).len() - 1, words(p).last().push(c)));
        } else {
            if i > 0 {
                assert(q[q.len() - 2] == s@[i - 1]);
            }
            assert(words(q) == words(p).push(seq![c]));
            assert(s@.subrange(i as int, i + 1) == seq![c]);
            start = i;
            inside = true;
        }
        assert forall|j: int| 0 <= j < spans@.len() implies #[trigger] s@.subrange(
            spans@[j].0 as int,
            spans@[j].1 as int,
        ) == words(q)[j] by {
            if j < before.len() {
                assert(spans@[j] == before[j]);
                assert(s@.subrange(before[j].0 as int, before[j].1 as int) == words(p)[j]);
            }
        }
        assert forall|j: int| 0 <= j < spans@.len() implies (#[trigger] spans@[j]).0 <= spans@[j].1
            <= i + 1 by {
            if j < before.len() {
                assert(spans@[j] == before[j]);
            }
        }
        i = i + 1;
    }
    if inside {
        spans.push((start, n));
    }
    assert(s@.subrange(0, n as int) == s@);
    spans
}

} // verus!
