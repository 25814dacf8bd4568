//! Byte-sequence searching and decimal text, the vocabulary of the packed header.
use vstd::prelude::*;

verus! {

/// `needle` occurs in `hay` starting at index `i`.
pub open spec fn occurs_at(hay: Seq<u8>, needle: Seq<u8>, i: int) -> bool {
    0 <= i && i + needle.len() <= hay.len() && hay.subrange(i, i + needle.len()) == needle
}

/// `needle` occurs somewhere in `hay`.
pub open spec fn contains(hay: Seq<u8>, needle: Seq<u8>) -> bool {
    exists|i: int| occurs_at(hay, needle, i)
}

/// The first index at or after `from` where `needle` occurs in `hay`.
pub open spec fn first_match(hay: Seq<u8>, needle: Seq<u8>, from: int) -> Option<int>
    decreases hay.len() + 1 - from,
{
    if from < 0 || from + needle.len() > hay.len() {
        None
    } else if occurs_at(hay, needle, from) {
        Some(from)
    } else {
        first_match(hay, needle, from + 1)
    }
}

pub open spec fn opt_int(r: Option<usize>) -> Option<int> {
    match r {
        Some(i) => Some(i as int),
        None => None,
    }
}

pub open spec fn starts_with(s: Seq<u8>, prefix: Seq<u8>) -> bool {
    prefix.len() <= s.len() && s.subrange(0, prefix.len() as int) == prefix
}

/// What `first_match` finds: the earliest occurrence at or after `from`.
pub proof fn lemma_first_match(hay: Seq<u8>, needle: Seq<u8>, from: int)
    requires
        0 <= from,
    ensures
        match first_match(hay, needle, from) {
            Some(i) => from <= i && occurs_at(hay, needle, i) && forall|j: int|
                from <= j < i ==> !occurs_at(hay, needle, j),
            None => forall|j: int| from <= j ==> !occurs_at(hay, needle, j),
        },
    decreases hay.len() + 1 - from,
{
    if from + needle.len() > hay.len() {
    } else if occurs_at(hay, needle, from) {
    } else {
        lemma_first_match(hay, needle, from + 1);
    }
}

/// An occurrence at `k` with none in `[from, k)` is the one `first_match` finds.
pub proof fn lemma_first_match_is(hay: Seq<u8>, needle: Seq<u8>, from: int, k: int)
    requires
        0 <= from <= k,
        occurs_at(hay, needle, k),
        forall|j: int| from <= j < k ==> !occurs_at(hay, needle, j),
    ensures
        first_match(hay, needle, from) == Some(k),
{
    lemma_first_match(hay, needle, from);
}

/// `first_match` finds nothing when no occurrence starts at or after `from`.
pub proof fn lemma_first_match_none(hay: Seq<u8>, needle: Seq<u8>, from: int)
    requires
        0 <= from,
        forall|j: int| from <= j ==> !occurs_at(hay, needle, j),
    ensures
        first_match(hay, needle, from) is None,
{
    lemma_first_match(hay, needle, from);
}

/// Whether `needle` occurs in `hay` at index `i`.
pub fn matches_at(hay: &[u8], needle: &[u8], i: usize) -> (r: bool)
    ensures
        r == occurs_at(hay@, needle@, i as int),
{
    if i > hay.len() || needle.len() > hay.len() - i {
        return false;
    }
    let n = hay.len();
    let mut k: usize = 0;
    while k < needle.len()
        invariant
            n == hay@.len(),
            i + needle@.len() <= hay@.len(),
            k <= needle@.len(),
            forall|t: int| 0 <= t < k ==> hay@[i + t] == needle@[t],
        decreases needle@.len() - k,
    {
        if hay[i + k] != needle[k] {
            assert(hay@.subrange(i as int, i + needle@.len())[k as int] != needle@[k as int]);
            return false;
        }
        k += 1;
    }
    assert(hay@.subrange(i as int, i + needle@.len()) =~= needle@);
    true
}

/// The first index at or after `from` where `needle` occurs in `hay`.
pub fn find_from(hay: &[u8], needle: &[u8], from: usize) -> (r: Option<usize>)
    ensures
        opt_int(r) == first_match(hay@, needle@, from as int),
        r matches Some(i) ==> i + needle@.len() <= hay.len(),
{
    if needle.len() == 0 {
        if from <= hay.len() {
            assert(hay@.subrange(from as int, from as int) =~= needle@);
            return Some(from);
        } else {
            return None;
        }
    }
    let mut i: usize = from;
    while needle.len() <= hay.len() && i <= hay.len() - needle.len()
        invariant
            from <= i,
            needle@.len() > 0,
            first_match(hay@, needle@, from as int) == first_match(hay@, needle@, i as int),
        decreases hay@.len() + 1 - i,
    {
        if matches_at(hay, needle, i) {
            return Some(i);
        }
        i += 1;
    }
    None
}

/// Whether `needle` occurs anywhere in `hay`.
pub fn contains_bytes(hay: &[u8], needle: &[u8]) -> (r: bool)
    ensures
        r == contains(hay@, needle@),
{
    let found = find_from(hay, needle, 0);
    proof {
        lemma_first_match(hay@, needle@, 0);
    }
    found.is_some()
}

/// A copy of the first `n` bytes of `data`.
pub fn prefix_copy(data: &[u8], n: usize) -> (r: Vec<u8>)
    requires
        n <= data@.len(),
    ensures
        r@ == data@.subrange(0, n as int),
{
    let mut out: Vec<u8> = Vec::new();
    let mut i: usize = 0;
    while i < n
        invariant
            i <= n,
            n <= data@.len(),
            out@ == data@.subrange(0, i as int),
        decreases n - i,
    {
        out.push(data[i]);
        i += 1;
        assert(out@ =~= data@.subrange(0, i as int));
    }
    out
}

pub open spec fn newline() -> Seq<u8> {
    seq![10u8]
}

pub open spec fn is_digit(b: u8) -> bool {
    48 <= b <= 57
}

pub open spec fn all_digits(s: Seq<u8>) -> bool {
    forall|i: int| 0 <= i < s.len() ==> is_digit(#[trigger] s[i])
}

/// The number that a run of ASCII decimal digits spells.
pub open spec fn digits_value(s: Seq<u8>) -> nat
    decreases s.len(),
{
    if s.len() == 0 {
        0
    } else {
        digits_value(s.drop_last()) * 10 + (s.last() - 48) as nat
    }
}

/// The decimal field that starts at `start`: the digits up to the next newline,
/// with that newline's index. None where the line is empty, holds anything but
/// digits, has no newline, or spells a number that no `usize` holds.
pub open spec fn line_value(hay: Seq<u8>, start: int) -> Option<(nat, int)> {
    match first_match(hay, newline(), start) {
        Some(e) => {
            let body = hay.subrange(start, e);
            if body.len() > 0 && all_digits(body) && digits_value(body) <= usize::MAX {
                Some((digits_value(body), e))
            } else {
                None
            }
        },
        None => None,
    }
}

pub open spec fn opt_field(r: Option<(usize, usize)>) -> Option<(nat, int)> {
    match r {
        Some((v, e)) => Some((v as nat, e as int)),
        None => None,
    }
}

/// A longer run of digits never spells a smaller number.
pub proof fn lemma_digits_value_prefix(s: Seq<u8>, k: int)
    requires
        0 <= k <= s.len(),
    ensures
        digits_value(s.subrange(0, k)) <= digits_value(s),
    decreases s.len() - k,
{
    if k < s.len() {
        lemma_digits_value_prefix(s, k + 1);
        assert(s.subrange(0, k + 1).drop_last() =~= s.subrange(0, k));
    } else {
        assert(s.subrange(0, k) =~= s);
    }
}

/// Reads the decimal field that starts at `start` (see `line_value`).
pub fn parse_decimal_line(hay: &[u8], start: usize) -> (r: Option<(usize, usize)>)
    requires
        start <= hay@.len(),
    ensures
        opt_field(r) == line_value(hay@, start as int),
{
    let n = hay.len();
    let mut i: usize = start;
    let mut value: usize = 0;
    while i < n
        invariant
            n == hay@.len(),
            start <= i <= n,
            all_digits(hay@.subrange(start as int, i as int)),
            value as nat == digits_value(hay@.subrange(start as int, i as int)),
        decreases n - i,
    {
        let b = hay[i];
        if b == 10 {
            proof {
                assert forall|j: int| start <= j < i implies !occurs_at(hay@, newline(), j) by {
                    assert(hay@.subrange(start as int, i as int)[j - start] == hay@[j]);
                    assert(hay@.subrange(j, j + 1)[0] == hay@[j]);
                }
                assert(hay@.subrange(i as int, i + 1) =~= newline());
                lemma_first_match_is(hay@, newline(), start as int, i as int);
            }
            if i == start {
                return None;
            }
            return Some((value, i));
        }
        proof {
            assert forall|j: int| start <= j <= i implies !occurs_at(hay@, newline(), j) by {
                if j < i {
                    assert(hay@.subrange(start as int, i as int)[j - start] == hay@[j]);
                }
                assert(hay@.subrange(j, j + 1)[0] == hay@[j]);
            }
            lemma_first_match(hay@, newline(), start as int);
        }
        if b < 48 || b > 57 {
            proof {
                match first_match(hay@, newline(), start as int) {
                    Some(e) => {
                        assert(hay@.subrange(start as int, e)[i - start] == b);
                    },
                    None => {},
                }
            }
            return None;
        }
        let d = (b - 48) as usize;
        let ghost next = hay@.subrange(start as int, i + 1);
        assert(next.drop_last() =~= hay@.subrange(start as int, i as int));
        if value > (usize::MAX - d) / 10 {
            proof {
                assert(digits_value(next) > usize::MAX);
                match first_match(hay@, newline(), start as int) {
                    Some(e) => {
                        let body = hay@.subrange(start as int, e);
                        if all_digits(body) {
                            assert(body.subrange(0, i + 1 - start) =~= next);
                            lemma_digits_value_prefix(body, i + 1 - start);
                        }
                    },
                    None => {},
                }
            }
            return None;
        }
        value = value * 10 + d;
        i += 1;
        proof {
            assert forall|j: int| 0 <= j < next.len() implies is_digit(#[trigger] next[j]) by {
                if j < next.len() - 1 {
                    assert(next[j] == hay@.subrange(start as int, i - 1)[j]);
                }
            }
        }
    }
    proof {
        assert forall|j: int| start <= j implies !occurs_at(hay@, newline(), j) by {
            if j < n {
                assert(hay@.subrange(start as int, n as int)[j - start] == hay@[j]);
                assert(hay@.subrange(j, j + 1)[0] == hay@[j]);
            }
        }
        lemma_first_match_none(hay@, newline(), start as int);
    }
    None
}

} // verus!
