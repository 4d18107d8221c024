//! High-score logic: the monotone bump rule and the parser for the
//! persisted value.  The store itself is a collaborator that hands the
//! library the file's bytes and persists a plain integer back; the store
//! holds a single non-negative integer, and anything else loads as zero.

use vstd::prelude::*;

verus! {

/// Raises the high score to the score when the score exceeds it, and never
/// lowers it.  The returned flag says whether the new high score must be
/// persisted.
pub fn bump_high_score(score: i32, high_score: &mut i32) -> (saved: bool)
    ensures
        *final(high_score) == (if score > *old(high_score) {
            score
        } else {
            *old(high_score)
        }),
        *final(high_score) >= *old(high_score),
        saved == (score > *old(high_score)),
{
    if score > *high_score {
        *high_score = score;
        true
    } else {
        false
    }
}

/// An ASCII whitespace byte: space, tab, line feed, form feed or carriage
/// return.
pub open spec fn is_ascii_ws(c: u8) -> bool {
    c == 32 || c == 9 || c == 10 || c == 12 || c == 13
}

/// An ASCII decimal digit byte.
pub open spec fn is_digit(c: u8) -> bool {
    48 <= c <= 57
}

/// Every byte of the sequence is a decimal digit.
pub open spec fn all_digits(s: Seq<u8>) -> bool {
    forall|i: int| 0 <= i < s.len() ==> is_digit(#[trigger] s[i])
}

/// The sequence without its leading whitespace.
pub open spec fn trim_front(s: Seq<u8>) -> Seq<u8>
    decreases s.len(),
{
    if s.len() > 0 && is_ascii_ws(s[0]) {
        trim_front(s.drop_first())
    } else {
        s
    }
}

/// The sequence without its trailing whitespace.
pub open spec fn trim_back(s: Seq<u8>) -> Seq<u8>
    decreases s.len(),
{
    if s.len() > 0 && is_ascii_ws(s.last()) {
        trim_back(s.drop_last())
    } else {
        s
    }
}

/// The sequence without leading and trailing whitespace.
pub open spec fn trimmed(s: Seq<u8>) -> Seq<u8> {
    trim_back(trim_front(s))
}

/// The digits after an optional leading sign byte.
pub open spec fn signed_digits(t: Seq<u8>) -> Seq<u8> {
    if t.len() > 0 && (t[0] == 43 || t[0] == 45) {
        t.drop_first()
    } else {
        t
    }
}

/// The sign a leading minus byte gives the value.
pub open spec fn sign_of(t: Seq<u8>) -> int {
    if t.len() > 0 && t[0] == 45 {
        -1
    } else {
        1
    }
}

/// The value of a digit sequence read in base ten.
pub open spec fn digits_value(s: Seq<u8>) -> int
    decreases s.len(),
{
    if s.len() == 0 {
        0
    } else {
        digits_value(s.drop_last()) * 10 + (s.last() - 48)
    }
}

/// The score a persisted byte sequence denotes: its trimmed text read as an
/// optionally signed decimal integer in the `i32` range, with anything
/// unreadable, out of range or negative denoting zero.
pub open spec fn parsed_score(s: Seq<u8>) -> int {
    let t = trimmed(s);
    let d = signed_digits(t);
    if d.len() >= 1 && all_digits(d) {
        let v = sign_of(t) * digits_value(d);
        if v <= 0 {
            0
        } else if v <= 2147483647 {
            v
        } else {
            0
        }
    } else {
        0
    }
}

/// A digit sequence's value is non-negative and no less than the value of
/// any of its prefixes.
pub proof fn lemma_digits_value_prefix(d: Seq<u8>, k: int)
    requires
        all_digits(d),
        0 <= k <= d.len(),
    ensures
        digits_value(d) >= 0,
        digits_value(d) >= digits_value(d.take(k)),
    decreases d.len(),
{
    if d.len() == 0 {
    } else if k == d.len() {
        assert(d.take(k) =~= d);
        lemma_digits_value_prefix(d.drop_last(), d.len() - 1);
    } else {
        let shorter = d.drop_last();
        assert forall|i: int| 0 <= i < shorter.len() implies is_digit(#[trigger] shorter[i]) by {
            assert(shorter[i] == d[i]);
        }
        lemma_digits_value_prefix(shorter, k);
        assert(shorter.take(k) =~= d.take(k));
        assert(is_digit(d.last()));
    }
}

fn is_ws_byte(c: u8) -> (r: bool)
    ensures
        r == is_ascii_ws(c),
{
    c == 32 || c == 9 || c == 10 || c == 12 || c == 13
}

/// Reads the persisted high score from the store's bytes: the trimmed text
/// as a decimal integer, with a missing, unreadable, out-of-range or
/// negative value read as zero.
pub fn parse_highscore(bytes: &Vec<u8>) -> (r: i32)
    ensures
        r == parsed_score(bytes@),
        r >= 0,
{
    let ghost s = bytes@;
    let n = bytes.len();

    let mut start: usize = 0;
    proof {
        assert(s.skip(0) =~= s);
    }
    while start < n && is_ws_byte(bytes[start])
        invariant
            s == bytes@,
            n == s.len(),
            0 <= start <= n,
            trim_front(s) == trim_front(s.skip(start as int)),
        decreases n - start,
    {
        proof {
            assert(s.skip(start as int)[0] == s[start as int]);
            assert(s.skip(start as int).drop_first() =~= s.skip(start + 1));
        }
        start += 1;
    }
    proof {
        if start < n {
            assert(s.skip(start as int)[0] == s[start as int]);
        }
        assert(trim_front(s.skip(start as int)) == s.skip(start as int));
    }

    let mut end: usize = n;
    proof {
        assert(s.skip(start as int) =~= s.subrange(start as int, n as int));
    }
    while end > start && is_ws_byte(bytes[end - 1])
        invariant
            s == bytes@,
            n == s.len(),
            0 <= start <= end <= n,
            trim_front(s) == s.skip(start as int),
            s.skip(start as int) == s.subrange(start as int, n as int),
            trim_back(s.subrange(start as int, n as int)) == trim_back(
                s.subrange(start as int, end as int),
            ),
        decreases end,
    {
        proof {
            assert(s.subrange(start as int, end as int).last() == s[end - 1]);
            assert(s.subrange(start as int, end as int).drop_last() =~= s.subrange(
                start as int,
                end - 1,
            ));
        }
        end -= 1;
    }
    let ghost t = trimmed(s);
    proof {
        if end > start {
            assert(s.subrange(start as int, end as int).last() == s[end - 1]);
        }
        assert(trim_back(s.subrange(start as int, end as int)) == s.subrange(
            start as int,
            end as int,
        ));
        assert(t == s.subrange(start as int, end as int));
    }

    if start == end {
        return 0;
    }
    proof {
        assert(t[0] == s[start as int]);
    }

    let first = bytes[start];
    let mut i: usize = start;
    if first == 45 {
        // A leading minus: a well-formed value can only be negative or
        // zero, and a negative stored value loads as zero either way.
        proof {
            if signed_digits(t).len() >= 1 && all_digits(signed_digits(t)) {
                lemma_digits_value_prefix(signed_digits(t), 0);
            }
        }
        return 0;
    }
    if first == 43 {
        i = start + 1;
    }
    let ghost d = signed_digits(t);
    proof {
        assert(d =~= s.subrange(i as int, end as int));
    }
    if i == end {
        return 0;
    }

    let mut acc: i64 = 0;
    let mut j: usize = i;
    proof {
        assert(s.subrange(i as int, i as int) =~= Seq::<u8>::empty());
    }
    while j < end
        invariant
            s == bytes@,
            n == s.len(),
            0 <= start <= i <= j <= end <= n,
            i < end,
            t == trimmed(s),
            t == s.subrange(start as int, end as int),
            d == signed_digits(t),
            d == s.subrange(i as int, end as int),
            sign_of(t) == 1,
            all_digits(s.subrange(i as int, j as int)),
            acc == digits_value(s.subrange(i as int, j as int)),
            0 <= acc <= 2147483647,
        decreases end - j,
    {
        let c = bytes[j];
        if !(48 <= c && c <= 57) {
            proof {
                assert(d[j - i] == s[j as int]);
                assert(!is_digit(d[j - i]));
            }
            return 0;
        }
        proof {
            assert(s.subrange(i as int, j + 1).drop_last() =~= s.subrange(i as int, j as int));
            assert(s.subrange(i as int, j + 1).last() == s[j as int]);
            assert forall|m: int| 0 <= m < j + 1 - i implies is_digit(
                #[trigger] s.subrange(i as int, j + 1)[m],
            ) by {
                if m < j - i {
                    assert(s.subrange(i as int, j + 1)[m] == s.subrange(i as int, j as int)[m]);
                } else {
                    assert(s.subrange(i as int, j + 1)[m] == s[j as int]);
                }
            }
        }
        acc = acc * 10 + ((c - 48) as i64);
        j += 1;
        if acc > 2147483647 {
            proof {
                if all_digits(d) {
                    lemma_digits_value_prefix(d, j - i);
                    assert(d.take(j - i) =~= s.subrange(i as int, j as int));
                }
            }
            return 0;
        }
    }
    proof {
        assert(s.subrange(i as int, j as int) =~= d);
    }
    acc as i32
}

} // verus!
