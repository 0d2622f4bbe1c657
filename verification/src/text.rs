//! Byte-level text primitives for the mesh parser: splitting into lines
//! and fields, and decimal number parsing, each with an exact
//! specification.

use vstd::prelude::*;

verus! {

/// Line feed byte.
pub const LF: u8 = 10;

/// Carriage return byte.
pub const CR: u8 = 13;

/// The fields of `s` separated by `sep`: empty fields are kept, and a
/// sequence with no separator is the single field `s` itself, so the
/// result always has one more field than there are separators.
pub open spec fn spec_split(s: Seq<u8>, sep: u8) -> Seq<Seq<u8>>
    decreases s.len(),
{
    if s.len() == 0 {
        seq![Seq::<u8>::empty()]
    } else if s[0] == sep {
        seq![Seq::<u8>::empty()] + spec_split(s.drop_first(), sep)
    } else {
        let rest = spec_split(s.drop_first(), sep);
        seq![seq![s[0]] + rest[0]] + rest.drop_first()
    }
}

/// The lines of `s`: terminated by a line feed or by a carriage return
/// and line feed pair (the carriage return is not part of the line), with
/// the final terminator optional, and no empty line after a final
/// terminator. A lone carriage return does not end a line.
pub open spec fn spec_lines(s: Seq<u8>) -> Seq<Seq<u8>>
    decreases s.len(),
{
    if s.len() == 0 {
        Seq::empty()
    } else if s[0] == LF {
        seq![Seq::<u8>::empty()] + spec_lines(s.drop_first())
    } else if s[0] == CR && s.len() >= 2 && s[1] == LF {
        seq![Seq::<u8>::empty()] + spec_lines(s.skip(2))
    } else {
        glue(seq![s[0]], spec_lines(s.drop_first()))
    }
}

/// `p` joined onto the front of the first piece of `pieces` (a piece of
/// its own if there are none): the shape of one partly assembled piece
/// followed by the pieces still to come.
pub open spec fn glue(p: Seq<u8>, pieces: Seq<Seq<u8>>) -> Seq<Seq<u8>> {
    if pieces.len() == 0 {
        seq![p]
    } else {
        seq![p + pieces[0]] + pieces.drop_first()
    }
}

proof fn lemma_split_nonempty(s: Seq<u8>, sep: u8)
    ensures
        spec_split(s, sep).len() >= 1,
    decreases s.len(),
{
    if s.len() > 0 {
        lemma_split_nonempty(s.drop_first(), sep);
    }
}

proof fn lemma_glue_empty(pieces: Seq<Seq<u8>>)
    requires
        pieces.len() >= 1,
    ensures
        glue(Seq::empty(), pieces) == pieces,
{
    assert(glue(Seq::empty(), pieces) =~= pieces);
}

/// The views of a sequence of byte vectors, element by element.
pub open spec fn views_of(ts: Seq<Vec<u8>>) -> Seq<Seq<u8>> {
    Seq::new(ts.len(), |i: int| ts[i]@)
}

proof fn lemma_views_of_push(ts: Seq<Vec<u8>>, v: Vec<u8>)
    ensures
        views_of(ts.push(v)) == views_of(ts).push(v@),
{
    assert(views_of(ts.push(v)) =~= views_of(ts).push(v@));
}

/// The fields of `s` separated by `sep`, as [`spec_split`] describes.
pub fn split_bytes(s: &[u8], sep: u8) -> (r: Vec<Vec<u8>>)
    ensures
        views_of(r@) == spec_split(s@, sep),
{
    let mut done: Vec<Vec<u8>> = Vec::new();
    let mut cur: Vec<u8> = Vec::new();
    let n = s.len();
    let mut i: usize = 0;
    proof {
        lemma_split_nonempty(s@, sep);
        lemma_glue_empty(spec_split(s@, sep));
        assert(s@.skip(0) =~= s@);
    }
    while i < n
        invariant
            i <= n,
            n == s@.len(),
            spec_split(s@, sep) == views_of(done@) + glue(cur@, spec_split(s@.skip(i as int), sep)),
        decreases n - i,
    {
        let ghost tail = s@.skip(i as int);
        let ghost tail2 = s@.skip(i + 1);
        proof {
            assert(tail[0] == s@[i as int]);
            assert(tail.drop_first() =~= tail2);
            lemma_split_nonempty(tail2, sep);
        }
        if s[i] == sep {
            let ghost old_done = done@;
            let finished = cur;
            cur = Vec::new();
            done.push(finished);
            proof {
                assert(spec_split(tail, sep) == seq![Seq::<u8>::empty()] + spec_split(tail2, sep));
                assert(glue(finished@, spec_split(tail, sep)) =~~= seq![finished@] + spec_split(
                    tail2,
                    sep,
                ));
                lemma_glue_empty(spec_split(tail2, sep));
                lemma_views_of_push(old_done, finished);
                assert(views_of(old_done).push(finished@) + spec_split(tail2, sep)
                    =~= views_of(old_done) + (seq![finished@] + spec_split(tail2, sep)));
            }
        } else {
            let ghost old_cur = cur@;
            cur.push(s[i]);
            proof {
                let rest = spec_split(tail2, sep);
                assert(spec_split(tail, sep) == seq![seq![tail[0]] + rest[0]] + rest.drop_first());
                assert(glue(old_cur, spec_split(tail, sep)) =~~= glue(cur@, rest));
            }
        }
        i = i + 1;
    }
    proof {
        assert(s@.skip(n as int) =~= Seq::<u8>::empty());
        assert(glue(cur@, spec_split(s@.skip(n as int), sep)) =~= seq![cur@]);
    }
    let ghost old_done = done@;
    let last = cur;
    done.push(last);
    proof {
        lemma_views_of_push(old_done, last);
        assert(views_of(old_done).push(last@) =~= views_of(old_done) + seq![last@]);
    }
    done
}

/// The lines of `s`, as [`spec_lines`] describes.
pub fn lines_bytes(s: &[u8]) -> (r: Vec<Vec<u8>>)
    ensures
        views_of(r@) == spec_lines(s@),
{
    let mut done: Vec<Vec<u8>> = Vec::new();
    let mut cur: Vec<u8> = Vec::new();
    let mut in_line: bool = false;
    let n = s.len();
    let mut i: usize = 0;
    proof {
        assert(s@.skip(0) =~= s@);
    }
    while i < n
        invariant
            i <= n,
            n == s@.len(),
            in_line ==> spec_lines(s@) == views_of(done@) + glue(
                cur@,
                spec_lines(s@.skip(i as int)),
            ),
            !in_line ==> cur@ == Seq::<u8>::empty() && spec_lines(s@) == views_of(done@)
                + spec_lines(s@.skip(i as int)),
        decreases n - i,
    {
        let ghost tail = s@.skip(i as int);
        proof {
            assert(tail[0] == s@[i as int]);
        }
        let is_newline = s[i] == LF;
        let is_crlf = s[i] == CR && i + 1 < n && s[i + 1] == LF;
        if is_newline || is_crlf {
            let width: usize = if is_newline {
                1
            } else {
                2
            };
            let ghost tail2 = s@.skip(i + width);
            proof {
                if is_newline {
                    assert(tail.drop_first() =~= tail2);
                } else {
                    assert(tail.skip(2) =~= tail2);
                }
                assert(spec_lines(tail) == seq![Seq::<u8>::empty()] + spec_lines(tail2));
            }
            let ghost old_done = done@;
            let finished = cur;
            cur = Vec::new();
            done.push(finished);
            proof {
                lemma_views_of_push(old_done, finished);
                if in_line {
                    assert(glue(finished@, spec_lines(tail)) =~~= seq![finished@] + spec_lines(
                        tail2,
                    ));
                }
                assert(views_of(old_done).push(finished@) + spec_lines(tail2) =~= views_of(
                    old_done,
                ) + (seq![finished@] + spec_lines(tail2)));
            }
            in_line = false;
            i = i + width;
        } else {
            let ghost tail2 = s@.skip(i + 1);
            proof {
                assert(tail.drop_first() =~= tail2);
                assert(spec_lines(tail) == glue(seq![tail[0]], spec_lines(tail2)));
            }
            let ghost old_cur = cur@;
            cur.push(s[i]);
            proof {
                if in_line {
                    assert(glue(old_cur, spec_lines(tail)) =~~= glue(cur@, spec_lines(tail2)));
                } else {
                    assert(spec_lines(tail) =~~= glue(cur@, spec_lines(tail2)));
                }
            }
            in_line = true;
            i = i + 1;
        }
    }
    proof {
        assert(s@.skip(n as int) =~= Seq::<u8>::empty());
    }
    if in_line {
        let ghost old_done = done@;
        let last = cur;
        done.push(last);
        proof {
            lemma_views_of_push(old_done, last);
            assert(glue(last@, spec_lines(s@.skip(n as int))) =~= seq![last@]);
            assert(views_of(old_done).push(last@) =~= views_of(old_done) + seq![last@]);
        }
        done
    } else {
        done
    }
}

/// Plus sign byte.
pub const PLUS: u8 = 43;

/// Lowest decimal digit byte.
pub const DIGIT_ZERO: u8 = 48;

/// Highest decimal digit byte.
pub const DIGIT_NINE: u8 = 57;

/// Whether `b` is a decimal digit byte.
pub open spec fn spec_is_digit(b: u8) -> bool {
    DIGIT_ZERO <= b <= DIGIT_NINE
}

/// Whether every byte of `s` is a decimal digit.
pub open spec fn spec_all_digits(s: Seq<u8>) -> bool {
    forall|i: int| 0 <= i < s.len() ==> spec_is_digit(#[trigger] s[i])
}

/// The number a sequence of decimal digit bytes denotes, most
/// significant digit first.
pub open spec fn spec_digits_value(s: Seq<u8>) -> int
    decreases s.len(),
{
    if s.len() == 0 {
        0
    } else {
        spec_digits_value(s.drop_last()) * 10 + (s.last() - DIGIT_ZERO)
    }
}

/// The digits of `s` once an optional leading plus sign is removed.
pub open spec fn spec_digits_part(s: Seq<u8>) -> Seq<u8> {
    if s.len() > 0 && s[0] == PLUS {
        s.drop_first()
    } else {
        s
    }
}

/// The unsigned number `s` denotes: an optional leading plus sign, then
/// at least one decimal digit, denoting a value that fits the platform's
/// word; anything else denotes nothing.
pub open spec fn spec_parse_usize(s: Seq<u8>) -> Option<int> {
    let digits = spec_digits_part(s);
    if digits.len() > 0 && spec_all_digits(digits) && spec_digits_value(digits) <= usize::MAX {
        Some(spec_digits_value(digits))
    } else {
        None
    }
}

proof fn lemma_digits_value_nonneg(s: Seq<u8>)
    requires
        spec_all_digits(s),
    ensures
        spec_digits_value(s) >= 0,
    decreases s.len(),
{
    if s.len() > 0 {
        assert(spec_all_digits(s.drop_last()));
        lemma_digits_value_nonneg(s.drop_last());
    }
}

proof fn lemma_digits_value_grows(s: Seq<u8>, j: int)
    requires
        spec_all_digits(s),
        0 <= j <= s.len(),
    ensures
        spec_digits_value(s.take(j)) <= spec_digits_value(s),
    decreases s.len() - j,
{
    if j == s.len() {
        assert(s.take(j) =~= s);
    } else {
        assert(spec_all_digits(s.take(j)));
        lemma_digits_value_nonneg(s.take(j));
        assert(s.take(j + 1).drop_last() =~= s.take(j));
        assert(s.take(j + 1).last() == s[j]);
        lemma_digits_value_grows(s, j + 1);
    }
}

/// The number a byte sequence denotes is never negative.
pub proof fn lemma_parse_usize_nonneg(s: Seq<u8>)
    ensures
        spec_parse_usize(s) is Some ==> 0 <= spec_parse_usize(s)->0 <= usize::MAX,
{
    if spec_parse_usize(s) is Some {
        lemma_digits_value_nonneg(spec_digits_part(s));
    }
}

/// The unsigned number `s` denotes, as [`spec_parse_usize`] describes;
/// nothing when `s` is not a number or its value does not fit.
pub fn parse_usize_bytes(s: &[u8]) -> (r: Option<usize>)
    ensures
        ({
            let p = spec_parse_usize(s@);
            match p {
                Some(v) => r == Some(v as usize),
                None => r is None,
            }
        }),
{
    let n = s.len();
    let start: usize = if n > 0 && s[0] == PLUS {
        1
    } else {
        0
    };
    let ghost digits = spec_digits_part(s@);
    proof {
        assert(digits =~= s@.skip(start as int));
    }
    if start >= n {
        return None;
    }
    let mut acc: usize = 0;
    let mut j: usize = start;
    proof {
        assert(digits.take(0) =~= Seq::<u8>::empty());
    }
    while j < n
        invariant
            start <= j <= n,
            n == s@.len(),
            start <= 1,
            digits == spec_digits_part(s@),
            digits =~= s@.skip(start as int),
            spec_all_digits(digits.take(j - start)),
            acc == spec_digits_value(digits.take(j - start)),
        decreases n - j,
    {
        let ghost k = j - start;
        let b = s[j];
        proof {
            assert(digits[k as int] == s@[j as int]);
            assert(digits.take(k + 1).drop_last() =~= digits.take(k as int));
            assert(digits.take(k + 1).last() == digits[k as int]);
        }
        if b < DIGIT_ZERO || b > DIGIT_NINE {
            proof {
                assert(!spec_is_digit(digits[k as int]));
                assert(!spec_all_digits(digits));
            }
            return None;
        }
        proof {
            assert(spec_all_digits(digits.take(k + 1)));
        }
        let d = (b - DIGIT_ZERO) as usize;
        let widened = match acc.checked_mul(10) {
            Some(m) => m,
            None => {
                proof {
                    assert(spec_digits_value(digits.take(k + 1)) > usize::MAX);
                    if spec_all_digits(digits) {
                        lemma_digits_value_grows(digits, k + 1);
                    }
                }
                return None;
            },
        };
        let next = match widened.checked_add(d) {
            Some(a) => a,
            None => {
                proof {
                    assert(spec_digits_value(digits.take(k + 1)) > usize::MAX);
                    if spec_all_digits(digits) {
                        lemma_digits_value_grows(digits, k + 1);
                    }
                }
                return None;
            },
        };
        acc = next;
        j = j + 1;
    }
    proof {
        assert(digits.take(n - start) =~= digits);
    }
    Some(acc)
}

} // verus!
