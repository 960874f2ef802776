//! Reading the numeric literals of a program listing: one byte per
//! line, with comments, blank lines and radix prefixes.

use vstd::prelude::*;

use crate::error::Error;

verus! {

/// The byte value of the comment character `;`: the rest of a program
/// line after it is ignored.
pub const COMMENT: u8 = 59;

/// The byte value of `+`, accepted once before the digits.
pub const PLUS: u8 = 43;

/// ASCII whitespace, as trimmed from both ends of a program line.
pub open spec fn is_space(b: u8) -> bool {
    b == 32 || b == 9 || b == 10 || b == 13
}

/// The value of an ASCII digit or letter when read as a digit: `0`-`9`
/// give 0 through 9 and letters of either case give 10 through 35; any
/// other byte gives 99, which no radix accepts.
pub open spec fn digit_value(b: u8) -> int {
    if 48 <= b <= 57 {
        b - 48
    } else if 97 <= b <= 122 {
        b - 87
    } else if 65 <= b <= 90 {
        b - 55
    } else {
        99
    }
}

/// Whether every byte of `s` is a digit of the given radix.
pub open spec fn all_digits(s: Seq<u8>, radix: int) -> bool {
    forall|i: int| 0 <= i < s.len() ==> digit_value(s[i]) < radix
}

/// The number denoted by a digit string, most significant digit first.
pub open spec fn digits_value(s: Seq<u8>, radix: int) -> int
    decreases s.len(),
{
    if s.len() == 0 {
        0
    } else {
        digits_value(s.drop_last(), radix) * radix + digit_value(s.last())
    }
}

/// The index of the first comment character in a line, or the line's
/// length when there is none.
pub open spec fn comment_start(s: Seq<u8>) -> int
    decreases s.len(),
{
    if s.len() == 0 {
        0
    } else if s[0] == COMMENT {
        0
    } else {
        1 + comment_start(s.drop_first())
    }
}

/// The number of whitespace bytes at the start of `s`.
pub open spec fn leading_spaces(s: Seq<u8>) -> int
    decreases s.len(),
{
    if s.len() == 0 {
        0
    } else if !is_space(s[0]) {
        0
    } else {
        1 + leading_spaces(s.drop_first())
    }
}

/// The number of whitespace bytes at the end of `s`.
pub open spec fn trailing_spaces(s: Seq<u8>) -> int
    decreases s.len(),
{
    if s.len() == 0 {
        0
    } else if !is_space(s.last()) {
        0
    } else {
        1 + trailing_spaces(s.drop_last())
    }
}

/// `s` with its whitespace ends removed.
pub open spec fn trimmed(s: Seq<u8>) -> Seq<u8> {
    if leading_spaces(s) == s.len() {
        Seq::empty()
    } else {
        s.subrange(leading_spaces(s), s.len() - trailing_spaces(s))
    }
}

/// What remains of a program line once the comment is dropped and the
/// whitespace ends are trimmed.
pub open spec fn line_payload(line: Seq<u8>) -> Seq<u8> {
    trimmed(line.subrange(0, comment_start(line)))
}

/// The radix announced by a payload's prefix: `0x` or `0X` for sixteen,
/// `0b` for two, none for ten.
pub open spec fn radix_of(p: Seq<u8>) -> int {
    if p.len() >= 2 && p[0] == 48 && (p[1] == 120 || p[1] == 88) {
        16
    } else if p.len() >= 2 && p[0] == 48 && p[1] == 98 {
        2
    } else {
        10
    }
}

/// The payload with its radix prefix removed.
pub open spec fn after_prefix(p: Seq<u8>) -> Seq<u8> {
    if radix_of(p) == 10 {
        p
    } else {
        p.subrange(2, p.len() as int)
    }
}

/// The digit string of a payload: the part after the radix prefix, less
/// one optional leading `+`.
pub open spec fn digit_part(p: Seq<u8>) -> Seq<u8> {
    let d = after_prefix(p);
    if d.len() > 0 && d[0] == PLUS {
        d.subrange(1, d.len() as int)
    } else {
        d
    }
}

/// Whether a non-blank payload denotes a byte: at least one digit, every
/// digit valid in the announced radix, and a value that fits in a byte.
pub open spec fn payload_parses(p: Seq<u8>) -> bool {
    let d = digit_part(p);
    d.len() > 0 && all_digits(d, radix_of(p)) && digits_value(d, radix_of(p)) <= 255
}

/// The byte a parsable payload denotes.
pub open spec fn payload_value(p: Seq<u8>) -> int {
    digits_value(digit_part(p), radix_of(p))
}

/// Prefixes of an all-valid digit string never denote more than the whole
/// string does.
proof fn lemma_digits_value_prefix_bound(s: Seq<u8>, i: int, radix: int)
    requires
        2 <= radix,
        0 <= i <= s.len(),
    ensures
        digits_value(s.subrange(0, i), radix) <= digits_value(s, radix),
    decreases s.len() - i,
{
    if i < s.len() {
        lemma_digits_value_prefix_bound(s, i + 1, radix);
        let shorter = s.subrange(0, i);
        let longer = s.subrange(0, i + 1);
        assert(longer.drop_last() =~= shorter);
        lemma_digits_value_nonnegative(shorter, radix);
        assert(digits_value(shorter, radix) * radix >= digits_value(shorter, radix))
            by (nonlinear_arith)
            requires
                radix >= 2,
                digits_value(shorter, radix) >= 0,
        ;
    } else {
        assert(s.subrange(0, i) =~= s);
    }
}

/// A digit string's value is never negative.
proof fn lemma_digits_value_nonnegative(s: Seq<u8>, radix: int)
    requires
        radix >= 2,
    ensures
        digits_value(s, radix) >= 0,
    decreases s.len(),
{
    if s.len() > 0 {
        lemma_digits_value_nonnegative(s.drop_last(), radix);
        assert(digits_value(s.drop_last(), radix) * radix >= 0) by (nonlinear_arith)
            requires
                radix >= 2,
                digits_value(s.drop_last(), radix) >= 0,
        ;
    }
}

/// Reads one line of a program listing. Everything from the first `;` on
/// is a comment, surrounding whitespace is ignored, a blank line carries
/// no byte, and what remains must be a numeric literal for one byte,
/// written in decimal, in hexadecimal after `0x` or `0X`, or in binary
/// after `0b`, with one optional `+` before the digits. A remainder that
/// cannot be read that way, or whose value does not fit in a byte, is a
/// [`Error::MalformedOperand`].
#[verifier::rlimit(100)]
pub fn parse_program_line(line: &[u8]) -> (r: Result<Option<u8>, Error>)
    ensures
        ({
            let p = line_payload(line@);
            &&& p.len() == 0 ==> r == Ok::<Option<u8>, Error>(Option::None)
            &&& p.len() > 0 && payload_parses(p) ==> r == Ok::<Option<u8>, Error>(
                Option::Some(payload_value(p) as u8),
            )
            &&& p.len() > 0 && !payload_parses(p) ==> r == Err::<Option<u8>, Error>(
                Error::MalformedOperand,
            )
        }),
{
    let n = line.len();
    proof {
        assert(line@.subrange(0, n as int) =~= line@);
    }

    // Find where the comment starts.
    let mut stop: usize = 0;
    while stop < n && line[stop] != COMMENT
        invariant
            n == line@.len(),
            stop <= n,
            comment_start(line@) == stop + comment_start(line@.subrange(stop as int, n as int)),
        decreases n - stop,
    {
        proof {
            assert(line@.subrange(stop as int, n as int).drop_first() =~= line@.subrange(
                stop + 1,
                n as int,
            ));
        }
        stop = stop + 1;
    }
    proof {
        assert(comment_start(line@) == stop);
    }
    let ghost code = line@.subrange(0, stop as int);
    proof {
        assert(code.subrange(0, stop as int) =~= code);
    }

    // Trim whitespace from the front.
    let mut start: usize = 0;
    while start < stop && is_space_byte(line[start])
        invariant
            n == line@.len(),
            stop <= n,
            start <= stop,
            code == line@.subrange(0, stop as int),
            leading_spaces(code) == start + leading_spaces(
                code.subrange(start as int, stop as int),
            ),
        decreases stop - start,
    {
        proof {
            assert(code.subrange(start as int, stop as int).drop_first() =~= code.subrange(
                start + 1,
                stop as int,
            ));
        }
        start = start + 1;
    }
    if start == stop {
        proof {
            assert(leading_spaces(code) == code.len());
            assert(line_payload(line@).len() == 0);
        }
        return Ok(Option::None);
    }
    proof {
        assert(leading_spaces(code) == start);
    }

    // Trim whitespace from the back.
    let mut wend: usize = stop;
    while wend > start && is_space_byte(line[wend - 1])
        invariant
            n == line@.len(),
            stop <= n,
            start < stop,
            start < wend <= stop,
            code == line@.subrange(0, stop as int),
            !is_space(code[start as int]),
            trailing_spaces(code) == (stop - wend) + trailing_spaces(
                code.subrange(0, wend as int),
            ),
        decreases wend,
    {
        proof {
            assert(code.subrange(0, wend as int).drop_last() =~= code.subrange(0, wend - 1));
        }
        wend = wend - 1;
    }
    proof {
        assert(code.subrange(0, wend as int).len() > 0);
        assert(trailing_spaces(code) == stop - wend);
        assert(line_payload(line@) =~= code.subrange(start as int, wend as int));
    }
    let ghost p = line_payload(line@);

    // Read the radix prefix.
    let mut digits_from: usize = start;
    let mut radix: u16 = 10;
    if wend - start >= 2 && line[start] == 48 {
        let marker = line[start + 1];
        if marker == 120 || marker == 88 {
            radix = 16;
            digits_from = start + 2;
        } else if marker == 98 {
            radix = 2;
            digits_from = start + 2;
        }
    }
    proof {
        assert(radix == radix_of(p));
        assert(after_prefix(p) =~= code.subrange(digits_from as int, wend as int));
    }

    // One optional plus sign.
    if digits_from < wend && line[digits_from] == PLUS {
        digits_from = digits_from + 1;
        proof {
            assert(digit_part(p) =~= code.subrange(digits_from as int, wend as int));
        }
    } else {
        proof {
            assert(digit_part(p) =~= code.subrange(digits_from as int, wend as int));
        }
    }
    let ghost d = digit_part(p);

    if digits_from == wend {
        // No digits at all.
        return Err(Error::MalformedOperand);
    }

    // Accumulate the digits.
    let mut acc: u16 = 0;
    let mut i: usize = digits_from;
    while i < wend
        invariant
            n == line@.len(),
            digits_from <= i <= wend <= stop <= n,
            code == line@.subrange(0, stop as int),
            p == line_payload(line@),
            p.len() > 0,
            d == digit_part(p),
            d == code.subrange(digits_from as int, wend as int),
            radix == 2 || radix == 10 || radix == 16,
            radix == radix_of(p),
            all_digits(d.subrange(0, i - digits_from), radix as int),
            acc <= 255,
            acc == digits_value(d.subrange(0, i - digits_from), radix as int),
        decreases wend - i,
    {
        let dv = digit_value_byte(line[i]);
        if dv as u16 >= radix {
            proof {
                assert(d[i - digits_from] == line@[i as int]);
                assert(!all_digits(d, radix as int));
            }
            return Err(Error::MalformedOperand);
        }
        let next = acc * radix + dv as u16;
        proof {
            let done = d.subrange(0, i - digits_from);
            let more = d.subrange(0, i + 1 - digits_from);
            assert(more.drop_last() =~= done);
            assert(more.last() == line@[i as int]);
        }
        if next > 255 {
            // Every digit so far is valid, so if the rest are too the
            // value can only grow past a byte.
            proof {
                if all_digits(d, radix as int) {
                    let more = d.subrange(0, i + 1 - digits_from);
                    assert(digits_value(more, radix as int) == next);
                    lemma_digits_value_prefix_bound(d, i + 1 - digits_from, radix as int);
                    assert(digits_value(d, radix as int) > 255);
                }
                assert(!payload_parses(p));
            }
            return Err(Error::MalformedOperand);
        }
        acc = next;
        i = i + 1;
    }
    proof {
        assert(d.subrange(0, d.len() as int) =~= d);
    }
    Ok(Option::Some(acc as u8))
}

/// Whether a byte is ASCII whitespace.
fn is_space_byte(b: u8) -> (r: bool)
    ensures
        r == is_space(b),
{
    b == 32 || b == 9 || b == 10 || b == 13
}

/// The digit value of a byte, with 99 for a byte that is no digit.
fn digit_value_byte(b: u8) -> (v: u8)
    ensures
        v == digit_value(b),
{
    if 48 <= b && b <= 57 {
        b - 48
    } else if 97 <= b && b <= 122 {
        b - 87
    } else if 65 <= b && b <= 90 {
        b - 55
    } else {
        99
    }
}

} // verus!
