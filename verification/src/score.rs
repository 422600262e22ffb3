//! Score tracking: a saturating score counter paired with a running high
//! score, plus the decision of when the high score is worth persisting.

use vstd::prelude::*;

verus! {

/// The character for one decimal digit.
pub open spec fn digit_char(d: int) -> char {
    if d == 0 {
        '0'
    } else if d == 1 {
        '1'
    } else if d == 2 {
        '2'
    } else if d == 3 {
        '3'
    } else if d == 4 {
        '4'
    } else if d == 5 {
        '5'
    } else if d == 6 {
        '6'
    } else if d == 7 {
        '7'
    } else if d == 8 {
        '8'
    } else {
        '9'
    }
}

/// The decimal representation of a non-negative number, most significant
/// digit first.
pub open spec fn dec_digits(n: int) -> Seq<char>
    decreases n,
{
    if n < 10 {
        seq![digit_char(n)]
    } else {
        dec_digits(n / 10) + seq![digit_char(n % 10)]
    }
}

/// One decimal digit as a character.
fn digit_to_char(d: u32) -> (c: char)
    requires
        d < 10,
    ensures
        c == digit_char(d as int),
{
    match d {
        0 => '0',
        1 => '1',
        2 => '2',
        3 => '3',
        4 => '4',
        5 => '5',
        6 => '6',
        7 => '7',
        8 => '8',
        _ => '9',
    }
}

/// The decimal digits of a number, as they are written out when the high
/// score is persisted.
pub fn decimal_chars(n: u32) -> (v: Vec<char>)
    ensures
        v@ == dec_digits(n as int),
    decreases n,
{
    if n < 10 {
        let mut v: Vec<char> = Vec::new();
        v.push(digit_to_char(n));
        proof {
            assert(v@ =~= dec_digits(n as int));
        }
        v
    } else {
        let mut v = decimal_chars(n / 10);
        v.push(digit_to_char(n % 10));
        proof {
            assert(v@ =~= dec_digits(n as int));
        }
        v
    }
}


/// The whitespace the stored-score reader strips from both ends.
pub open spec fn is_space(c: char) -> bool {
    c == ' ' || c == '\n' || c == '\t' || c == '\r'
}

/// Whether a character is a decimal digit.
pub open spec fn is_digit(c: char) -> bool {
    48 <= c as u32 && c as u32 <= 57
}

/// The value of one decimal digit character.
pub open spec fn digit_val(c: char) -> int {
    c as u32 - 48
}

/// The text with leading whitespace removed.
pub open spec fn trim_front(s: Seq<char>) -> Seq<char>
    decreases s.len(),
{
    if s.len() > 0 && is_space(s.first()) {
        trim_front(s.drop_first())
    } else {
        s
    }
}

/// The text with trailing whitespace removed.
pub open spec fn trim_back(s: Seq<char>) -> Seq<char>
    decreases s.len(),
{
    if s.len() > 0 && is_space(s.last()) {
        trim_back(s.drop_last())
    } else {
        s
    }
}

/// The text with whitespace removed from both ends.
pub open spec fn trimmed(s: Seq<char>) -> Seq<char> {
    trim_back(trim_front(s))
}

/// The number a digit string denotes, most significant digit first.
pub open spec fn digits_value(s: Seq<char>) -> int
    decreases s.len(),
{
    if s.len() == 0 {
        0
    } else {
        digits_value(s.drop_last()) * 10 + digit_val(s.last())
    }
}

/// Whether every character of the text is a decimal digit.
pub open spec fn all_digits(s: Seq<char>) -> bool {
    forall|i: int| 0 <= i < s.len() ==> is_digit(#[trigger] s[i])
}

/// What a stored high score reads as: the denoted number if, after
/// trimming whitespace, the text is a non-empty digit string whose value
/// fits; zero for anything missing, corrupt or too large.
pub open spec fn parsed_or_zero(s: Seq<char>) -> u32 {
    let t = trimmed(s);
    if t.len() > 0 && all_digits(t) && digits_value(t) <= u32::MAX {
        digits_value(t) as u32
    } else {
        0
    }
}

/// A digit string denotes a non-negative number.
proof fn lemma_digits_nonneg(s: Seq<char>)
    requires
        all_digits(s),
    ensures
        digits_value(s) >= 0,
    decreases s.len(),
{
    if s.len() > 0 {
        assert(all_digits(s.drop_last()));
        lemma_digits_nonneg(s.drop_last());
    }
}

/// Extending a digit string never shrinks its value.
proof fn lemma_digits_prefix_le(s: Seq<char>, m: int)
    requires
        all_digits(s),
        0 <= m <= s.len(),
    ensures
        digits_value(s.subrange(0, m)) <= digits_value(s),
    decreases s.len() - m,
{
    if m == s.len() {
        assert(s.subrange(0, m) =~= s);
    } else {
        lemma_digits_prefix_le(s, m + 1);
        let e = s.subrange(0, m + 1);
        assert(e.drop_last() =~= s.subrange(0, m));
        assert(e.last() == s[m]);
        assert(all_digits(s.subrange(0, m)));
        lemma_digits_nonneg(s.subrange(0, m));
    }
}

/// Whether a character is stripped when a stored score is read.
fn is_space_char(c: char) -> (r: bool)
    ensures
        r == is_space(c),
{
    c == ' ' || c == '\n' || c == '\t' || c == '\r'
}

/// Read a stored high score: after trimming whitespace, a non-empty string
/// of decimal digits whose value fits gives that value; anything else gives
/// zero.
pub fn parse_high_score(text: &str) -> (r: u32)
    ensures
        r == parsed_or_zero(text@),
{
    let len: usize = text.unicode_len();
    proof {
        assert(text@.subrange(0, len as int) =~= text@);
    }
    let mut a: usize = 0;
    while a < len && is_space_char(text.get_char(a))
        invariant
            a <= len,
            len == text@.len(),
            trim_front(text@) == trim_front(text@.subrange(a as int, len as int)),
        decreases len - a,
    {
        proof {
            let part = text@.subrange(a as int, len as int);
            assert(part.first() == text@[a as int]);
            assert(part.drop_first() =~= text@.subrange(a as int + 1, len as int));
        }
        a = a + 1;
    }
    proof {
        let part = text@.subrange(a as int, len as int);
        if a < len {
            assert(part.first() == text@[a as int]);
        }
        assert(trim_front(text@) == part);
    }
    let mut b: usize = len;
    while b > a && is_space_char(text.get_char(b - 1))
        invariant
            a <= b <= len,
            len == text@.len(),
            trim_front(text@) == text@.subrange(a as int, len as int),
            trim_back(text@.subrange(a as int, len as int)) == trim_back(
                text@.subrange(a as int, b as int),
            ),
        decreases b,
    {
        proof {
            let part = text@.subrange(a as int, b as int);
            assert(part.last() == text@[b - 1]);
            assert(part.drop_last() =~= text@.subrange(a as int, b as int - 1));
        }
        b = b - 1;
    }
    let ghost t = text@.subrange(a as int, b as int);
    proof {
        if b > a {
            assert(t.last() == text@[b - 1]);
        }
        assert(trimmed(text@) == t);
    }
    if a == b {
        return 0;
    }
    let mut val: u32 = 0;
    let mut i: usize = a;
    while i < b
        invariant
            a <= i <= b <= len,
            len == text@.len(),
            t == text@.subrange(a as int, b as int),
            trimmed(text@) == t,
            a < b,
            all_digits(text@.subrange(a as int, i as int)),
            val == digits_value(text@.subrange(a as int, i as int)),
        decreases b - i,
    {
        let c = text.get_char(i);
        let u = c as u32;
        if !(48 <= u && u <= 57) {
            proof {
                assert(t[i - a] == text@[i as int]);
                assert(!all_digits(t));
            }
            return 0;
        }
        let d = u - 48;
        if val > (u32::MAX - d) / 10 {
            proof {
                let grown = text@.subrange(a as int, i as int + 1);
                assert(grown.drop_last() =~= text@.subrange(a as int, i as int));
                assert(grown.last() == text@[i as int]);
                assert(all_digits(grown));
                assert(digits_value(grown) > u32::MAX);
                if all_digits(t) {
                    assert(t.subrange(0, i as int + 1 - a) =~= grown);
                    lemma_digits_prefix_le(t, i as int + 1 - a);
                    assert(digits_value(t) > u32::MAX);
                }
            }
            return 0;
        }
        val = val * 10 + d;
        proof {
            let grown = text@.subrange(a as int, i as int + 1);
            assert(grown.drop_last() =~= text@.subrange(a as int, i as int));
            assert(grown.last() == text@[i as int]);
        }
        i = i + 1;
    }
    proof {
        assert(text@.subrange(a as int, i as int) =~= t);
    }
    val
}

/// The current score and the best score seen so far.
pub struct ScoreBoard {
    pub score: u32,
    pub high_score: u32,
}

impl ScoreBoard {
    /// A scoreboard holding a previously stored high score and no points yet.
    pub fn new(high_score: u32) -> (s: ScoreBoard)
        ensures
            s.score == 0,
            s.high_score == high_score,
    {
        ScoreBoard { score: 0, high_score }
    }

    /// Award points: the score grows saturating, and the high score is kept
    /// at the maximum of itself and the new score.
    pub fn add_points(&mut self, points: u32)
        ensures
            final(self).score == if old(self).score + points <= u32::MAX {
                (old(self).score + points) as u32
            } else {
                u32::MAX
            },
            final(self).high_score == if final(self).score > old(self).high_score {
                final(self).score
            } else {
                old(self).high_score
            },
    {
        self.score = if self.score <= u32::MAX - points {
            self.score + points
        } else {
            u32::MAX
        };
        if self.score > self.high_score {
            self.high_score = self.score;
        }
    }

    /// The high score is persisted only when the run ended at or above it.
    pub fn should_persist(&self) -> (r: bool)
        ensures
            r == (self.score >= self.high_score),
    {
        self.score >= self.high_score
    }
}

} // verus!
