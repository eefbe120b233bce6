//! Text helpers: comparison, joining, decimal numbers and trimming.
use vstd::arithmetic::div_mod::lemma_div_denominator;
use vstd::arithmetic::power::{lemma_pow_positive, pow};
use vstd::prelude::*;
use vstd::string::{StrSliceExecFns, StringExecFns};

verus! {

/// Whether a character has the Unicode property `White_Space`.
pub open spec fn white_space(c: char) -> bool {
    let u = c as u32;
    ||| 0x9 <= u <= 0xD
    ||| u == 0x20
    ||| u == 0x85
    ||| u == 0xA0
    ||| u == 0x1680
    ||| 0x2000 <= u <= 0x200A
    ||| u == 0x2028
    ||| u == 0x2029
    ||| u == 0x202F
    ||| u == 0x205F
    ||| u == 0x3000
}

/// Whether a character has the Unicode property `White_Space`.
pub fn is_white_space(c: char) -> (answer: bool)
    ensures
        answer == white_space(c),
{
    let u: u32 = c as u32;
    (0x9 <= u && u <= 0xD) || u == 0x20 || u == 0x85 || u == 0xA0 || u == 0x1680 || (0x2000 <= u
        && u <= 0x200A) || u == 0x2028 || u == 0x2029 || u == 0x202F || u == 0x205F || u == 0x3000
}

/// A reply with the text of its error.
pub open spec fn text_reply<T>(reply: Result<T, String>) -> Result<T, Seq<char>> {
    match reply {
        Ok(value) => Ok(value),
        Err(error) => Err(error@),
    }
}

/// Compares two texts character by character.
pub fn same_text(a: &str, b: &str) -> (same: bool)
    ensures
        same == (a@ == b@),
{
    a.to_owned() == b.to_owned()
}

/// One text after the other.
pub fn joined(head: &str, tail: &str) -> (whole: String)
    ensures
        whole@ == head@ + tail@,
{
    head.to_owned().concat(tail)
}

/// The decimal digit of a number below ten.
pub open spec fn digit(d: int) -> char {
    if d == 0 {
        '0'
    } else if d == 1 {
        '1'
    } else if d == 2 {
        '2'
    } else if d == 3 {
        '3'
    } else if d == 4 {
        '4'
    } else if d == 5 {
        '5'
    } else if d == 6 {
        '6'
    } else if d == 7 {
        '7'
    } else if d == 8 {
        '8'
    } else {
        '9'
    }
}

/// A number written in decimal, without sign, padding or leading zeros.
pub open spec fn decimal(n: nat) -> Seq<char>
    decreases n,
{
    if n < 10 {
        seq![digit(n as int)]
    } else {
        decimal(n / 10).push(digit((n % 10) as int))
    }
}

fn digit_text(d: u128) -> (text: &'static str)
    requires
        d < 10,
    ensures
        text@ == seq![digit(d as int)],
{
    proof {
        reveal_strlit("0");
        reveal_strlit("1");
        reveal_strlit("2");
        reveal_strlit("3");
        reveal_strlit("4");
        reveal_strlit("5");
        reveal_strlit("6");
        reveal_strlit("7");
        reveal_strlit("8");
        reveal_strlit("9");
    }
    if d == 0 {
        "0"
    } else if d == 1 {
        "1"
    } else if d == 2 {
        "2"
    } else if d == 3 {
        "3"
    } else if d == 4 {
        "4"
    } else if d == 5 {
        "5"
    } else if d == 6 {
        "6"
    } else if d == 7 {
        "7"
    } else if d == 8 {
        "8"
    } else {
        "9"
    }
}

/// Writes a number in decimal.
pub fn decimal_text(n: u128) -> (text: String)
    ensures
        text@ == decimal(n as nat),
    decreases n,
{
    if n < 10 {
        digit_text(n).to_owned()
    } else {
        let mut text = decimal_text(n / 10);
        text.append(digit_text(n % 10));
        text
    }
}

/// Two numbers written alike are the same number.
pub proof fn law_decimal_injective(a: nat, b: nat)
    requires
        decimal(a) == decimal(b),
    ensures
        a == b,
    decreases a,
{
    let da = decimal(a);
    let db = decimal(b);
    assert(da.last() == digit((a % 10) as int));
    assert(db.last() == digit((b % 10) as int));
    if a >= 10 {
        assert(decimal((a / 10) as nat).len() >= 1);
        assert(da.drop_last() == decimal(a / 10));
        assert(b >= 10);
        assert(db.drop_last() == decimal(b / 10));
        law_decimal_injective(a / 10, b / 10);
    } else if b >= 10 {
        assert(decimal((b / 10) as nat).len() >= 1);
    }
}

/// How many marks are set from the start on.
pub open spec fn leading(marks: Seq<bool>) -> nat
    decreases marks.len(),
{
    if marks.len() > 0 && marks[0] {
        1 + leading(marks.drop_first())
    } else {
        0
    }
}

/// How many marks are set up to the end.
pub open spec fn trailing(marks: Seq<bool>) -> nat
    decreases marks.len(),
{
    if marks.len() > 0 && marks.last() {
        1 + trailing(marks.drop_last())
    } else {
        0
    }
}

/// A text without the marked characters at either end.
pub open spec fn trimmed_marked(s: Seq<char>, marks: Seq<bool>) -> Seq<char> {
    if leading(marks) == s.len() {
        Seq::empty()
    } else {
        s.subrange(leading(marks) as int, s.len() - trailing(marks))
    }
}

/// Which characters of a text are white space.
pub open spec fn white_marks(s: Seq<char>) -> Seq<bool> {
    s.map_values(|c: char| white_space(c))
}

/// A text without the white space at either end.
pub open spec fn trimmed(s: Seq<char>) -> Seq<char> {
    trimmed_marked(s, white_marks(s))
}

proof fn lemma_leading(marks: Seq<bool>, lo: int)
    requires
        0 <= lo <= marks.len(),
        forall|k: int| 0 <= k < lo ==> marks[k],
        lo < marks.len() ==> !marks[lo],
    ensures
        leading(marks) == lo,
    decreases marks.len(),
{
    if lo > 0 {
        lemma_leading(marks.drop_first(), lo - 1);
    }
}

proof fn lemma_trailing(marks: Seq<bool>, hi: int)
    requires
        0 <= hi <= marks.len(),
        forall|k: int| hi <= k < marks.len() ==> marks[k],
        hi > 0 ==> !marks[hi - 1],
    ensures
        trailing(marks) == marks.len() - hi,
    decreases marks.len(),
{
    if hi < marks.len() {
        lemma_trailing(marks.drop_last(), hi);
    }
}

/// Where the marks at the start end, and those at the end start.
proof fn lemma_ends(marks: Seq<bool>)
    ensures
        leading(marks) <= marks.len(),
        leading(marks) < marks.len() ==> !marks[leading(marks) as int],
        leading(marks) < marks.len() ==> leading(marks) + trailing(marks) < marks.len(),
        leading(marks) < marks.len() ==> !marks[marks.len() - trailing(marks) - 1],
{
    lemma_first_clear(marks);
    lemma_last_clear(marks);
}

proof fn lemma_first_clear(marks: Seq<bool>)
    ensures
        leading(marks) <= marks.len(),
        leading(marks) < marks.len() ==> !marks[leading(marks) as int],
    decreases marks.len(),
{
    if marks.len() > 0 && marks[0] {
        lemma_first_clear(marks.drop_first());
    }
}

proof fn lemma_last_clear(marks: Seq<bool>)
    ensures
        trailing(marks) <= marks.len(),
        trailing(marks) < marks.len() ==> !marks[marks.len() - trailing(marks) - 1],
        forall|k: int| marks.len() - trailing(marks) <= k < marks.len() ==> marks[k],
    decreases marks.len(),
{
    if marks.len() > 0 && marks.last() {
        let init = marks.drop_last();
        lemma_last_clear(init);
        assert forall|k: int| marks.len() - trailing(marks) <= k < marks.len() implies marks[k] by {
            if k < init.len() {
                assert(init[k]);
            }
        }
    }
}

/// The text without the marked characters at either end.
pub fn trim_marked(text: &str, marks: &Vec<bool>) -> (inner: String)
    requires
        marks@.len() == text@.len(),
    ensures
        inner@ == trimmed_marked(text@, marks@),
{
    let mut lo: usize = 0;
    while lo < marks.len() && marks[lo]
        invariant
            lo <= marks.len(),
            forall|k: int| 0 <= k < lo ==> marks@[k],
        decreases marks.len() - lo,
    {
        lo = lo + 1;
    }
    proof {
        lemma_leading(marks@, lo as int);
    }
    if lo == marks.len() {
        return String::new();
    }
    let mut hi: usize = marks.len();
    while marks[hi - 1]
        invariant
            lo < hi <= marks.len(),
            !marks@[lo as int],
            forall|k: int| hi <= k < marks.len() ==> marks@[k],
        decreases hi,
    {
        hi = hi - 1;
    }
    proof {
        lemma_trailing(marks@, hi as int);
    }
    text.substring_char(lo, hi).to_owned()
}

/// The text without white space at either end.
pub fn trim(text: &str) -> (inner: String)
    ensures
        inner@ == trimmed(text@),
{
    let mut marks: Vec<bool> = Vec::new();
    for c in chars: text.chars()
        invariant
            chars.seq() == text@,
            marks@ == white_marks(text@.take(chars.index() as int)),
    {
        marks.push(is_white_space(c));
        assert(white_marks(text@.take(chars.index() + 1)) =~= white_marks(
            text@.take(chars.index() as int),
        ).push(white_space(c)));
    }
    assert(text@.take(text@.len() as int) == text@);
    trim_marked(text, &marks)
}

/// What is left after trimming neither starts nor ends with white space.
pub proof fn law_trimmed_ends(s: Seq<char>)
    ensures
        trimmed(s).len() > 0 ==> !white_space(trimmed(s)[0]) && !white_space(trimmed(s).last()),
{
    lemma_ends(white_marks(s));
}

/// A text whose ends are no white space is left alone by trimming.
pub proof fn law_trimmed_keeps(s: Seq<char>)
    requires
        s.len() > 0 ==> !white_space(s[0]) && !white_space(s.last()),
    ensures
        trimmed(s) == s,
{
    if s.len() > 0 {
        assert(white_marks(s).last() == white_space(s.last()));
        assert(s.subrange(0, s.len() as int) == s);
    }
}

/// Trimming only cuts: what is left is one piece of the text.
pub proof fn law_trimmed_within(s: Seq<char>)
    ensures
        exists|lo: int|
            0 <= lo && lo + trimmed(s).len() <= s.len() && trimmed(s) == #[trigger] s.subrange(
                lo,
                lo + trimmed(s).len(),
            ),
{
    let marks = white_marks(s);
    lemma_ends(marks);
    lemma_last_clear(marks);
    let lo: int = if leading(marks) == s.len() {
        0
    } else {
        leading(marks) as int
    };
    assert(trimmed(s) == s.subrange(lo, lo + trimmed(s).len()));
}

/// Trimming a text twice is trimming it once.
pub proof fn law_trimmed_twice(s: Seq<char>)
    ensures
        trimmed(trimmed(s)) == trimmed(s),
{
    law_trimmed_ends(s);
    law_trimmed_keeps(trimmed(s));
}

/// Trimming cuts white space and nothing else: what is left is the text from some
/// place to another, and every character outside of it is white space.
pub proof fn law_trimmed_cuts(s: Seq<char>)
    ensures
        exists|lo: int, hi: int|
            0 <= lo <= hi <= s.len() && trimmed(s) == #[trigger] s.subrange(lo, hi) && (forall|
                i: int,
            | 0 <= i < lo || hi <= i < s.len() ==> white_space(#[trigger] s[i])),
{
    let marks = white_marks(s);
    law_marked_ends_cut(s, marks);
    let (lo, hi) = choose|lo: int, hi: int|
        0 <= lo <= hi <= s.len() && trimmed_marked(s, marks) == #[trigger] s.subrange(lo, hi) && (
        forall|i: int| 0 <= i < lo || hi <= i < s.len() ==> #[trigger] marks[i]) && (lo < hi ==> !marks[lo]
            && !marks[hi - 1]);
    assert(trimmed(s) == s.subrange(lo, hi));
    assert forall|i: int| 0 <= i < lo || hi <= i < s.len() implies white_space(#[trigger] s[i]) by {
        assert(marks[i]);
    }
}

/// Trimming by marks cuts the marked characters at the ends and stops at the first
/// one that is not marked, from either side.
pub proof fn law_marked_ends_cut(s: Seq<char>, marks: Seq<bool>)
    requires
        marks.len() == s.len(),
    ensures
        exists|lo: int, hi: int|
            0 <= lo <= hi <= s.len() && trimmed_marked(s, marks) == #[trigger] s.subrange(lo, hi)
                && (forall|i: int| 0 <= i < lo || hi <= i < s.len() ==> #[trigger] marks[i]) && (lo
                < hi ==> !marks[lo] && !marks[hi - 1]),
{
    lemma_ends(marks);
    lemma_leading_set(marks);
    lemma_last_clear(marks);
    if leading(marks) == s.len() {
        assert(trimmed_marked(s, marks) == s.subrange(0, 0));
    } else {
        let lo = leading(marks) as int;
        let hi = s.len() - trailing(marks);
        assert(trimmed_marked(s, marks) == s.subrange(lo, hi));
    }
}

proof fn lemma_leading_set(marks: Seq<bool>)
    ensures
        forall|k: int| 0 <= k < leading(marks) && k < marks.len() ==> #[trigger] marks[k],
    decreases marks.len(),
{
    if marks.len() > 0 && marks[0] {
        let rest = marks.drop_first();
        lemma_leading_set(rest);
        assert forall|k: int| 0 <= k < leading(marks) && k < marks.len() implies #[trigger] marks[k] by {
            if k > 0 {
                assert(rest[k - 1]);
            }
        }
    }
}

/// Each character of a number written in decimal is the digit of its place: the
/// last one counts ones, the one before it tens, and so on.
pub proof fn law_decimal_digits(n: nat, place: nat)
    requires
        place < decimal(n).len(),
    ensures
        decimal(n)[decimal(n).len() - 1 - place] as u32 == 48 + (n as int / pow(10, place)) % 10,
    decreases n,
{
    reveal(pow);
    if place == 0 {
        assert(pow(10, 0) == 1);
        assert(n as int / 1 == n as int);
        assert(decimal(n).last() == digit((n % 10) as int));
    } else {
        assert(n >= 10);
        let rest = decimal(n / 10);
        assert(decimal(n) == rest.push(digit((n % 10) as int)));
        law_decimal_digits(n / 10, (place - 1) as nat);
        assert(decimal(n)[decimal(n).len() - 1 - place] == rest[rest.len() - 1 - (place - 1)]);
        let p = pow(10, (place - 1) as nat);
        lemma_pow_positive(10, (place - 1) as nat);
        assert(pow(10, place) == 10 * p);
        lemma_div_denominator(n as int, 10, p);
        assert((n as int / 10) / p == n as int / (10 * p));
    }
}

/// A number is written with as many digits as it needs and no more; zero is
/// written with one.
pub proof fn law_decimal_length(n: nat)
    ensures
        decimal(n).len() >= 1,
        n < pow(10, decimal(n).len()),
        n > 0 ==> n >= pow(10, (decimal(n).len() - 1) as nat),
        n == 0 ==> decimal(n).len() == 1,
    decreases n,
{
    reveal(pow);
    if n < 10 {
        reveal_with_fuel(pow, 3);
        assert(pow(10, 0) == 1);
        assert(pow(10, 1) == 10);
    } else {
        law_decimal_length(n / 10);
        let len = decimal(n / 10).len();
        assert(decimal(n).len() == len + 1);
        assert(pow(10, len + 1) == 10 * pow(10, len));
        assert(pow(10, len) == 10 * pow(10, (len - 1) as nat));
    }
}

} // verus!
