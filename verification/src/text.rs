//! Building blocks for generated text: decimal numerals and comparisons.

use vstd::prelude::*;

verus! {

/// The character that writes the digit `d`, for `d` from 0 to 9.
pub open spec fn digit_char(d: nat) -> char {
    if d == 0 {
        '0'
    } else if d == 1 {
        '1'
    } else if d == 2 {
        '2'
    } else if d == 3 {
        '3'
    } else if d == 4 {
        '4'
    } else if d == 5 {
        '5'
    } else if d == 6 {
        '6'
    } else if d == 7 {
        '7'
    } else if d == 8 {
        '8'
    } else {
        '9'
    }
}

/// The digit that `c` writes; 0 for a character that is no digit.
pub open spec fn digit_value(c: char) -> nat {
    if c == '1' {
        1
    } else if c == '2' {
        2
    } else if c == '3' {
        3
    } else if c == '4' {
        4
    } else if c == '5' {
        5
    } else if c == '6' {
        6
    } else if c == '7' {
        7
    } else if c == '8' {
        8
    } else if c == '9' {
        9
    } else {
        0
    }
}

/// Decimal notation of `n`: most significant digit first, no leading zero.
pub open spec fn decimal(n: nat) -> Seq<char>
    decreases n,
{
    if n < 10 {
        seq![digit_char(n)]
    } else {
        decimal(n / 10) + seq![digit_char(n % 10)]
    }
}

/// The number that a sequence of digits denotes.
pub open spec fn decimal_value(digits: Seq<char>) -> nat
    decreases digits.len(),
{
    if digits.len() == 0 {
        0
    } else {
        decimal_value(digits.drop_last()) * 10 + digit_value(digits.last())
    }
}

/// Reading a numeral back gives the number it was written from.
pub proof fn lemma_decimal_value(n: nat)
    ensures
        decimal_value(decimal(n)) == n,
        decimal(n).len() >= 1,
    decreases n,
{
    if n < 10 {
        let s = decimal(n);
        assert(s.len() == 1);
        assert(s.last() == digit_char(n));
        assert(s.drop_last().len() == 0);
        assert(decimal_value(s.drop_last()) == 0);
    } else {
        lemma_decimal_value(n / 10);
        let s = decimal(n);
        let head = decimal(n / 10);
        assert(s.last() == digit_char(n % 10));
        assert(s.drop_last() =~= head);
    }
}

/// Two numbers with the same numeral are the same number.
pub proof fn lemma_decimal_injective(a: nat, b: nat)
    requires
        decimal(a) == decimal(b),
    ensures
        a == b,
{
    lemma_decimal_value(a);
    lemma_decimal_value(b);
}

/// The one-character text of a digit.
fn digit_text(d: usize) -> (r: &'static str)
    requires
        d < 10,
    ensures
        r@ == seq![digit_char(d as nat)],
{
    proof {
        reveal_strlit("0");
        reveal_strlit("1");
        reveal_strlit("2");
        reveal_strlit("3");
        reveal_strlit("4");
        reveal_strlit("5");
        reveal_strlit("6");
        reveal_strlit("7");
        reveal_strlit("8");
        reveal_strlit("9");
    }
    let r = if d == 0 {
        "0"
    } else if d == 1 {
        "1"
    } else if d == 2 {
        "2"
    } else if d == 3 {
        "3"
    } else if d == 4 {
        "4"
    } else if d == 5 {
        "5"
    } else if d == 6 {
        "6"
    } else if d == 7 {
        "7"
    } else if d == 8 {
        "8"
    } else {
        "9"
    };
    assert(r@ =~= seq![digit_char(d as nat)]);
    r
}

/// Appends the decimal notation of `n` to `out`.
pub fn push_decimal(out: &mut String, n: usize)
    ensures
        final(out)@ == old(out)@ + decimal(n as nat),
    decreases n,
{
    if n >= 10 {
        push_decimal(out, n / 10);
    }
    let d: usize = n % 10;
    out.append(digit_text(d));
    assert(out@ =~= old(out)@ + decimal(n as nat));
}

/// `word` if `present`, else nothing.
pub open spec fn word_if(present: bool, word: Seq<char>) -> Seq<char> {
    if present {
        word
    } else {
        Seq::empty()
    }
}

/// `text` followed by a space, or nothing if `text` is empty.
pub open spec fn spaced(text: Seq<char>) -> Seq<char> {
    word_if(text.len() > 0, text + " "@)
}

/// Appends `text` and a space, or nothing if `text` is empty.
pub fn push_spaced(out: &mut String, text: &str)
    ensures
        final(out)@ == old(out)@ + spaced(text@),
{
    if text.unicode_len() > 0 {
        out.append(text);
        out.append(" ");
    }
    assert(out@ =~= old(out)@ + spaced(text@));
}

/// A space and `text`, or nothing if `text` is empty.
pub open spec fn led(text: Seq<char>) -> Seq<char> {
    word_if(text.len() > 0, " "@ + text)
}

/// Appends a space and `text`, or nothing if `text` is empty.
pub fn push_led(out: &mut String, text: &str)
    ensures
        final(out)@ == old(out)@ + led(text@),
{
    if text.unicode_len() > 0 {
        out.append(" ");
        out.append(text);
    }
    assert(out@ =~= old(out)@ + led(text@));
}

/// Whether `text` reads exactly as `word`.
pub fn reads_as(text: &String, word: &str) -> (r: bool)
    ensures
        r == (text@ == word@),
{
    let other = String::from_str(word);
    *text == other
}

/// The first `upto` of `parts`, each followed by a space.
pub open spec fn spaced_parts(parts: Seq<Seq<char>>, upto: nat) -> Seq<char>
    decreases upto,
{
    if upto == 0 {
        Seq::empty()
    } else {
        spaced_parts(parts, (upto - 1) as nat) + parts[upto - 1] + " "@
    }
}

/// Joins texts, each followed by a space.
pub fn join_spaced(parts: &Vec<String>) -> (r: String)
    ensures
        r@ == spaced_parts(parts.deep_view(), parts.len() as nat),
{
    let mut out = String::new();
    let n = parts.len();
    let mut i: usize = 0;
    assert(out@ =~= spaced_parts(parts.deep_view(), 0));
    while i < n
        invariant
            n == parts.len(),
            i <= n,
            out@ == spaced_parts(parts.deep_view(), i as nat),
        decreases n - i,
    {
        assert(parts.deep_view()[i as int] == parts@[i as int]@);
        out.append(parts[i].as_str());
        out.append(" ");
        i = i + 1;
    }
    out
}

} // verus!
