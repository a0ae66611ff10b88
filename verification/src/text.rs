//! Text helpers: equality of string slices and decimal rendering of integers.

use vstd::prelude::*;
use vstd::utf8::*;

verus! {

/// The character that writes the decimal digit `d`.
pub open spec fn digit_char(d: int) -> char {
    if d == 0 {
        '0'
    } else if d == 1 {
        '1'
    } else if d == 2 {
        '2'
    } else if d == 3 {
        '3'
    } else if d == 4 {
        '4'
    } else if d == 5 {
        '5'
    } else if d == 6 {
        '6'
    } else if d == 7 {
        '7'
    } else if d == 8 {
        '8'
    } else {
        '9'
    }
}

/// The decimal digits of a natural number, most significant first, without
/// leading zeros (zero itself is written `0`).
pub open spec fn decimal_digits(n: nat) -> Seq<char>
    decreases n,
{
    if n < 10 {
        seq![digit_char(n as int)]
    } else {
        decimal_digits(n / 10).push(digit_char((n % 10) as int))
    }
}

/// An integer in base 10: a minus sign for a negative number, followed by
/// the digits of its magnitude.
pub open spec fn decimal_text(n: int) -> Seq<char> {
    if n < 0 {
        seq!['-'] + decimal_digits((-n) as nat)
    } else {
        decimal_digits(n as nat)
    }
}

proof fn lemma_digits_begin_with_a_digit(n: nat)
    ensures
        decimal_digits(n).len() > 0,
        decimal_digits(n)[0] != '-',
    decreases n,
{
    if n >= 10 {
        lemma_digits_begin_with_a_digit(n / 10);
    }
}

/// The text of an integer begins with a minus sign exactly when the
/// integer is negative.
pub proof fn lemma_decimal_sign(n: int)
    ensures
        decimal_text(n).len() > 0,
        decimal_text(n)[0] == '-' <==> n < 0,
{
    if n < 0 {
        lemma_digits_begin_with_a_digit((-n) as nat);
    } else {
        lemma_digits_begin_with_a_digit(n as nat);
    }
}

/// Whether two string slices hold the same characters.
pub fn same_text(a: &str, b: &str) -> (same: bool)
    ensures
        same == (a@ == b@),
{
    let x = a.as_bytes();
    let y = b.as_bytes();
    proof {
        encode_utf8_decode_utf8(a@);
        encode_utf8_decode_utf8(b@);
    }
    if x.len() != y.len() {
        return false;
    }
    let mut i: usize = 0;
    while i < x.len()
        invariant
            i <= x.len(),
            x.len() == y.len(),
            forall|j: int| 0 <= j < i ==> x@[j] == y@[j],
            x@ == encode_utf8(a@),
            y@ == encode_utf8(b@),
            decode_utf8(encode_utf8(a@)) == a@,
            decode_utf8(encode_utf8(b@)) == b@,
        decreases x.len() - i,
    {
        if x[i] != y[i] {
            return false;
        }
        i += 1;
    }
    assert(x@ =~= y@);
    true
}

/// Copies the texts in the places from `from` up to, not including, `to`.
pub fn copy_texts(texts: &Vec<String>, from: usize, to: usize) -> (copy: Vec<String>)
    requires
        from <= to <= texts@.len(),
    ensures
        copy.deep_view() == texts.deep_view().subrange(from as int, to as int),
{
    let mut copy: Vec<String> = Vec::new();
    let mut i: usize = from;
    assert(copy.deep_view() =~= texts.deep_view().subrange(from as int, i as int));
    while i < to
        invariant
            from <= i <= to <= texts@.len(),
            copy.deep_view() == texts.deep_view().subrange(from as int, i as int),
        decreases to - i,
    {
        let ghost before = copy.deep_view();
        copy.push(texts[i].clone());
        assert(copy.deep_view() =~= before.push(texts.deep_view()[i as int]));
        i += 1;
        assert(copy.deep_view() =~= texts.deep_view().subrange(from as int, i as int));
    }
    copy
}

fn digit_text(d: u8) -> (text: &'static str)
    requires
        d < 10,
    ensures
        text@ == seq![digit_char(d as int)],
{
    proof {
        reveal_strlit("0");
        reveal_strlit("1");
        reveal_strlit("2");
        reveal_strlit("3");
        reveal_strlit("4");
        reveal_strlit("5");
        reveal_strlit("6");
        reveal_strlit("7");
        reveal_strlit("8");
        reveal_strlit("9");
    }
    let text = if d == 0 {
        "0"
    } else if d == 1 {
        "1"
    } else if d == 2 {
        "2"
    } else if d == 3 {
        "3"
    } else if d == 4 {
        "4"
    } else if d == 5 {
        "5"
    } else if d == 6 {
        "6"
    } else if d == 7 {
        "7"
    } else if d == 8 {
        "8"
    } else {
        "9"
    };
    assert(text@ =~= seq![digit_char(d as int)]);
    text
}

fn render_digits(n: u128) -> (text: String)
    ensures
        text@ == decimal_digits(n as nat),
    decreases n,
{
    if n < 10 {
        digit_text(n as u8).to_owned()
    } else {
        let mut text = render_digits(n / 10);
        text.append(digit_text((n % 10) as u8));
        assert(text@ =~= decimal_digits((n / 10) as nat).push(digit_char((n % 10) as int)));
        text
    }
}

/// Writes an integer in base 10.
pub fn render_decimal(n: i128) -> (text: String)
    ensures
        text@ == decimal_text(n as int),
{
    if n < 0 {
        let magnitude: u128 = (-(n + 1)) as u128 + 1;
        let mut text = "-".to_owned();
        let digits = render_digits(magnitude);
        text.append(digits.as_str());
        proof {
            reveal_strlit("-");
            assert(text@ =~= seq!['-'] + decimal_digits((-n) as nat));
        }
        text
    } else {
        render_digits(n as u128)
    }
}

} // verus!
