//! Small pieces of text: decimal numerals and the part of a coordinate
//! before its decimal point.

use vstd::prelude::*;

verus! {

/// The character that writes the digit `digit`.
pub open spec fn digit_char(digit: int) -> char {
    if digit == 0 {
        '0'
    } else if digit == 1 {
        '1'
    } else if digit == 2 {
        '2'
    } else if digit == 3 {
        '3'
    } else if digit == 4 {
        '4'
    } else if digit == 5 {
        '5'
    } else if digit == 6 {
        '6'
    } else if digit == 7 {
        '7'
    } else if digit == 8 {
        '8'
    } else {
        '9'
    }
}

/// The decimal numeral of a natural number, without leading zeros.
pub open spec fn natural_text(value: nat) -> Seq<char>
    decreases value,
{
    if value < 10 {
        seq![digit_char(value as int)]
    } else {
        natural_text(value / 10).push(digit_char((value % 10) as int))
    }
}

/// The decimal numeral of an integer: a minus sign before the numeral of
/// the magnitude where the integer is negative.
pub open spec fn decimal_text(value: int) -> Seq<char> {
    if value < 0 {
        seq!['-'] + natural_text((-value) as nat)
    } else {
        natural_text(value as nat)
    }
}

/// How many characters of `text` stand before its first `.`; the whole
/// length where it holds none.
pub open spec fn dot_index(text: Seq<char>) -> nat
    decreases text.len(),
{
    if text.len() == 0 || text[0] == '.' {
        0
    } else {
        1 + dot_index(text.drop_first())
    }
}

/// The part of `text` before its first `.`.
pub open spec fn integer_part_text(text: Seq<char>) -> Seq<char> {
    text.take(dot_index(text) as int)
}

/// `dot_index` is the position of the first `.`: nothing before it is a
/// `.`, and it is either the end of the text or the place of a `.`.
pub proof fn lemma_dot_index(text: Seq<char>)
    ensures
        dot_index(text) <= text.len(),
        forall|i: int| 0 <= i < dot_index(text) ==> text[i] != '.',
        dot_index(text) < text.len() ==> text[dot_index(text) as int] == '.',
    decreases text.len(),
{
    if text.len() == 0 || text[0] == '.' {
    } else {
        let rest = text.drop_first();
        lemma_dot_index(rest);
        assert forall|i: int| 0 <= i < dot_index(text) implies text[i] != '.' by {
            if i > 0 {
                assert(text[i] == rest[i - 1]);
            }
        }
        if dot_index(text) < text.len() {
            assert(text[dot_index(text) as int] == rest[dot_index(rest) as int]);
        }
    }
}

/// A position with no `.` before it, which is the end of the text or holds
/// a `.`, is the text's `dot_index`.
pub proof fn lemma_dot_index_unique(text: Seq<char>, position: int)
    requires
        0 <= position <= text.len(),
        forall|i: int| 0 <= i < position ==> text[i] != '.',
        position < text.len() ==> text[position] == '.',
    ensures
        dot_index(text) == position,
{
    lemma_dot_index(text);
    let found = dot_index(text) as int;
    if found < position {
        assert(text[found] != '.');
    } else if position < found {
        assert(text[position] != '.');
    }
}

/// The integer part holds no `.`, is a prefix of the text, and is the
/// whole text where the text holds no `.`.
pub proof fn lemma_integer_part(text: Seq<char>)
    ensures
        integer_part_text(text).len() <= text.len(),
        integer_part_text(text) == text.take(integer_part_text(text).len() as int),
        forall|i: int|
            0 <= i < integer_part_text(text).len() ==> #[trigger] integer_part_text(text)[i]
                != '.',
        (forall|i: int| 0 <= i < text.len() ==> text[i] != '.') ==> integer_part_text(text)
            == text,
        text.len() == 0 ==> integer_part_text(text).len() == 0,
{
    lemma_dot_index(text);
    if forall|i: int| 0 <= i < text.len() ==> text[i] != '.' {
        assert(dot_index(text) == text.len());
        assert(integer_part_text(text) =~= text);
    }
}

/// The one-character text of a single digit.
fn digit_str(digit: u64) -> (text: &'static str)
    requires
        digit < 10,
    ensures
        text@ == seq![digit_char(digit as int)],
{
    proof {
        reveal_strlit("0");
        reveal_strlit("1");
        reveal_strlit("2");
        reveal_strlit("3");
        reveal_strlit("4");
        reveal_strlit("5");
        reveal_strlit("6");
        reveal_strlit("7");
        reveal_strlit("8");
        reveal_strlit("9");
    }
    let text = if digit == 0 {
        "0"
    } else if digit == 1 {
        "1"
    } else if digit == 2 {
        "2"
    } else if digit == 3 {
        "3"
    } else if digit == 4 {
        "4"
    } else if digit == 5 {
        "5"
    } else if digit == 6 {
        "6"
    } else if digit == 7 {
        "7"
    } else if digit == 8 {
        "8"
    } else {
        "9"
    };
    assert(text@ =~= seq![digit_char(digit as int)]);
    text
}

/// Appends the decimal numeral of `value` to `out`.
pub fn push_natural(out: &mut String, value: u64)
    ensures
        final(out)@ == old(out)@ + natural_text(value as nat),
    decreases value,
{
    if value >= 10 {
        push_natural(out, value / 10);
    }
    out.append(digit_str(value % 10));
    proof {
        if value >= 10 {
            assert(old(out)@ + natural_text(value as nat) =~= (old(out)@ + natural_text(
                (value / 10) as nat,
            )) + seq![digit_char((value % 10) as int)]);
        }
    }
}

/// Appends the decimal numeral of `value` to `out`.
pub fn push_decimal(out: &mut String, value: i64)
    ensures
        final(out)@ == old(out)@ + decimal_text(value as int),
{
    if value < 0 {
        proof {
            reveal_strlit("-");
        }
        out.append("-");
        let magnitude: u64 = (-(value as i128)) as u64;
        push_natural(out, magnitude);
        assert(old(out)@ + "-"@ + natural_text(magnitude as nat) =~= old(out)@ + decimal_text(
            value as int,
        ));
    } else {
        push_natural(out, value as u64);
    }
}

/// The part of `text` before its first `.`: the whole text where it holds
/// none, and nothing where the text is empty or begins with one.
pub fn integer_part(text: &str) -> (part: String)
    ensures
        part@ == integer_part_text(text@),
{
    let length = text.unicode_len();
    let mut position: usize = 0;
    while position < length && text.get_char(position) != '.'
        invariant
            position <= length,
            length == text@.len(),
            forall|i: int| 0 <= i < position ==> text@[i] != '.',
        decreases length - position,
    {
        position += 1;
    }
    proof {
        lemma_dot_index_unique(text@, position as int);
    }
    text.substring_char(0, position).to_owned()
}

} // verus!
