//! Text helpers for the pages: token substitution and decimal numbers.

use vstd::prelude::*;
use vstd::string::*;
use vstd::std_specs::iter::IteratorSpec;

verus! {

/// `String::push` appends one character to the end of the string.
pub assume_specification[ String::push ](s: &mut String, c: char)
    ensures
        final(s)@ == old(s)@.push(c),
;

/// `text` begins with `token`.
pub open spec fn starts_with(text: Seq<char>, token: Seq<char>) -> bool {
    token.len() <= text.len() && text.subrange(0, token.len() as int) == token
}

/// `text` with every occurrence of `token` replaced by `value`. Occurrences
/// are found from the left and do not overlap; what was put in is not searched
/// again. An empty token occurs nowhere.
pub open spec fn replace_all(text: Seq<char>, token: Seq<char>, value: Seq<char>) -> Seq<char>
    decreases text.len(),
{
    if token.len() == 0 || text.len() == 0 {
        text
    } else if starts_with(text, token) {
        value + replace_all(text.skip(token.len() as int), token, value)
    } else {
        seq![text[0]] + replace_all(text.skip(1), token, value)
    }
}

/// The character for a single decimal digit.
pub open spec fn digit_char(digit: nat) -> char
    recommends
        digit < 10,
{
    if digit == 0 {
        '0'
    } else if digit == 1 {
        '1'
    } else if digit == 2 {
        '2'
    } else if digit == 3 {
        '3'
    } else if digit == 4 {
        '4'
    } else if digit == 5 {
        '5'
    } else if digit == 6 {
        '6'
    } else if digit == 7 {
        '7'
    } else if digit == 8 {
        '8'
    } else {
        '9'
    }
}

/// `number` written in decimal, without sign or leading zeros.
pub open spec fn decimal_text(number: nat) -> Seq<char>
    decreases number,
{
    if number < 10 {
        seq![digit_char(number)]
    } else {
        decimal_text(number / 10).push(digit_char(number % 10))
    }
}

/// The characters of `s`, in order.
pub fn to_chars(s: &str) -> (chars: Vec<char>)
    ensures
        chars@ == s@,
{
    broadcast use {axiom_spec_iter, next_postcondition};

    let mut chars: Vec<char> = Vec::new();
    let mut rest = s.chars();
    loop
        invariant
            chars@ + rest.remaining() == s@,
            rest.decrease() is Some,
        ensures
            chars@ == s@,
        decreases rest.decrease()->0,
    {
        match rest.next() {
            Some(c) => {
                chars.push(c);
            },
            None => {
                break ;
            },
        }
    }
    chars
}

/// Whether `token` stands in `text` at position `at`.
pub fn starts_at(text: &Vec<char>, at: usize, token: &Vec<char>) -> (found: bool)
    requires
        at <= text.len(),
    ensures
        found == starts_with(text@.skip(at as int), token@),
{
    let rest = text.len() - at;
    if token.len() > rest {
        return false;
    }
    let mut j: usize = 0;
    while j < token.len()
        invariant
            at <= text.len(),
            token.len() <= text.len() - at,
            j <= token.len(),
            forall|m: int| 0 <= m < j ==> text@[at + m] == token@[m],
        decreases token.len() - j,
    {
        if text[at + j] != token[j] {
            assert(text@.skip(at as int).subrange(0, token@.len() as int)[j as int]
                != token@[j as int]);
            return false;
        }
        j += 1;
    }
    assert(text@.skip(at as int).subrange(0, token@.len() as int) =~= token@);
    true
}

/// Replaces every occurrence of `token` in `text` by `value`.
pub fn substitute(text: &str, token: &str, value: &str) -> (out: String)
    ensures
        out@ == replace_all(text@, token@, value@),
{
    let source = to_chars(text);
    let wanted = to_chars(token);
    let mut out = String::new();
    let mut at: usize = 0;
    assert(source@.skip(0) =~= source@);
    assert(out@ + replace_all(source@, wanted@, value@) =~= replace_all(source@, wanted@, value@));
    while at < source.len()
        invariant
            at <= source.len(),
            source@ == text@,
            wanted@ == token@,
            out@ + replace_all(source@.skip(at as int), wanted@, value@) == replace_all(
                source@,
                wanted@,
                value@,
            ),
        decreases source.len() - at,
    {
        let ghost rest = source@.skip(at as int);
        if wanted.len() > 0 && starts_at(&source, at, &wanted) {
            assert(rest.skip(wanted@.len() as int) =~= source@.skip(at + wanted@.len()));
            assert(out@ + (value@ + replace_all(rest.skip(wanted@.len() as int), wanted@, value@))
                =~= (out@ + value@) + replace_all(
                rest.skip(wanted@.len() as int),
                wanted@,
                value@,
            ));
            out.append(value);
            at += wanted.len();
        } else {
            let c = source[at];
            assert(rest.skip(1) =~= source@.skip(at + 1));
            assert(wanted@.len() > 0 ==> out@ + (seq![rest[0]] + replace_all(
                rest.skip(1),
                wanted@,
                value@,
            )) =~= out@.push(c) + replace_all(rest.skip(1), wanted@, value@));
            assert(wanted@.len() == 0 ==> out@ + rest =~= out@.push(c) + rest.skip(1));
            out.push(c);
            at += 1;
        }
    }
    assert(source@.skip(at as int) =~= Seq::<char>::empty());
    assert(out@ + Seq::<char>::empty() =~= out@);
    out
}

/// The character for the decimal digit `value`.
pub fn digit(value: u8) -> (c: char)
    requires
        value < 10,
    ensures
        c == digit_char(value as nat),
{
    if value == 0 {
        '0'
    } else if value == 1 {
        '1'
    } else if value == 2 {
        '2'
    } else if value == 3 {
        '3'
    } else if value == 4 {
        '4'
    } else if value == 5 {
        '5'
    } else if value == 6 {
        '6'
    } else if value == 7 {
        '7'
    } else if value == 8 {
        '8'
    } else {
        '9'
    }
}

/// Appends `number` in decimal to `out`.
pub fn push_decimal(out: &mut String, number: u64)
    ensures
        final(out)@ == old(out)@ + decimal_text(number as nat),
    decreases number,
{
    if number >= 10 {
        push_decimal(out, number / 10);
    }
    let last: u8 = (number % 10) as u8;
    out.push(digit(last));
    assert(final(out)@ =~= old(out)@ + decimal_text(number as nat));
}

/// `number` written in decimal.
pub fn decimal(number: u64) -> (text: String)
    ensures
        text@ == decimal_text(number as nat),
{
    let mut text = String::new();
    push_decimal(&mut text, number);
    assert(Seq::<char>::empty() + decimal_text(number as nat) =~= decimal_text(number as nat));
    text
}

/// `token` stands somewhere in `text`.
pub open spec fn occurs_in(token: Seq<char>, text: Seq<char>) -> bool {
    exists|at: int| 0 <= at <= text.len() && #[trigger] starts_with(text.skip(at), token)
}

/// `c` is nowhere in `text`.
pub open spec fn lacks(text: Seq<char>, c: char) -> bool {
    forall|i: int| 0 <= i < text.len() ==> text[i] != c
}

/// A text that lacks the first character of a token holds no occurrence of it.
pub proof fn token_needs_its_first_character(text: Seq<char>, token: Seq<char>)
    requires
        token.len() > 0,
        lacks(text, token[0]),
    ensures
        !occurs_in(token, text),
{
    assert forall|at: int| 0 <= at <= text.len() implies !#[trigger] starts_with(
        text.skip(at),
        token,
    ) by {
        if token.len() <= text.skip(at).len() {
            assert(text.skip(at).subrange(0, token.len() as int)[0] == text[at]);
        }
    }
}

/// Substitution leaves a text alone that lacks the token's first character.
pub proof fn replace_all_without_token(text: Seq<char>, token: Seq<char>, value: Seq<char>)
    requires
        token.len() > 0,
        lacks(text, token[0]),
    ensures
        replace_all(text, token, value) == text,
    decreases text.len(),
{
    if text.len() > 0 {
        if token.len() <= text.len() {
            assert(text.subrange(0, token.len() as int)[0] == text[0]);
        }
        assert(!starts_with(text, token));
        replace_all_without_token(text.skip(1), token, value);
        assert(seq![text[0]] + text.skip(1) =~= text);
    }
}

/// Substitution leaves a text alone in which the token does not occur.
pub proof fn replace_all_without_occurrence(text: Seq<char>, token: Seq<char>, value: Seq<char>)
    requires
        !occurs_in(token, text),
    ensures
        replace_all(text, token, value) == text,
    decreases text.len(),
{
    if token.len() > 0 && text.len() > 0 {
        assert(text.skip(0) =~= text);
        assert(!starts_with(text.skip(0), token));
        assert forall|at: int| 0 <= at <= text.skip(1).len() implies !#[trigger] starts_with(
            text.skip(1).skip(at),
            token,
        ) by {
            assert(text.skip(1).skip(at) =~= text.skip(at + 1));
            assert(!starts_with(text.skip(at + 1), token));
        }
        replace_all_without_occurrence(text.skip(1), token, value);
        assert(seq![text[0]] + text.skip(1) =~= text);
    }
}

/// Substitution in a text whose first occurrence of the token comes after a
/// part that lacks the token's first character: that part stays, the value
/// follows it, and the rest is substituted in turn.
pub proof fn replace_all_at_first_token(
    before: Seq<char>,
    after: Seq<char>,
    token: Seq<char>,
    value: Seq<char>,
)
    requires
        token.len() > 0,
        lacks(before, token[0]),
    ensures
        replace_all(before + token + after, token, value) == before + value + replace_all(
            after,
            token,
            value,
        ),
    decreases before.len(),
{
    let text = before + token + after;
    if before.len() == 0 {
        assert(text.subrange(0, token.len() as int) =~= token);
        assert(text.skip(token.len() as int) =~= after);
        assert(before + value + replace_all(after, token, value) =~= value + replace_all(
            after,
            token,
            value,
        ));
    } else {
        if token.len() <= text.len() {
            assert(text.subrange(0, token.len() as int)[0] == before[0]);
        }
        assert(!starts_with(text, token));
        assert(text.skip(1) =~= before.skip(1) + token + after);
        replace_all_at_first_token(before.skip(1), after, token, value);
        assert(seq![text[0]] + (before.skip(1) + value + replace_all(after, token, value))
            =~= before + value + replace_all(after, token, value));
    }
}

/// A decimal number is made of the ten digits and of nothing else.
pub proof fn decimal_text_is_digits(number: nat)
    ensures
        decimal_text(number).len() > 0,
        forall|i: int|
            0 <= i < decimal_text(number).len() ==> '0' <= #[trigger] decimal_text(number)[i]
                <= '9',
    decreases number,
{
    if number >= 10 {
        decimal_text_is_digits(number / 10);
    }
}

} // verus!
