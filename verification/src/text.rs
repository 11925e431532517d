//! Text helpers shared by the renderers: concatenation over a list, decimal
//! numbers, and the two operations on strings that the standard library
//! provides without a specification.

use vstd::prelude::*;

verus! {

/// The texts `f` gives for the items, written one after the other.
pub open spec fn concat_map<T>(items: Seq<T>, f: spec_fn(T) -> Seq<char>) -> Seq<char> {
    items.map_values(f).flatten()
}

/// Nothing is written for an empty list.
pub proof fn lemma_concat_map_empty<T>(f: spec_fn(T) -> Seq<char>)
    ensures
        concat_map(Seq::<T>::empty(), f) == Seq::<char>::empty(),
{
    assert(Seq::<T>::empty().map_values(f) =~= Seq::<Seq<char>>::empty());
}

/// Writing a list extended by one item writes the list and then the item.
pub proof fn lemma_concat_map_push<T>(items: Seq<T>, last: T, f: spec_fn(T) -> Seq<char>)
    ensures
        concat_map(items.push(last), f) == concat_map(items, f) + f(last),
{
    assert(items.push(last).map_values(f) =~= items.map_values(f).push(f(last)));
    items.map_values(f).lemma_flatten_push(f(last));
}

/// Writing the first `n + 1` items writes the first `n` and then the next one.
pub proof fn lemma_concat_map_step<T>(items: Seq<T>, n: int, f: spec_fn(T) -> Seq<char>)
    requires
        0 <= n < items.len(),
    ensures
        concat_map(items.take(n + 1), f) == concat_map(items.take(n), f) + f(items[n]),
{
    assert(items.take(n + 1) =~= items.take(n).push(items[n]));
    lemma_concat_map_push(items.take(n), items[n], f);
}

/// Writing a non-empty list writes its first item and then the others.
pub proof fn lemma_concat_map_first<T>(items: Seq<T>, f: spec_fn(T) -> Seq<char>)
    requires
        items.len() > 0,
    ensures
        concat_map(items, f) == f(items[0]) + concat_map(items.drop_first(), f),
{
    assert(items.map_values(f).drop_first() =~= items.drop_first().map_values(f));
}

/// The character that stands for a decimal digit.
pub open spec fn digit_char(d: nat) -> char {
    if d == 0 {
        '0'
    } else if d == 1 {
        '1'
    } else if d == 2 {
        '2'
    } else if d == 3 {
        '3'
    } else if d == 4 {
        '4'
    } else if d == 5 {
        '5'
    } else if d == 6 {
        '6'
    } else if d == 7 {
        '7'
    } else if d == 8 {
        '8'
    } else {
        '9'
    }
}

/// A number in decimal notation, without sign and without leading zeros.
pub open spec fn decimal(n: nat) -> Seq<char>
    decreases n,
{
    if n < 10 {
        seq![digit_char(n)]
    } else {
        decimal(n / 10).push(digit_char(n % 10))
    }
}

/// The character of one decimal digit.
pub fn digit(d: u32) -> (c: char)
    requires
        d < 10,
    ensures
        c == digit_char(d as nat),
{
    match d {
        0 => '0',
        1 => '1',
        2 => '2',
        3 => '3',
        4 => '4',
        5 => '5',
        6 => '6',
        7 => '7',
        8 => '8',
        _ => '9',
    }
}

/// Appends `n` in decimal notation.
pub fn push_decimal(out: &mut String, n: u32)
    ensures
        final(out)@ == old(out)@ + decimal(n as nat),
    decreases n,
{
    if n >= 10 {
        push_decimal(out, n / 10);
    }
    push_char(out, digit(n % 10));
    proof {
        if n >= 10 {
            assert(final(out)@ =~= old(out)@ + decimal((n / 10) as nat).push(
                digit_char((n % 10) as nat),
            ));
        } else {
            assert(final(out)@ =~= old(out)@ + seq![digit_char(n as nat)]);
        }
    }
}

/// The lowercase form of a text: what [`str::to_lowercase`] returns for it.
/// The mapping follows the Unicode character database and is not restated
/// here; the library only relies on its being a function of the text.
pub uninterp spec fn lowercase(text: Seq<char>) -> Seq<char>;

/// Calls [`str::to_lowercase`]. Trusted: the result is the lowercase form of
/// the argument, which [`lowercase`] names.
#[verifier::external_body]
pub(crate) fn to_lowercase(text: &str) -> (lowered: String)
    ensures
        lowered@ == lowercase(text@),
{
    text.to_lowercase()
}

/// Calls [`String::push`]. Trusted: the character is appended to the end of
/// the string and nothing else changes.
#[verifier::external_body]
pub(crate) fn push_char(text: &mut String, c: char)
    ensures
        final(text)@ == old(text)@.push(c),
{
    text.push(c)
}

} // verus!
