use vstd::prelude::*;

use rand::seq::{IndexedRandom, SliceRandom};

use crate::error::TextError;

verus! {

/// Whether `c` is a decimal digit.
pub open spec fn is_number(c: u32) -> bool {
    48 <= c <= 57
}

/// Whether `c` is a lowercase ASCII letter.
pub open spec fn is_lower(c: u32) -> bool {
    97 <= c <= 122
}

/// Whether `c` is an uppercase ASCII letter.
pub open spec fn is_upper(c: u32) -> bool {
    65 <= c <= 90
}

/// Whether `c` is one of the symbols `!@#$%^&*`.
pub open spec fn is_symbol(c: u32) -> bool {
    c == 33 || c == 64 || c == 35 || c == 36 || c == 37 || c == 94 || c == 38 || c == 42
}

/// Whether `c` belongs to one of the selected character classes.
pub open spec fn in_selected(c: u32, number: bool, lower: bool, upper: bool, symbol: bool) -> bool {
    (number && is_number(c)) || (lower && is_lower(c)) || (upper && is_upper(c)) || (symbol
        && is_symbol(c))
}

/// How many character classes are selected.
pub open spec fn selected_count(number: bool, lower: bool, upper: bool, symbol: bool) -> nat {
    (if number { 1nat } else { 0 }) + (if lower { 1nat } else { 0 })
        + (if upper { 1nat } else { 0 }) + (if symbol { 1nat } else { 0 })
}

/// Relies on rand's `IndexedRandom::choose` with the thread-local generator:
/// one element of a non-empty slice.
#[verifier::external_body]
fn pick(chars: &[u8]) -> (r: u8)
    requires
        chars@.len() > 0,
    ensures
        chars@.contains(r),
{
    *chars.choose(&mut rand::rng()).unwrap()
}

/// Relies on rand's `SliceRandom::shuffle` with the thread-local generator,
/// which only permutes the elements.
#[verifier::external_body]
fn shuffle(v: &mut Vec<u8>)
    ensures
        final(v)@.to_multiset() == old(v)@.to_multiset(),
{
    v.shuffle(&mut rand::rng())
}

/// Relies on `String::from_utf8`, which keeps ASCII bytes as the characters
/// with the same codes.
#[verifier::external_body]
fn ascii_string(bytes: Vec<u8>) -> (r: String)
    requires
        forall|i: int| 0 <= i < bytes@.len() ==> bytes@[i] < 128,
    ensures
        r@.len() == bytes@.len(),
        forall|i: int| 0 <= i < bytes@.len() ==> r@[i] as u32 == bytes@[i] as u32,
{
    String::from_utf8(bytes).unwrap()
}

/// Appends the bytes `from..=to` to `chars`.
fn push_range(chars: &mut Vec<u8>, from: u8, to: u8)
    requires
        from <= to,
    ensures
        final(chars)@.len() == old(chars)@.len() + (to - from + 1),
        forall|i: int| 0 <= i < old(chars)@.len() ==> final(chars)@[i] == old(chars)@[i],
        forall|i: int|
            old(chars)@.len() <= i < final(chars)@.len()
                ==> from <= #[trigger] final(chars)@[i] <= to,
{
    let ghost start = chars@.len();
    let mut c: u16 = from as u16;
    while c <= to as u16
        invariant
            from <= c <= to + 1,
            chars@.len() == start + (c - from),
            forall|i: int| 0 <= i < start ==> chars@[i] == old(chars)@[i],
            forall|i: int| start <= i < chars@.len() ==> from <= #[trigger] chars@[i] < c,
        decreases to + 1 - c,
    {
        chars.push(c as u8);
        c += 1;
    }
}

/// Whether every byte of `s` belongs to one of the selected classes.
pub open spec fn all_selected(
    s: Seq<u8>,
    number: bool,
    lower: bool,
    upper: bool,
    symbol: bool,
) -> bool {
    forall|i: int|
        0 <= i < s.len() ==> in_selected(#[trigger] s[i] as u32, number, lower, upper, symbol)
}

/// Appends the symbols `!@#$%^&*` to `chars`.
fn push_symbols(chars: &mut Vec<u8>)
    ensures
        final(chars)@ == old(chars)@ + seq![33u8, 64, 35, 36, 37, 94, 38, 42],
{
    chars.push(33);
    chars.push(64);
    chars.push(35);
    chars.push(36);
    chars.push(37);
    chars.push(94);
    chars.push(38);
    chars.push(42);
    assert(chars@ =~= old(chars)@ + seq![33u8, 64, 35, 36, 37, 94, 38, 42]);
}

/// Generates a random password of `length` characters drawn from the
/// selected classes: digits, lowercase letters, uppercase letters and the
/// symbols `!@#$%^&*`. One character is drawn as each class joins the pool,
/// the rest from the whole pool, and the result is shuffled.
pub fn process_gen_pass(
    length: u8,
    number: bool,
    lower: bool,
    upper: bool,
    symbol: bool,
) -> (r: Result<String, TextError>)
    requires
        number || lower || upper || symbol,
        selected_count(number, lower, upper, symbol) <= length,
    ensures
        r matches Ok(p) && p@.len() == length && forall|i: int| 0 <= i < p@.len()
            ==> in_selected(#[trigger] p@[i] as u32, number, lower, upper, symbol),
{
    broadcast use vstd::seq_lib::group_to_multiset_ensures;

    let mut chars: Vec<u8> = Vec::new();
    let mut result: Vec<u8> = Vec::new();
    if number {
        push_range(&mut chars, 48, 57);
        let c = pick(chars.as_slice());
        result.push(c);
    }
    if lower {
        push_range(&mut chars, 97, 122);
        let c = pick(chars.as_slice());
        result.push(c);
    }
    if upper {
        push_range(&mut chars, 65, 90);
        let c = pick(chars.as_slice());
        result.push(c);
    }
    if symbol {
        push_symbols(&mut chars);
        let c = pick(chars.as_slice());
        result.push(c);
    }
    assert(result@.len() == selected_count(number, lower, upper, symbol));
    while result.len() < length as usize
        invariant
            chars@.len() > 0,
            result@.len() <= length,
            all_selected(chars@, number, lower, upper, symbol),
            all_selected(result@, number, lower, upper, symbol),
        decreases length - result@.len(),
    {
        let c = pick(chars.as_slice());
        result.push(c);
    }
    let ghost before = result@;
    shuffle(&mut result);
    assert forall|i: int| 0 <= i < result@.len() implies in_selected(
        #[trigger] result@[i] as u32,
        number,
        lower,
        upper,
        symbol,
    ) && result@[i] < 128 by {
        assert(result@.contains(result@[i]));
        assert(before.to_multiset().count(result@[i]) > 0);
        assert(before.contains(result@[i]));
    }
    assert(result@.len() == before.len()) by {
        assert(result@.to_multiset().len() == before.to_multiset().len());
    }
    let password = ascii_string(result);
    assert forall|i: int| 0 <= i < password@.len() implies in_selected(
        #[trigger] password@[i] as u32,
        number,
        lower,
        upper,
        symbol,
    ) by {
        assert(result@[i] as u32 == password@[i] as u32);
    }
    Ok(password)
}

/// How strong a password of zxcvbn score `score` is, on the scale 0 to 4.
pub fn strength_label(score: u8) -> (r: &'static str)
    ensures
        score <= 2 ==> r@ == "Weak password"@,
        score == 3 ==> r@ == "Medium password"@,
        score >= 4 ==> r@ == "Strong password"@,
{
    if score <= 2 {
        "Weak password"
    } else if score == 3 {
        "Medium password"
    } else {
        "Strong password"
    }
}

} // verus!
