//! Text as sequences of characters: conversion, comparison and decimal numbers.
use vstd::prelude::*;

verus! {

/// `String::push` appends the one character to the text.
pub assume_specification[ String::push ](s: &mut String, ch: char)
    ensures
        final(s)@ == old(s)@.push(ch),
;

/// The decimal digit for a value below ten.
pub open spec fn decimal_digit(d: nat) -> char {
    (('0' as u32) + d) as char
}

/// `n` written in decimal, without leading zeros.
pub open spec fn decimal(n: nat) -> Seq<char>
    decreases n,
{
    if n < 10 {
        seq![decimal_digit(n)]
    } else {
        decimal(n / 10).push(decimal_digit(n % 10))
    }
}

/// `inner` occurs in `outer` as a run of consecutive characters.
pub open spec fn occurs_in(inner: Seq<char>, outer: Seq<char>) -> bool {
    exists|i: int| #[trigger] occurs_at(inner, outer, i)
}

/// `inner` occurs in `outer` from position `i` on.
pub open spec fn occurs_at(inner: Seq<char>, outer: Seq<char>, i: int) -> bool {
    0 <= i <= outer.len() - inner.len() && outer.subrange(i, i + inner.len()) == inner
}

/// The characters of `s`, in order.
pub fn chars_of(s: &str) -> (res: Vec<char>)
    ensures
        res@ == s@,
{
    let mut res: Vec<char> = Vec::new();
    for c in iter: s.chars()
        invariant
            iter.seq() == s@,
            res@ == s@.take(iter.index() as int),
    {
        res.push(c);
    }
    assert(s@.take(s@.len() as int) == s@);
    res
}

/// The text made of the characters `from..to` of `chars`.
pub fn string_of(chars: &Vec<char>, from: usize, to: usize) -> (res: String)
    requires
        from <= to <= chars@.len(),
    ensures
        res@ == chars@.subrange(from as int, to as int),
{
    let mut res = String::new();
    let mut i: usize = from;
    while i < to
        invariant
            from <= i <= to <= chars@.len(),
            res@ == chars@.subrange(from as int, i as int),
        decreases to - i,
    {
        res.push(chars[i]);
        i = i + 1;
        assert(chars@.subrange(from as int, i as int) == chars@.subrange(
            from as int,
            i - 1,
        ).push(chars@[i - 1]));
    }
    res
}

/// Whether two texts hold the same characters.
pub fn same_text(a: &str, b: &str) -> (res: bool)
    ensures
        res == (a@ == b@),
{
    a.to_owned() == b.to_owned()
}

/// Whether `inner` occurs in `outer` from position `at` on.
fn occurs_from(inner: &Vec<char>, outer: &Vec<char>, at: usize) -> (res: bool)
    requires
        at + inner.len() <= outer.len(),
    ensures
        res == occurs_at(inner@, outer@, at as int),
{
    let mut k: usize = 0;
    while k < inner.len()
        invariant
            k <= inner@.len(),
            at + inner.len() <= outer.len(),
            forall|j: int| 0 <= j < k ==> outer@[at + j] == inner@[j],
        decreases inner@.len() - k,
    {
        if outer[at + k] != inner[k] {
            assert(outer@.subrange(at as int, at + inner@.len())[k as int] != inner@[k as int]);
            return false;
        }
        k = k + 1;
    }
    assert(outer@.subrange(at as int, at + inner@.len()) =~= inner@);
    true
}

/// Whether `inner` occurs anywhere in `outer`; the empty text occurs in every text.
pub fn occurs(inner: &Vec<char>, outer: &Vec<char>) -> (res: bool)
    ensures
        res == occurs_in(inner@, outer@),
{
    if inner.len() > outer.len() {
        return false;
    }
    let mut at: usize = 0;
    while at <= outer.len() - inner.len()
        invariant
            inner@.len() <= outer@.len(),
            at <= outer@.len() - inner@.len() + 1,
            forall|i: int| 0 <= i < at ==> !#[trigger] occurs_at(inner@, outer@, i),
        decreases outer@.len() - inner@.len() + 1 - at,
    {
        if occurs_from(inner, outer, at) {
            return true;
        }
        if at == outer.len() - inner.len() {
            assert(forall|i: int| !#[trigger] occurs_at(inner@, outer@, i));
            return false;
        }
        at = at + 1;
    }
    false
}

/// `n` in decimal.
pub fn decimal_text(n: u128) -> (res: String)
    ensures
        res@ == decimal(n as nat),
    decreases n,
{
    let digit: u8 = (n % 10) as u8;
    let mut res = if n < 10 {
        String::new()
    } else {
        decimal_text(n / 10)
    };
    res.push((48 + digit) as char);
    proof {
        assert(digit == n % 10);
        if n < 10 {
            assert(res@ =~= seq![decimal_digit(n as nat)]);
        } else {
            assert((n / 10) as nat == (n as nat) / 10);
        }
    }
    res
}

/// A text occurs in another exactly if that is made of some text, the first text
/// and some text, whatever their lengths.
pub proof fn law_occurs_in_the_middle(inner: Seq<char>, outer: Seq<char>)
    ensures
        occurs_in(inner, outer) <==> exists|before: Seq<char>, after: Seq<char>|
            outer == #[trigger] (before + inner + after),
{
    if occurs_in(inner, outer) {
        let i = choose|i: int| #[trigger] occurs_at(inner, outer, i);
        let before = outer.take(i);
        let after = outer.skip(i + inner.len());
        assert(outer =~= before + inner + after);
    }
    if exists|before: Seq<char>, after: Seq<char>| outer == #[trigger] (before + inner + after) {
        let (before, after) = choose|before: Seq<char>, after: Seq<char>|
            outer == #[trigger] (before + inner + after);
        let i = before.len() as int;
        assert(outer.subrange(i, i + inner.len()) =~= inner);
        assert(occurs_at(inner, outer, i));
    }
}

/// A number in decimal is its last digit behind the rest of the number, and a
/// number below ten is its digit alone.
pub proof fn law_decimal_appends_the_last_digit(n: nat, d: nat)
    requires
        d < 10,
    ensures
        n > 0 ==> decimal(10 * n + d) == decimal(n).push((48 + d) as char),
        decimal(d) == seq![(48 + d) as char],
{
    assert((10 * n + d) / 10 == n);
    assert((10 * n + d) % 10 == d);
}

/// Different numbers are different in decimal.
pub proof fn law_decimal_tells_the_number(n: nat, m: nat)
    requires
        decimal(n) == decimal(m),
    ensures
        n == m,
    decreases n,
{
    lemma_decimal_is_not_empty(n / 10);
    lemma_decimal_is_not_empty(m / 10);
    assert(decimal(n).last() == decimal_digit(n % 10));
    assert(decimal(m).last() == decimal_digit(m % 10));
    assert(n % 10 == m % 10);
    if n >= 10 && m >= 10 {
        assert(decimal(n).drop_last() =~= decimal(n / 10));
        assert(decimal(m).drop_last() =~= decimal(m / 10));
        law_decimal_tells_the_number(n / 10, m / 10);
    } else if n >= 10 {
        assert(decimal(m).len() == 1);
    } else if m >= 10 {
        assert(decimal(n).len() == 1);
    }
}

proof fn lemma_decimal_is_not_empty(n: nat)
    ensures
        decimal(n).len() > 0,
    decreases n,
{
    if n >= 10 {
        lemma_decimal_is_not_empty(n / 10);
    }
}

} // verus!
