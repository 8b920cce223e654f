//! Numbers as text: hexadecimal masks and decimal list indices in request
//! parameters, and numbers with decimals.
use vstd::prelude::*;

use crate::encoding::hex_value;
use crate::text::{chars_of, decimal, decimal_digit};

verus! {

/// The value of `c` as a digit in `radix` (at most 16), if it is one. Letters
/// count in either case.
pub open spec fn digit_value(c: char, radix: nat) -> Option<nat> {
    let v: int = if '0' <= c <= '9' {
        c as u32 - '0' as u32
    } else if 'a' <= c <= 'f' {
        c as u32 - 'a' as u32 + 10
    } else if 'A' <= c <= 'F' {
        c as u32 - 'A' as u32 + 10
    } else {
        99
    };
    if v < radix {
        Some(v as nat)
    } else {
        None
    }
}

/// All of `s` are digits in `radix`.
pub open spec fn all_digits(s: Seq<char>, radix: nat) -> bool {
    forall|i: int| 0 <= i < s.len() ==> digit_value(#[trigger] s[i], radix) is Some
}

/// The number that the digits `s` denote, most significant digit first.
pub open spec fn positional(s: Seq<char>, radix: nat) -> nat
    decreases s.len(),
{
    if s.len() == 0 {
        0
    } else {
        positional(s.drop_last(), radix) * radix + digit_value(s.last(), radix).unwrap_or(0)
    }
}

/// `s` without one leading plus sign.
pub open spec fn without_plus(s: Seq<char>) -> Seq<char> {
    if s.len() > 0 && s[0] == '+' {
        s.skip(1)
    } else {
        s
    }
}

/// The number that `s` denotes in `radix`: digits, at least one, after an
/// optional plus sign, with a value of at most `max`.
pub open spec fn number(s: Seq<char>, radix: nat, max: nat) -> Option<nat> {
    let digits = without_plus(s);
    if digits.len() > 0 && all_digits(digits, radix) && positional(digits, radix) <= max {
        Some(positional(digits, radix))
    } else {
        None
    }
}

/// `s` after as many leading `0x` as it has.
pub open spec fn without_hex_prefixes(s: Seq<char>) -> Seq<char>
    decreases s.len(),
{
    if s.len() >= 2 && s[0] == '0' && s[1] == 'x' {
        without_hex_prefixes(s.skip(2))
    } else {
        s
    }
}

/// The PCR mask that a request parameter denotes: a hexadecimal 32-bit number,
/// with any number of `0x` in front.
pub open spec fn mask_value(s: Seq<char>) -> Option<nat> {
    number(without_hex_prefixes(s), 16, u32::MAX as nat)
}

/// The first entry of the measurement list that a request asks for: the decimal
/// 64-bit number given, and 0 where none is given or it denotes none.
pub open spec fn first_entry(s: Option<Seq<char>>) -> nat {
    match s {
        Some(s) => match number(s, 10, u64::MAX as nat) {
            Some(n) => n,
            None => 0,
        },
        None => 0,
    }
}

/// Digits in front can only make a number larger.
proof fn lemma_positional_grows(s: Seq<char>, k: int, radix: nat)
    requires
        0 <= k <= s.len(),
        radix >= 1,
    ensures
        positional(s.take(k), radix) <= positional(s, radix),
    decreases s.len() - k,
{
    if k == s.len() {
        assert(s.take(k) =~= s);
    } else {
        lemma_positional_grows(s, k + 1, radix);
        assert(s.take(k + 1).drop_last() =~= s.take(k));
        let p = positional(s.take(k), radix);
        assert(p <= p * radix) by (nonlinear_arith)
            requires
                radix >= 1,
        ;
    }
}

/// The value of `c` as a digit in `radix`, if it is one.
fn digit(c: char, radix: u32) -> (res: Option<u32>)
    requires
        2 <= radix <= 16,
    ensures
        match res {
            Some(v) => digit_value(c, radix as nat) == Some(v as nat),
            None => digit_value(c, radix as nat) is None,
        },
{
    let v: u32 = if '0' <= c && c <= '9' {
        c as u32 - '0' as u32
    } else if 'a' <= c && c <= 'f' {
        c as u32 - 'a' as u32 + 10
    } else if 'A' <= c && c <= 'F' {
        c as u32 - 'A' as u32 + 10
    } else {
        99
    };
    if v < radix {
        Some(v)
    } else {
        None
    }
}

/// The number that the characters from `start` on denote.
fn number_from(chars: &Vec<char>, start: usize, radix: u32, max: u64) -> (res: Option<u64>)
    requires
        start <= chars@.len(),
        2 <= radix <= 16,
    ensures
        match res {
            Some(v) => number(chars@.skip(start as int), radix as nat, max as nat) == Some(
                v as nat,
            ),
            None => number(chars@.skip(start as int), radix as nat, max as nat) is None,
        },
{
    let first: usize = if start < chars.len() && chars[start] == '+' {
        start + 1
    } else {
        start
    };
    let ghost digits = chars@.skip(first as int);
    assert(digits == without_plus(chars@.skip(start as int))) by {
        if start < chars@.len() {
            assert(chars@.skip(start as int).skip(1) =~= chars@.skip(start + 1));
        }
    }
    if first == chars.len() {
        return None;
    }
    let mut value: u64 = 0;
    let mut i: usize = first;
    while i < chars.len()
        invariant
            first <= i <= chars@.len(),
            digits == chars@.skip(first as int),
            2 <= radix <= 16,
            value <= max,
            value == positional(digits.take(i - first), radix as nat),
            all_digits(digits.take(i - first), radix as nat),
            digits == without_plus(chars@.skip(start as int)),
        decreases chars@.len() - i,
    {
        let ghost k = i - first;
        assert(digits[k] == chars@[i as int]);
        assert(digits.take(k + 1).drop_last() =~= digits.take(k));
        assert(digits.take(k + 1).last() == digits[k]);
        match digit(chars[i], radix) {
            None => {
                return None;
            },
            Some(d) => {
                assert(value * radix + d <= u64::MAX * 16 + 16) by (nonlinear_arith)
                    requires
                        value <= u64::MAX,
                        radix <= 16,
                        d <= 16,
                ;
                let next: u128 = value as u128 * radix as u128 + d as u128;
                assert(next == positional(digits.take(k + 1), radix as nat));
                if next > max as u128 {
                    proof {
                        lemma_positional_grows(digits, k + 1, radix as nat);
                    }
                    return None;
                }
                value = next as u64;
                assert forall|j: int| 0 <= j < k + 1 implies digit_value(
                    #[trigger] digits.take(k + 1)[j],
                    radix as nat,
                ) is Some by {
                    if j < k {
                        assert(digits.take(k + 1)[j] == digits.take(k)[j]);
                    }
                }
            },
        }
        i = i + 1;
    }
    assert(digits.take(i - first) =~= digits);
    Some(value)
}

/// Reads a PCR mask.
pub fn parse_mask(mask: &str) -> (res: Option<u32>)
    ensures
        match res {
            Some(v) => mask_value(mask@) == Some(v as nat),
            None => mask_value(mask@) is None,
        },
{
    let chars = chars_of(mask);
    let mut start: usize = 0;
    assert(chars@.skip(0) =~= chars@);
    while chars.len() - start >= 2 && chars[start] == '0' && chars[start + 1] == 'x'
        invariant
            start <= chars@.len(),
            chars@ == mask@,
            without_hex_prefixes(chars@.skip(start as int)) == without_hex_prefixes(mask@),
        decreases chars@.len() - start,
    {
        assert(chars@.skip(start as int).skip(2) =~= chars@.skip(start + 2));
        start = start + 2;
    }
    match number_from(&chars, start, 16, u32::MAX as u64) {
        Some(v) => Some(v as u32),
        None => None,
    }
}

/// Reads the index of the first measurement list entry that is asked for.
pub fn parse_entry(entry: Option<&str>) -> (res: u64)
    ensures
        entry matches Some(e) ==> res == first_entry(Some(e@)),
        entry is None ==> res == first_entry(None),
{
    match entry {
        None => 0,
        Some(e) => {
            let chars = chars_of(e);
            assert(chars@.skip(0) =~= chars@);
            match number_from(&chars, 0, 10, u64::MAX) {
                Some(v) => v,
                None => 0,
            }
        },
    }
}

pub(crate) proof fn lemma_decimal_digits(n: nat)
    ensures
        decimal(n).len() > 0,
        all_digits(decimal(n), 10),
        positional(decimal(n), 10) == n,
    decreases n,
{
    let s = decimal(n);
    if n < 10 {
        assert(s.drop_last() =~= Seq::<char>::empty());
        assert(positional(s.drop_last(), 10) == 0);
        assert(digit_value(decimal_digit(n), 10) == Some(n));
    } else {
        lemma_decimal_digits(n / 10);
        assert(s.drop_last() =~= decimal(n / 10));
        assert(digit_value(decimal_digit(n % 10), 10) == Some(n % 10));
        assert forall|i: int| 0 <= i < s.len() implies digit_value(#[trigger] s[i], 10) is Some by {
            if i < s.len() - 1 {
                assert(s[i] == decimal(n / 10)[i]);
            }
        }
    }
}

/// An entry number that is written in decimal is the entry that is read.
pub proof fn law_decimal_entry(n: u64)
    ensures
        first_entry(Some(decimal(n as nat))) == n,
{
    let s = decimal(n as nat);
    lemma_decimal_digits(n as nat);
    assert(digit_value(s[0], 10) is Some);
    assert(without_plus(s) == s);
}

/// `0x` in front of a mask changes nothing.
pub proof fn law_hex_prefix_is_optional(mask: Seq<char>)
    ensures
        mask_value(seq!['0', 'x'] + mask) == mask_value(mask),
{
    assert((seq!['0', 'x'] + mask).skip(2) =~= mask);
}

/// A decimal digit.
#[derive(Clone, Copy, Debug, PartialEq, Eq, Structural)]
pub enum Digit {
    Zero,
    One,
    Two,
    Three,
    Four,
    Five,
    Six,
    Seven,
    Eight,
    Nine,
}

/// A number with decimals, as it is shown: digits, a point, and digits.
#[derive(Debug)]
pub struct FixedPoint {
    pub whole: Vec<Digit>,
    pub decimals: Vec<Digit>,
}

/// The character of a digit.
pub open spec fn digit_char(d: Digit) -> char {
    match d {
        Digit::Zero => '0',
        Digit::One => '1',
        Digit::Two => '2',
        Digit::Three => '3',
        Digit::Four => '4',
        Digit::Five => '5',
        Digit::Six => '6',
        Digit::Seven => '7',
        Digit::Eight => '8',
        Digit::Nine => '9',
    }
}

/// The characters of digits.
pub open spec fn digits_text(digits: Seq<Digit>) -> Seq<char> {
    Seq::new(digits.len(), |i: int| digit_char(digits[i]))
}

impl View for FixedPoint {
    type V = Seq<char>;

    open spec fn view(&self) -> Seq<char> {
        digits_text(self.whole@).push('.') + digits_text(self.decimals@)
    }
}

/// `text` is a number with ten decimals: one or more digits, a point, ten digits.
pub open spec fn has_ten_decimals(text: Seq<char>) -> bool {
    &&& text.len() >= 12
    &&& text[text.len() - 11] == '.'
    &&& forall|i: int|
        0 <= i < text.len() && i != text.len() - 11 ==> '0' <= #[trigger] text[i] <= '9'
}

/// The digit that a character is, if it is one.
fn digit_of(c: char) -> (res: Option<Digit>)
    ensures
        res is Some <==> '0' <= c <= '9',
        res matches Some(d) ==> digit_char(d) == c,
{
    match c {
        '0' => Some(Digit::Zero),
        '1' => Some(Digit::One),
        '2' => Some(Digit::Two),
        '3' => Some(Digit::Three),
        '4' => Some(Digit::Four),
        '5' => Some(Digit::Five),
        '6' => Some(Digit::Six),
        '7' => Some(Digit::Seven),
        '8' => Some(Digit::Eight),
        '9' => Some(Digit::Nine),
        _ => None,
    }
}

/// The character of a digit.
fn char_of(d: Digit) -> (res: char)
    ensures
        res == digit_char(d),
{
    match d {
        Digit::Zero => '0',
        Digit::One => '1',
        Digit::Two => '2',
        Digit::Three => '3',
        Digit::Four => '4',
        Digit::Five => '5',
        Digit::Six => '6',
        Digit::Seven => '7',
        Digit::Eight => '8',
        Digit::Nine => '9',
    }
}

/// The digits that the characters `from..to` are, if all of them are digits.
fn digits_of(chars: &Vec<char>, from: usize, to: usize) -> (res: Option<Vec<Digit>>)
    requires
        from <= to <= chars@.len(),
    ensures
        res is Some <==> forall|i: int| from <= i < to ==> '0' <= #[trigger] chars@[i] <= '9',
        res matches Some(digits) ==> digits_text(digits@) == chars@.subrange(
            from as int,
            to as int,
        ),
{
    let mut digits: Vec<Digit> = Vec::new();
    let mut i: usize = from;
    while i < to
        invariant
            from <= i <= to <= chars@.len(),
            digits@.len() == i - from,
            forall|j: int| 0 <= j < i - from ==> digit_char(#[trigger] digits@[j]) == chars@[from + j],
            forall|j: int| from <= j < i ==> '0' <= #[trigger] chars@[j] <= '9',
        decreases to - i,
    {
        match digit_of(chars[i]) {
            Some(d) => digits.push(d),
            None => {
                return None;
            },
        }
        i = i + 1;
    }
    assert(digits_text(digits@) =~= chars@.subrange(from as int, to as int));
    Some(digits)
}

/// Adds digits to a text.
fn add_digits(out: &mut String, digits: &Vec<Digit>)
    ensures
        final(out)@ == old(out)@ + digits_text(digits@),
{
    let ghost before = out@;
    let mut i: usize = 0;
    while i < digits.len()
        invariant
            i <= digits@.len(),
            out@ == before + digits_text(digits@.take(i as int)),
        decreases digits@.len() - i,
    {
        out.push(char_of(digits[i]));
        i = i + 1;
        assert(digits_text(digits@.take(i as int)) =~= digits_text(digits@.take(i - 1)).push(
            digit_char(digits@[i - 1]),
        ));
        assert(out@ =~= before + digits_text(digits@.take(i as int)));
    }
    assert(digits@.take(digits@.len() as int) =~= digits@);
}

impl FixedPoint {
    /// Reads a number with ten decimals.
    pub fn read(text: &str) -> (res: Option<FixedPoint>)
        ensures
            res is Some <==> has_ten_decimals(text@),
            res matches Some(number) ==> number@ == text@,
    {
        let chars = chars_of(text);
        let n: usize = chars.len();
        if n < 12 || chars[n - 11] != '.' {
            return None;
        }
        let point: usize = n - 11;
        match (digits_of(&chars, 0, point), digits_of(&chars, point + 1, n)) {
            (Some(whole), Some(decimals)) => {
                let number = FixedPoint { whole, decimals };
                assert(number@ =~= text@);
                Some(number)
            },
            _ => None,
        }
    }

    /// The number as it is shown.
    pub fn text(&self) -> (res: String)
        ensures
            res@ == self@,
    {
        let mut res = String::new();
        add_digits(&mut res, &self.whole);
        res.push('.');
        add_digits(&mut res, &self.decimals);
        assert(res@ =~= self@);
        res
    }
}

/// A number with decimals consists of digits and one point.
pub proof fn law_fixed_point_holds_digits(number: FixedPoint)
    ensures
        forall|i: int|
            0 <= i < number@.len() ==> '0' <= #[trigger] number@[i] <= '9' || number@[i] == '.',
{
}

/// `c` is a hexadecimal digit of either case.
spec fn is_hex(c: char) -> bool {
    (c as u32) < 128 && hex_value(c as u8) is Some
}

proof fn lemma_hex_digit(c: char)
    requires
        (c as u32) < 128,
        hex_value(c as u8) is Some,
    ensures
        digit_value(c, 16) == Some(hex_value(c as u8).unwrap() as nat),
        c != '+',
        c != 'x',
{
}

/// A mask of one hexadecimal digit has the value of the digit; each further digit
/// multiplies the value by 16 and adds to it, up to the largest 32-bit number.
pub proof fn law_mask_digit_by_digit(digits: Seq<char>, c: char)
    requires
        forall|i: int|
            0 <= i < digits.len() ==> (#[trigger] digits[i] as u32) < 128 && hex_value(
                digits[i] as u8,
            ) is Some,
        (c as u32) < 128,
        hex_value(c as u8) is Some,
    ensures
        ({
            let d = hex_value(c as u8).unwrap();
            &&& mask_value(seq![c]) == Some(d as nat)
            &&& digits.len() > 0 ==> mask_value(digits.push(c)) == match mask_value(digits) {
                Some(v) if v * 16 + d <= 0xffff_ffff => Some((v * 16 + d) as nat),
                _ => None,
            }
        }),
{
    let d = hex_value(c as u8).unwrap();
    assert(digit_value(c, 16) == Some(d as nat));
    assert(seq![c].drop_last() =~= Seq::<char>::empty());
    assert(positional(Seq::<char>::empty(), 16) == 0);
    assert(seq![c].last() == c);
    assert(positional(seq![c], 16) == d);
    assert(all_digits(seq![c], 16));
    if digits.len() > 0 {
        let more = digits.push(c);
        lemma_hex_digit(digits[0]);
        if digits.len() >= 2 {
            lemma_hex_digit(digits[1]);
        }
        assert(more[0] == digits[0]);
        assert(without_hex_prefixes(digits) == digits);
        assert(without_hex_prefixes(more) == more) by {
            if digits.len() == 1 {
                assert(more[1] == c);
            } else {
                assert(more[1] == digits[1]);
            }
        }
        assert forall|i: int| 0 <= i < digits.len() implies digit_value(
            #[trigger] digits[i],
            16,
        ) is Some by {
            lemma_hex_digit(digits[i]);
        }
        assert forall|i: int| 0 <= i < more.len() implies digit_value(
            #[trigger] more[i],
            16,
        ) is Some by {
            if i < digits.len() {
                assert(more[i] == digits[i]);
            }
        }
        assert(more.drop_last() =~= digits);
        assert(positional(more, 16) == positional(digits, 16) * 16 + d);
    }
}

/// A plus sign in front of the digits of a mask changes nothing.
pub proof fn law_mask_plus_sign_is_optional(digits: Seq<char>)
    requires
        digits.len() > 0,
        forall|i: int|
            0 <= i < digits.len() ==> (#[trigger] digits[i] as u32) < 128 && hex_value(
                digits[i] as u8,
            ) is Some,
    ensures
        mask_value(seq!['+'] + digits) == mask_value(digits),
{
    let signed = seq!['+'] + digits;
    assert(signed[0] == '+');
    assert(signed.skip(1) =~= digits);
    lemma_hex_digit(digits[0]);
    if digits.len() >= 2 {
        lemma_hex_digit(digits[1]);
    }
}

/// Behind its prefixes, a mask consists of hexadecimal digits, at least one, and
/// perhaps a plus sign in front; what holds anything else denotes no mask.
pub proof fn law_mask_holds_digits_only(s: Seq<char>, i: int)
    requires
        !(s.len() >= 2 && s[0] == '0' && s[1] == 'x'),
    ensures
        s.len() == 0 ==> mask_value(s) is None,
        s == seq!['+'] ==> mask_value(s) is None,
        0 <= i < s.len() && !(i == 0 && s[i] == '+') && !((s[i] as u32) < 128 && hex_value(
            s[i] as u8,
        ) is Some) ==> mask_value(s) is None,
{
    assert(without_hex_prefixes(s) == s);
    if 0 <= i < s.len() && !(i == 0 && s[i] == '+') && !is_hex(s[i]) {
        assert(digit_value(s[i], 16) is None);
        let digits = without_plus(s);
        if s[0] == '+' {
            assert(digits[i - 1] == s[i]);
        } else {
            assert(digits[i] == s[i]);
        }
        assert(!all_digits(digits, 16));
    }
}

/// Two masks of the same number of hexadecimal digits, of the same case, that
/// have the same value are the same.
pub proof fn law_mask_tells_its_digits(one: Seq<char>, two: Seq<char>)
    requires
        one.len() == two.len(),
        forall|i: int|
            0 <= i < one.len() ==> ('0' <= #[trigger] one[i] <= '9' || 'a' <= one[i] <= 'f'),
        forall|i: int|
            0 <= i < two.len() ==> ('0' <= #[trigger] two[i] <= '9' || 'a' <= two[i] <= 'f'),
        mask_value(one) is Some,
        mask_value(one) == mask_value(two),
    ensures
        one == two,
    decreases one.len(),
{
    if one.len() > 0 {
        let (a, b) = (one.drop_last(), two.drop_last());
        let (c, d) = (one.last(), two.last());
        assert(one =~= a.push(c));
        assert(two =~= b.push(d));
        assert(c == one[one.len() - 1]);
        assert(d == two[two.len() - 1]);
        assert forall|i: int| 0 <= i < a.len() implies '0' <= #[trigger] a[i] <= '9' || 'a' <= a[i]
            <= 'f' by {
            assert(a[i] == one[i]);
        }
        assert forall|i: int| 0 <= i < b.len() implies '0' <= #[trigger] b[i] <= '9' || 'a' <= b[i]
            <= 'f' by {
            assert(b[i] == two[i]);
        }
        law_mask_digit_by_digit(a, c);
        law_mask_digit_by_digit(b, d);
        if a.len() == 0 {
            assert(one =~= seq![c]);
            assert(two =~= seq![d]);
            assert(c == d);
        } else {
            law_mask_tells_its_digits(a, b);
        }
        assert(a =~= b);
        assert(c == d);
    }
}

/// The entry that is asked for is the number written, whatever its size: one that
/// does not fit in 64 bits asks for entry 0, and so does no number at all.
pub proof fn law_entry_is_the_number_written(n: nat)
    ensures
        first_entry(Some(decimal(n))) == if n <= 0xffff_ffff_ffff_ffff {
            n
        } else {
            0
        },
        first_entry(None) == 0,
        first_entry(Some(Seq::empty())) == 0,
        first_entry(Some(seq!['+'])) == 0,
{
    let s = decimal(n);
    lemma_decimal_digits(n);
    assert(digit_value(s[0], 10) is Some);
    assert(without_plus(s) == s);
    assert(without_plus(seq!['+']).len() == 0);
}

/// Leading zeros and a plus sign change nothing about the entry.
pub proof fn law_entry_leading_zeros(digits: Seq<char>)
    requires
        digits.len() > 0,
        forall|i: int| 0 <= i < digits.len() ==> '0' <= #[trigger] digits[i] <= '9',
    ensures
        first_entry(Some(seq!['0'] + digits)) == first_entry(Some(digits)),
        first_entry(Some(seq!['+'] + digits)) == first_entry(Some(digits)),
{
    let zero = seq!['0'] + digits;
    let plus = seq!['+'] + digits;
    assert(plus[0] == '+');
    assert(plus.skip(1) =~= digits);
    assert(zero[0] == '0');
    assert(digits[0] != '+');
    assert forall|i: int| 0 <= i < zero.len() implies digit_value(#[trigger] zero[i], 10) is Some by {
        if i > 0 {
            assert(zero[i] == digits[i - 1]);
        }
    }
    assert forall|i: int| 0 <= i < digits.len() implies digit_value(
        #[trigger] digits[i],
        10,
    ) is Some by {}
    lemma_leading_zero(digits);
}

proof fn lemma_leading_zero(digits: Seq<char>)
    ensures
        positional(seq!['0'] + digits, 10) == positional(digits, 10),
    decreases digits.len(),
{
    let zero = seq!['0'] + digits;
    if digits.len() == 0 {
        assert(zero.drop_last() =~= Seq::<char>::empty());
        assert(positional(zero.drop_last(), 10) == 0);
        assert(zero.last() == '0');
    } else {
        assert(zero.drop_last() =~= seq!['0'] + digits.drop_last());
        assert(zero.last() == digits.last());
        lemma_leading_zero(digits.drop_last());
    }
}

/// What is not digits, with perhaps a plus sign in front, asks for entry 0.
pub proof fn law_entry_holds_digits_only(s: Seq<char>, i: int)
    requires
        0 <= i < s.len(),
        !('0' <= s[i] <= '9'),
        !(i == 0 && s[i] == '+'),
    ensures
        first_entry(Some(s)) == 0,
{
    assert(digit_value(s[i], 10) is None);
    let digits = without_plus(s);
    if s[0] == '+' {
        assert(digits[i - 1] == s[i]);
    } else {
        assert(digits[i] == s[i]);
    }
    assert(!all_digits(digits, 10));
}

/// A number has ten decimals exactly if it is made of one or more digits, a point
/// and ten digits.
pub proof fn law_ten_decimals(text: Seq<char>)
    ensures
        has_ten_decimals(text) <==> exists|whole: Seq<char>, decimals: Seq<char>|
            {
                &&& text == #[trigger] (whole.push('.') + decimals)
                &&& whole.len() > 0
                &&& decimals.len() == 10
                &&& forall|i: int| 0 <= i < whole.len() ==> '0' <= #[trigger] whole[i] <= '9'
                &&& forall|i: int| 0 <= i < decimals.len() ==> '0' <= #[trigger] decimals[i] <= '9'
            },
{
    if has_ten_decimals(text) {
        let p = text.len() - 11;
        let whole = text.take(p);
        let decimals = text.skip(p + 1);
        assert(text =~= whole.push('.') + decimals);
        assert forall|i: int| 0 <= i < decimals.len() implies '0' <= #[trigger] decimals[i]
            <= '9' by {
            assert(decimals[i] == text[p + 1 + i]);
        }
        assert forall|i: int| 0 <= i < whole.len() implies '0' <= #[trigger] whole[i] <= '9' by {
            assert(whole[i] == text[i]);
        }
    }
    if exists|whole: Seq<char>, decimals: Seq<char>|
        {
            &&& text == #[trigger] (whole.push('.') + decimals)
            &&& whole.len() > 0
            &&& decimals.len() == 10
            &&& forall|i: int| 0 <= i < whole.len() ==> '0' <= #[trigger] whole[i] <= '9'
            &&& forall|i: int| 0 <= i < decimals.len() ==> '0' <= #[trigger] decimals[i] <= '9'
        } {
        let (whole, decimals) = choose|whole: Seq<char>, decimals: Seq<char>|
            {
                &&& text == #[trigger] (whole.push('.') + decimals)
                &&& whole.len() > 0
                &&& decimals.len() == 10
                &&& forall|i: int| 0 <= i < whole.len() ==> '0' <= #[trigger] whole[i] <= '9'
                &&& forall|i: int| 0 <= i < decimals.len() ==> '0' <= #[trigger] decimals[i] <= '9'
            };
        let p = text.len() - 11;
        assert forall|i: int| 0 <= i < text.len() && i != p implies '0' <= #[trigger] text[i]
            <= '9' by {
            if i < p {
                assert(text[i] == whole[i]);
            } else {
                assert(text[i] == decimals[i - p - 1]);
            }
        }
    }
}

} // verus!
