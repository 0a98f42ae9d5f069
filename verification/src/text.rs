//! Small text helpers shared by the other modules.

use vstd::prelude::*;

verus! {

/// The part of `s` that follows `prefix`, if `s` starts with it.
///
/// Trusted: calls `str::strip_prefix`, which returns the remainder exactly when
/// the string starts with the prefix.
#[verifier::external_body]
pub(crate) fn strip_prefix<'a>(s: &'a str, prefix: &str) -> (rest: Option<&'a str>)
    ensures
        rest is Some <==> prefix@.is_prefix_of(s@),
        rest matches Some(r) ==> s@ == prefix@ + r@,
{
    s.strip_prefix(prefix)
}

/// The part of `s` that precedes `suffix`, if `s` ends with it.
///
/// Trusted: calls `str::strip_suffix`, which returns the leading part exactly
/// when the string ends with the suffix.
#[verifier::external_body]
pub(crate) fn strip_suffix<'a>(s: &'a str, suffix: &str) -> (stem: Option<&'a str>)
    ensures
        stem is Some <==> suffix@.is_suffix_of(s@),
        stem matches Some(r) ==> s@ == r@ + suffix@,
{
    s.strip_suffix(suffix)
}

/// The text that Rust's `Debug` formatting prints for a string: the string in
/// double quotes, with its special characters escaped.
pub uninterp spec fn debug_text(s: Seq<char>) -> Seq<char>;

/// Trusted: formats the string with `{:?}`, which depends on the characters of
/// the string alone.
#[verifier::external_body]
pub(crate) fn debug_quoted(s: &str) -> (quoted: String)
    ensures
        quoted@ == debug_text(s@),
{
    format!("{:?}", s)
}

/// The character that stands for a digit below ten.
pub open spec fn digit_char(d: nat) -> char {
    if d == 0 {
        '0'
    } else if d == 1 {
        '1'
    } else if d == 2 {
        '2'
    } else if d == 3 {
        '3'
    } else if d == 4 {
        '4'
    } else if d == 5 {
        '5'
    } else if d == 6 {
        '6'
    } else if d == 7 {
        '7'
    } else if d == 8 {
        '8'
    } else {
        '9'
    }
}

/// A number written in decimal, without leading zeros.
pub open spec fn decimal_text(n: nat) -> Seq<char>
    decreases n,
{
    if n < 10 {
        seq![digit_char(n)]
    } else {
        decimal_text(n / 10).push(digit_char(n % 10))
    }
}

/// A run of `count` zeros.
pub open spec fn zeros(count: nat) -> Seq<char> {
    Seq::new(count, |i: int| '0')
}

/// A number written in decimal and filled up with leading zeros to at least
/// `width` characters.
pub open spec fn zero_padded(n: nat, width: nat) -> Seq<char> {
    let digits = decimal_text(n);
    if digits.len() >= width {
        digits
    } else {
        zeros((width - digits.len()) as nat) + digits
    }
}

/// The text of a digit below ten.
fn digit_text(d: u64) -> (text: &'static str)
    requires
        d < 10,
    ensures
        text@ == seq![digit_char(d as nat)],
{
    proof {
        reveal_strlit("0");
        reveal_strlit("1");
        reveal_strlit("2");
        reveal_strlit("3");
        reveal_strlit("4");
        reveal_strlit("5");
        reveal_strlit("6");
        reveal_strlit("7");
        reveal_strlit("8");
        reveal_strlit("9");
    }
    let text = if d == 0 {
        "0"
    } else if d == 1 {
        "1"
    } else if d == 2 {
        "2"
    } else if d == 3 {
        "3"
    } else if d == 4 {
        "4"
    } else if d == 5 {
        "5"
    } else if d == 6 {
        "6"
    } else if d == 7 {
        "7"
    } else if d == 8 {
        "8"
    } else {
        "9"
    };
    assert(text@ =~= seq![digit_char(d as nat)]);
    text
}

/// A number in decimal, without leading zeros.
pub fn decimal(n: u64) -> (text: String)
    ensures
        text@ == decimal_text(n as nat),
    decreases n,
{
    if n < 10 {
        String::from_str(digit_text(n))
    } else {
        let last = digit_text(n % 10);
        let text = decimal(n / 10).concat(last);
        assert(text@ =~= decimal_text((n / 10) as nat).push(digit_char((n % 10) as nat)));
        text
    }
}

/// How many digits a number has: one below ten, two below a hundred, three
/// below a thousand, and at least four from there on.
pub proof fn lemma_digits(n: nat)
    ensures
        n < 10 ==> decimal_text(n).len() == 1,
        10 <= n < 100 ==> decimal_text(n).len() == 2,
        100 <= n < 1000 ==> decimal_text(n).len() == 3,
        1000 <= n ==> decimal_text(n).len() >= 4,
    decreases n,
{
    if n >= 10 {
        lemma_digits(n / 10);
    }
}

/// A number in decimal, filled up with leading zeros to four characters.
pub fn decimal_padded4(n: usize) -> (text: String)
    ensures
        text@ == zero_padded(n as nat, 4),
{
    let digits = decimal(n as u64);
    proof {
        lemma_digits(n as nat);
        reveal_strlit("0");
        reveal_strlit("00");
        reveal_strlit("000");
        assert("0"@ =~= zeros(1));
        assert("00"@ =~= zeros(2));
        assert("000"@ =~= zeros(3));
    }
    if n < 10 {
        String::from_str("000").concat(digits.as_str())
    } else if n < 100 {
        String::from_str("00").concat(digits.as_str())
    } else if n < 1000 {
        String::from_str("0").concat(digits.as_str())
    } else {
        digits
    }
}

/// The items of a list in backward order: popping them gives the items of
/// `items` from the first to the last.
pub fn reversed<T>(items: Vec<T>) -> (backward: Vec<T>)
    ensures
        backward@.len() == items@.len(),
        forall|j: int| 0 <= j < items@.len() ==> backward@[j] == items@[items@.len() - 1 - j],
{
    let ghost all = items@;
    let mut items = items;
    let mut backward: Vec<T> = Vec::new();
    while items.len() > 0
        invariant
            items@ == all.subrange(0, items@.len() as int),
            items@.len() <= all.len(),
            backward@.len() == all.len() - items@.len(),
            forall|j: int| 0 <= j < backward@.len() ==> backward@[j] == all[all.len() - 1 - j],
        decreases items@.len(),
    {
        let item = items.pop();
        match item {
            Some(item) => backward.push(item),
            None => {},
        }
    }
    backward
}

/// A copy of a byte vector.
pub fn copy_bytes(bytes: &Vec<u8>) -> (copy: Vec<u8>)
    ensures
        copy@ == bytes@,
{
    let mut copy: Vec<u8> = Vec::new();
    let mut i: usize = 0;
    while i < bytes.len()
        invariant
            i <= bytes.len(),
            copy@ == bytes@.subrange(0, i as int),
        decreases bytes.len() - i,
    {
        copy.push(bytes[i]);
        i += 1;
        assert(copy@ =~= bytes@.subrange(0, i as int));
    }
    assert(copy@ =~= bytes@);
    copy
}

/// A copy of a list of strings.
pub fn copy_strings(strings: &Vec<String>) -> (copy: Vec<String>)
    ensures
        copy@ == strings@,
{
    let mut copy: Vec<String> = Vec::new();
    let mut i: usize = 0;
    while i < strings.len()
        invariant
            i <= strings.len(),
            copy@ == strings@.subrange(0, i as int),
        decreases strings.len() - i,
    {
        copy.push(strings[i].clone());
        i += 1;
        assert(copy@ =~= strings@.subrange(0, i as int));
    }
    assert(copy@ =~= strings@);
    copy
}

/// A copy of an optional string.
pub fn copy_optional(text: &Option<String>) -> (copy: Option<String>)
    ensures
        copy == *text,
{
    match text {
        Some(t) => Some(t.clone()),
        None => None,
    }
}

/// What is left of `s` once its first `n` characters are removed.
pub open spec fn after(s: Seq<char>, n: nat) -> Seq<char> {
    s.subrange(n as int, s.len() as int)
}

/// `prefix + rest` starts with `prefix`, and `rest` is what follows it.
pub proof fn lemma_prefix_split(s: Seq<char>, prefix: Seq<char>, rest: Seq<char>)
    requires
        s == prefix + rest,
    ensures
        prefix.is_prefix_of(s),
        after(s, prefix.len()) == rest,
{
    assert(s.subrange(0, prefix.len() as int) =~= prefix);
    assert(after(s, prefix.len()) =~= rest);
}

/// `stem + suffix` ends with `suffix`, and `stem` is what precedes it.
pub proof fn lemma_suffix_split(s: Seq<char>, stem: Seq<char>, suffix: Seq<char>)
    requires
        s == stem + suffix,
    ensures
        suffix.is_suffix_of(s),
        s.subrange(0, s.len() - suffix.len()) == stem,
{
    assert(s.subrange(s.len() - suffix.len(), s.len() as int) =~= suffix);
    assert(s.subrange(0, s.len() - suffix.len()) =~= stem);
}

} // verus!
