//! Operations on text, stated over the sequence of characters that a string holds.

use vstd::prelude::*;
use vstd::string::*;
use vstd::utf8::*;

verus! {

/// `String::push`: appends the given character to the end of the string.
pub assume_specification[ std::string::String::push ](s: &mut std::string::String, c: char)
    ensures
        final(s)@ == old(s)@.push(c),
;

/// The characters of `s`, in order.
pub(crate) fn chars_of(s: &str) -> (r: Vec<char>)
    ensures
        r@ == s@,
{
    let mut r: Vec<char> = Vec::new();
    for c in it: s.chars()
        invariant
            it.seq() == s@,
            r@ == s@.take(it.index()),
    {
        r.push(c);
        assert(s@.take(it.index() + 1) =~= s@.take(it.index()).push(c));
    }
    assert(s@.take(s@.len() as int) =~= s@);
    r
}

/// The string that holds the characters `chars[from..to]`.
pub(crate) fn string_of(chars: &Vec<char>, from: usize, to: usize) -> (r: String)
    requires
        from <= to <= chars.len(),
    ensures
        r@ == chars@.subrange(from as int, to as int),
{
    let mut r = String::new();
    let mut i: usize = from;
    while i < to
        invariant
            from <= i <= to <= chars.len(),
            r@ == chars@.subrange(from as int, i as int),
        decreases to - i,
    {
        r.push(chars[i]);
        assert(chars@.subrange(from as int, i + 1) =~= chars@.subrange(from as int, i as int).push(chars@[i as int]));
        i = i + 1;
    }
    r
}

/// Whether two strings hold the same characters.
pub(crate) fn str_eq(a: &str, b: &str) -> (r: bool)
    ensures
        r == (a@ == b@),
{
    let x = a.as_bytes();
    let y = b.as_bytes();
    proof {
        encode_utf8_decode_utf8(a@);
        encode_utf8_decode_utf8(b@);
    }
    if x.len() != y.len() {
        return false;
    }
    let mut i: usize = 0;
    while i < x.len()
        invariant
            i <= x.len(),
            x.len() == y.len(),
            x@ == a.spec_bytes(),
            y@ == b.spec_bytes(),
            forall|j: int| 0 <= j < i ==> x@[j] == y@[j],
        decreases x.len() - i,
    {
        if x[i] != y[i] {
            return false;
        }
        i = i + 1;
    }
    assert(x@ =~= y@);
    true
}

/// The characters to which the Unicode Character Database gives the property `White_Space`.
pub open spec fn is_white(c: char) -> bool {
    let v = c as int;
    ||| 0x9 <= v <= 0xD
    ||| v == 0x20
    ||| v == 0x85
    ||| v == 0xA0
    ||| v == 0x1680
    ||| 0x2000 <= v <= 0x200A
    ||| v == 0x2028
    ||| v == 0x2029
    ||| v == 0x202F
    ||| v == 0x205F
    ||| v == 0x3000
}

/// `char::is_whitespace`: whether the character has the Unicode property `White_Space`.
pub assume_specification[ char::is_whitespace ](c: char) -> (r: bool)
    ensures
        r == is_white(c),
;

/// `s` without the white space in front.
pub open spec fn trim_start(s: Seq<char>) -> Seq<char>
    decreases s.len(),
{
    if s.len() > 0 && is_white(s[0]) {
        trim_start(s.skip(1))
    } else {
        s
    }
}

/// `s` without the white space at the end.
pub open spec fn trim_end(s: Seq<char>) -> Seq<char>
    decreases s.len(),
{
    if s.len() > 0 && is_white(s.last()) {
        trim_end(s.drop_last())
    } else {
        s
    }
}

/// `s` without the white space on either side.
pub open spec fn trimmed(s: Seq<char>) -> Seq<char> {
    trim_end(trim_start(s))
}

/// `s` with the white space on either side taken off.
pub(crate) fn trim(s: &str) -> (r: String)
    ensures
        r@ == trimmed(s@),
{
    let chars = chars_of(s);
    let mut from: usize = 0;
    assert(s@.skip(0) =~= s@);
    while from < chars.len() && chars[from].is_whitespace()
        invariant
            chars@ == s@,
            from <= chars.len(),
            trim_start(s@) == trim_start(s@.skip(from as int)),
        decreases chars.len() - from,
    {
        assert(s@.skip(from as int).skip(1) =~= s@.skip(from + 1));
        from = from + 1;
    }
    let ghost front = s@.skip(from as int);
    assert(trim_start(s@) == front);
    let mut to: usize = chars.len();
    assert(front =~= s@.subrange(from as int, to as int));
    while to > from && chars[to - 1].is_whitespace()
        invariant
            chars@ == s@,
            from <= to <= chars.len(),
            trim_end(front) == trim_end(s@.subrange(from as int, to as int)),
        decreases to,
    {
        assert(s@.subrange(from as int, to as int).drop_last() =~= s@.subrange(from as int, to - 1));
        to = to - 1;
    }
    string_of(&chars, from, to)
}

/// `s` without the run of `c` at its end.
pub open spec fn without_trailing(s: Seq<char>, c: char) -> Seq<char>
    decreases s.len(),
{
    if s.len() > 0 && s.last() == c {
        without_trailing(s.drop_last(), c)
    } else {
        s
    }
}

/// `s` with every `c` at its end taken off.
pub(crate) fn trim_end_char(s: &str, c: char) -> (r: String)
    ensures
        r@ == without_trailing(s@, c),
{
    let chars = chars_of(s);
    let mut to: usize = chars.len();
    assert(s@ =~= s@.subrange(0, to as int));
    while to > 0 && chars[to - 1] == c
        invariant
            chars@ == s@,
            to <= chars.len(),
            without_trailing(s@, c) == without_trailing(s@.subrange(0, to as int), c),
        decreases to,
    {
        assert(s@.subrange(0, to as int).drop_last() =~= s@.subrange(0, to - 1));
        to = to - 1;
    }
    string_of(&chars, 0, to)
}

/// Whether `sub` stands in `s` at position `k`.
pub open spec fn occurs_at(s: Seq<char>, sub: Seq<char>, k: int) -> bool {
    &&& 0 <= k
    &&& k + sub.len() <= s.len()
    &&& s.subrange(k, k + sub.len()) == sub
}

/// Whether `sub` stands anywhere in `s`.
pub open spec fn contains_text(s: Seq<char>, sub: Seq<char>) -> bool {
    exists|k: int| occurs_at(s, sub, k)
}

/// Whether `s` begins with `prefix`.
pub open spec fn begins_with(s: Seq<char>, prefix: Seq<char>) -> bool {
    occurs_at(s, prefix, 0)
}

/// Whether `sub` stands in `chars` at position `k`.
pub(crate) fn stands_at(chars: &Vec<char>, sub: &Vec<char>, k: usize) -> (r: bool)
    ensures
        r == occurs_at(chars@, sub@, k as int),
{
    if k > chars.len() || sub.len() > chars.len() - k {
        return false;
    }
    let mut i: usize = 0;
    while i < sub.len()
        invariant
            i <= sub.len(),
            k + sub.len() <= chars.len(),
            forall|j: int| 0 <= j < i ==> chars@[k + j] == sub@[j],
        decreases sub.len() - i,
    {
        if chars[k + i] != sub[i] {
            assert(chars@.subrange(k as int, k + sub.len())[i as int] != sub@[i as int]);
            return false;
        }
        i = i + 1;
    }
    assert(chars@.subrange(k as int, k + sub.len()) =~= sub@);
    true
}

/// The first position from `from` on at which `sub` stands in `chars`.
pub(crate) fn find_from(chars: &Vec<char>, sub: &Vec<char>, from: usize) -> (r: Option<usize>)
    ensures
        match r {
            Some(k) => from <= k && occurs_at(chars@, sub@, k as int) && forall|j: int|
                from <= j < k ==> !occurs_at(chars@, sub@, j),
            None => forall|j: int| from <= j ==> !occurs_at(chars@, sub@, j),
        },
{
    if from > chars.len() || sub.len() > chars.len() - from {
        return None;
    }
    let last: usize = chars.len() - sub.len();
    let mut k: usize = from;
    loop
        invariant
            from <= k <= last,
            last == chars.len() - sub.len(),
            forall|j: int| from <= j < k ==> !occurs_at(chars@, sub@, j),
        decreases last - k,
    {
        if stands_at(chars, sub, k) {
            return Some(k);
        }
        if k == last {
            return None;
        }
        k = k + 1;
    }
}

/// Whether `s` begins with `prefix`.
pub(crate) fn starts_with(s: &str, prefix: &str) -> (r: bool)
    ensures
        r == begins_with(s@, prefix@),
{
    let chars = chars_of(s);
    let head = chars_of(prefix);
    stands_at(&chars, &head, 0)
}

/// What follows `prefix` in `s`, where `s` begins with it.
pub(crate) fn strip_prefix(s: &str, prefix: &str) -> (r: Option<String>)
    ensures
        match r {
            Some(rest) => begins_with(s@, prefix@) && rest@ == s@.skip(prefix@.len() as int),
            None => !begins_with(s@, prefix@),
        },
{
    let chars = chars_of(s);
    let head = chars_of(prefix);
    if stands_at(&chars, &head, 0) {
        let rest = string_of(&chars, head.len(), chars.len());
        assert(rest@ =~= s@.skip(prefix@.len() as int));
        Some(rest)
    } else {
        None
    }
}

/// Whether `sub` stands anywhere in `s`.
pub(crate) fn contains(s: &str, sub: &str) -> (r: bool)
    ensures
        r == contains_text(s@, sub@),
{
    let chars = chars_of(s);
    let part = chars_of(sub);
    match find_from(&chars, &part, 0) {
        Some(k) => {
            assert(occurs_at(s@, sub@, k as int));
            true
        },
        None => false,
    }
}

/// `s` with every occurrence of `from`, taken from the left and without overlap, replaced by `to`.
pub open spec fn replaced(s: Seq<char>, from: Seq<char>, to: Seq<char>) -> Seq<char>
    decreases s.len(),
{
    if from.len() == 0 || s.len() < from.len() {
        s
    } else if begins_with(s, from) {
        to + replaced(s.skip(from.len() as int), from, to)
    } else {
        seq![s[0]] + replaced(s.skip(1), from, to)
    }
}

/// `s` with every occurrence of `from` replaced by `to`.
pub(crate) fn replace(s: &str, from: &str, to: &str) -> (r: String)
    requires
        from@.len() > 0,
    ensures
        r@ == replaced(s@, from@, to@),
{
    let chars = chars_of(s);
    let part = chars_of(from);
    let mut r = String::new();
    let mut i: usize = 0;
    assert(s@.skip(0) =~= s@);
    assert(r@ + replaced(s@, from@, to@) =~= replaced(s@, from@, to@));
    while i < chars.len() && part.len() <= chars.len() - i
        invariant
            chars@ == s@,
            part@ == from@,
            from@.len() > 0,
            i <= chars.len(),
            r@ + replaced(s@.skip(i as int), from@, to@) == replaced(s@, from@, to@),
        decreases chars.len() - i,
    {
        let ghost tail = s@.skip(i as int);
        let ghost before = r@;
        assert(forall|n: int| 0 <= n <= tail.len() ==> tail.subrange(0, n) =~= s@.subrange(i as int, i + n));
        if stands_at(&chars, &part, i) {
            assert(begins_with(tail, from@));
            r.append(to);
            assert(tail.skip(part@.len() as int) =~= s@.skip(i + part@.len()));
            assert(before + (to@ + replaced(s@.skip(i + part@.len()), from@, to@)) =~= r@ + replaced(
                s@.skip(i + part@.len()),
                from@,
                to@,
            ));
            i = i + part.len();
        } else {
            assert(!begins_with(tail, from@));
            r.push(chars[i]);
            assert(tail.skip(1) =~= s@.skip(i + 1));
            assert(before + (seq![tail[0]] + replaced(s@.skip(i + 1), from@, to@)) =~= r@ + replaced(
                s@.skip(i + 1),
                from@,
                to@,
            ));
            i = i + 1;
        }
    }
    let rest = string_of(&chars, i, chars.len());
    assert(rest@ =~= s@.skip(i as int));
    r.append(rest.as_str());
    r
}

/// `c` with the letters `A` to `Z` turned into `a` to `z`.
pub open spec fn lower_char(c: char) -> char {
    if 'A' <= c && c <= 'Z' {
        ((c as u8) + 32) as char
    } else {
        c
    }
}

/// `s` with every letter `A` to `Z` turned into `a` to `z`, and all else as it was.
pub open spec fn lowered(s: Seq<char>) -> Seq<char> {
    s.map_values(|c: char| lower_char(c))
}

/// `s` with every ASCII letter in lower case.
pub(crate) fn to_ascii_lowercase(s: &str) -> (r: String)
    ensures
        r@ == lowered(s@),
{
    let chars = chars_of(s);
    let mut r = String::new();
    let mut i: usize = 0;
    while i < chars.len()
        invariant
            chars@ == s@,
            i <= chars.len(),
            r@ == lowered(s@.take(i as int)),
        decreases chars.len() - i,
    {
        let c = chars[i];
        let d = if c >= 'A' && c <= 'Z' {
            (c as u8 + 32) as char
        } else {
            c
        };
        r.push(d);
        assert(lowered(s@.take(i + 1)) =~= lowered(s@.take(i as int)).push(lower_char(c)));
        i = i + 1;
    }
    assert(s@.take(i as int) =~= s@);
    r
}

/// Whether two strings agree but for the case of ASCII letters.
pub(crate) fn eq_ignore_ascii_case(a: &str, b: &str) -> (r: bool)
    ensures
        r == (lowered(a@) == lowered(b@)),
{
    let x = to_ascii_lowercase(a);
    let y = to_ascii_lowercase(b);
    str_eq(x.as_str(), y.as_str())
}

/// The decimal digit for `d`, where `d` is below ten.
pub open spec fn digit(d: nat) -> char {
    (48 + d) as char
}

/// The decimal numeral of `n`, without leading zeros.
pub open spec fn decimal(n: nat) -> Seq<char>
    decreases n,
{
    if n < 10 {
        seq![digit(n)]
    } else {
        decimal(n / 10).push(digit(n % 10))
    }
}

/// The decimal numeral of `n`, with a minus sign in front where `n` is negative.
pub open spec fn signed_decimal(n: int) -> Seq<char> {
    if n < 0 {
        seq!['-'] + decimal((-n) as nat)
    } else {
        decimal(n as nat)
    }
}

/// Appends the decimal numeral of `n`.
pub(crate) fn push_decimal(s: &mut String, n: u64)
    ensures
        final(s)@ == old(s)@ + decimal(n as nat),
    decreases n,
{
    let low: u8 = (n % 10) as u8;
    if n >= 10 {
        push_decimal(s, n / 10);
    }
    let ghost before = s@;
    s.push((48 + low) as char);
    assert(s@ =~= old(s)@ + decimal(n as nat));
}

/// The decimal numeral of `n`.
pub(crate) fn decimal_of(n: u64) -> (r: String)
    ensures
        r@ == decimal(n as nat),
{
    let mut r = String::new();
    push_decimal(&mut r, n);
    assert(r@ =~= decimal(n as nat));
    r
}

/// Appends the decimal numeral of `n`, with its sign where it is negative.
pub(crate) fn push_signed_decimal(s: &mut String, n: i64)
    ensures
        final(s)@ == old(s)@ + signed_decimal(n as int),
{
    if n < 0 {
        s.push('-');
        let size: u64 = (-(n as i128)) as u64;
        push_decimal(s, size);
        assert(s@ =~= old(s)@ + signed_decimal(n as int));
    } else {
        push_decimal(s, n as u64);
    }
}

/// Whether `c` is one of the digits `0` to `9`.
pub open spec fn is_digit(c: char) -> bool {
    '0' <= c && c <= '9'
}

/// Whether every character of `s` is a digit.
pub open spec fn all_digits(s: Seq<char>) -> bool {
    forall|i: int| 0 <= i < s.len() ==> is_digit(#[trigger] s[i])
}

/// The number that a row of digits writes in decimal.
pub open spec fn digits_value(s: Seq<char>) -> int
    decreases s.len(),
{
    if s.len() == 0 {
        0
    } else {
        digits_value(s.drop_last()) * 10 + (s.last() as int - 48)
    }
}

/// The number that `s` writes: digits, with a `+` in front or none.
pub open spec fn unsigned_numeral(s: Seq<char>) -> Option<int> {
    let digits = if s.len() > 0 && s[0] == '+' {
        s.skip(1)
    } else {
        s
    };
    if digits.len() > 0 && all_digits(digits) {
        Some(digits_value(digits))
    } else {
        None
    }
}

/// The number that `s` writes: digits, with a sign in front or none.
pub open spec fn signed_numeral(s: Seq<char>) -> Option<int> {
    if s.len() > 0 && s[0] == '-' {
        if s.len() > 1 && all_digits(s.skip(1)) {
            Some(-digits_value(s.skip(1)))
        } else {
            None
        }
    } else {
        unsigned_numeral(s)
    }
}

/// `n`, where it lies between `min` and `max`.
pub open spec fn in_range(n: Option<int>, min: int, max: int) -> Option<int> {
    match n {
        Some(v) => if min <= v <= max {
            Some(v)
        } else {
            None
        },
        None => None,
    }
}

/// The value of the digits `chars[from..]`, where there is at least one, all are digits, and the
/// value is at most `max`.
fn bounded_digits(chars: &Vec<char>, from: usize, max: u64) -> (r: Option<u64>)
    requires
        from <= chars.len(),
    ensures
        ({
            let d = chars@.skip(from as int);
            match r {
                Some(v) => d.len() > 0 && all_digits(d) && v == digits_value(d) && v <= max,
                None => d.len() == 0 || !all_digits(d) || digits_value(d) > max,
            }
        }),
{
    let ghost d = chars@.skip(from as int);
    if from == chars.len() {
        return None;
    }
    let mut value: u128 = 0;
    let mut over = false;
    let mut i: usize = from;
    while i < chars.len()
        invariant
            from <= i <= chars.len(),
            d == chars@.skip(from as int),
            all_digits(d.take(i - from)),
            value <= max <= u64::MAX,
            digits_value(d.take(i - from)) >= 0,
            !over ==> value == digits_value(d.take(i - from)),
            over ==> digits_value(d.take(i - from)) > max,
        decreases chars.len() - i,
    {
        let c = chars[i];
        assert(d[i - from] == c);
        if !(c >= '0' && c <= '9') {
            return None;
        }
        assert(d.take(i + 1 - from).drop_last() =~= d.take(i - from));
        assert(d.take(i + 1 - from).last() == c);
        assert(all_digits(d.take(i + 1 - from))) by {
            assert forall|j: int| 0 <= j < i + 1 - from implies is_digit(#[trigger] d.take(i + 1 - from)[j]) by {
                if j < i - from {
                    assert(d.take(i + 1 - from)[j] == d.take(i - from)[j]);
                }
            }
        }
        if !over {
            let next: u128 = value * 10 + (c as u8 - 48) as u128;
            if next > max as u128 {
                over = true;
            } else {
                value = next;
            }
        }
        i = i + 1;
    }
    assert(d.take(i - from) =~= d);
    if over {
        None
    } else {
        Some(value as u64)
    }
}

/// The number that `s` writes, where it is at most `max`.
pub(crate) fn parse_unsigned(s: &str, max: u64) -> (r: Option<u64>)
    ensures
        r is Some <==> in_range(unsigned_numeral(s@), 0, max as int) is Some,
        r is Some ==> Some(r->0 as int) == in_range(unsigned_numeral(s@), 0, max as int),
{
    let chars = chars_of(s);
    assert(s@.skip(0) =~= s@);
    let from: usize = if chars.len() > 0 && chars[0] == '+' {
        1
    } else {
        0
    };
    proof {
        lemma_digits_nonnegative(s@.skip(from as int));
    }
    bounded_digits(&chars, from, max)
}

/// A row of digits never writes a negative number.
proof fn lemma_digits_nonnegative(s: Seq<char>)
    ensures
        all_digits(s) ==> digits_value(s) >= 0,
    decreases s.len(),
{
    if s.len() > 0 {
        lemma_digits_nonnegative(s.drop_last());
        if all_digits(s) {
            assert(all_digits(s.drop_last())) by {
                assert forall|i: int| 0 <= i < s.drop_last().len() implies is_digit(#[trigger] s.drop_last()[i]) by {
                    assert(s.drop_last()[i] == s[i]);
                }
            }
            assert(is_digit(s[s.len() - 1]));
        }
    }
}

/// The number that `s` writes, where an `i64` holds it.
pub(crate) fn parse_i64(s: &str) -> (r: Option<i64>)
    ensures
        r is Some <==> in_range(signed_numeral(s@), i64::MIN as int, i64::MAX as int) is Some,
        r is Some ==> Some(r->0 as int) == in_range(signed_numeral(s@), i64::MIN as int, i64::MAX as int),
{
    let chars = chars_of(s);
    assert(s@.skip(0) =~= s@);
    if chars.len() > 0 && chars[0] == '-' {
        proof {
            lemma_digits_nonnegative(s@.skip(1));
        }
        match bounded_digits(&chars, 1, 9_223_372_036_854_775_808) {
            Some(v) => Some((-(v as i128)) as i64),
            None => None,
        }
    } else {
        let from: usize = if chars.len() > 0 && chars[0] == '+' {
            1
        } else {
            0
        };
        proof {
            lemma_digits_nonnegative(s@.skip(from as int));
        }
        match bounded_digits(&chars, from, 9_223_372_036_854_775_807) {
            Some(v) => Some(v as i64),
            None => None,
        }
    }
}

/// The parts in one row, with `sep` between each and the next.
pub open spec fn joined(parts: Seq<Seq<char>>, sep: Seq<char>) -> Seq<char>
    decreases parts.len(),
{
    if parts.len() == 0 {
        seq![]
    } else if parts.len() == 1 {
        parts[0]
    } else {
        joined(parts.drop_last(), sep) + sep + parts.last()
    }
}

/// What each string of a list holds.
pub open spec fn texts(list: Seq<String>) -> Seq<Seq<char>> {
    list.map_values(|s: String| s@)
}

/// Whether a text is in the list.
pub(crate) fn holds_text(list: &Vec<String>, text: &str) -> (r: bool)
    ensures
        r == texts(list@).contains(text@),
{
    let mut i: usize = 0;
    while i < list.len()
        invariant
            i <= list.len(),
            forall|j: int| 0 <= j < i ==> texts(list@)[j] != text@,
        decreases list.len() - i,
    {
        if str_eq(list[i].as_str(), text) {
            assert(texts(list@)[i as int] == text@);
            return true;
        }
        i = i + 1;
    }
    false
}

/// The parts in one row, with `sep` between each and the next.
pub(crate) fn join(parts: &Vec<String>, sep: &str) -> (r: String)
    ensures
        r@ == joined(texts(parts@), sep@),
{
    let mut r = String::new();
    let mut i: usize = 0;
    while i < parts.len()
        invariant
            i <= parts.len(),
            r@ == joined(texts(parts@).take(i as int), sep@),
        decreases parts.len() - i,
    {
        let ghost all = texts(parts@);
        assert(all.take(i + 1).drop_last() =~= all.take(i as int));
        assert(all.take(i + 1).last() == parts@[i as int]@);
        if i > 0 {
            r.append(sep);
        }
        r.append(parts[i].as_str());
        assert(r@ =~= joined(all.take(i + 1), sep@));
        i = i + 1;
    }
    assert(texts(parts@).take(i as int) =~= texts(parts@));
    r
}

/// How many characters `s` has in front of its first white space.
pub open spec fn word_len(s: Seq<char>) -> nat
    decreases s.len(),
{
    if s.len() == 0 || is_white(s[0]) {
        0
    } else {
        1 + word_len(s.skip(1))
    }
}

/// A first word ends within its text.
pub proof fn lemma_word_len(s: Seq<char>)
    ensures
        word_len(s) <= s.len(),
    decreases s.len(),
{
    if s.len() > 0 && !is_white(s[0]) {
        lemma_word_len(s.skip(1));
    }
}

/// Taking white space off the front makes nothing longer.
pub proof fn lemma_trim_start_len(s: Seq<char>)
    ensures
        trim_start(s).len() <= s.len(),
        trim_start(s).len() > 0 ==> !is_white(trim_start(s)[0]),
    decreases s.len(),
{
    if s.len() > 0 && is_white(s[0]) {
        lemma_trim_start_len(s.skip(1));
    }
}

/// The words of `s`: the longest runs without white space, in order.
pub open spec fn words(s: Seq<char>) -> Seq<Seq<char>>
    decreases s.len(),
{
    let t = trim_start(s);
    if t.len() == 0 {
        seq![]
    } else {
        let n = word_len(t) as int;
        proof {
            lemma_trim_start_len(s);
            lemma_word_len(t);
        }
        seq![t.take(n)] + words(t.skip(n))
    }
}

/// The words of `s`, in order.
pub(crate) fn split_whitespace(s: &str) -> (r: Vec<String>)
    ensures
        texts(r@) == words(s@),
{
    let chars = chars_of(s);
    let mut r: Vec<String> = Vec::new();
    let mut i: usize = 0;
    assert(s@.skip(0) =~= s@);
    assert(texts(r@) + words(s@) =~= words(s@));
    while i < chars.len()
        invariant
            chars@ == s@,
            i <= chars.len(),
            texts(r@) + words(s@.skip(i as int)) == words(s@),
        decreases chars.len() - i,
    {
        let ghost tail = s@.skip(i as int);
        assert(tail.skip(1) =~= s@.skip(i + 1));
        if chars[i].is_whitespace() {
            assert(trim_start(tail) == trim_start(tail.skip(1)));
            i = i + 1;
        } else {
            let start: usize = i;
            assert(trim_start(tail) == tail);
            while i < chars.len() && !chars[i].is_whitespace()
                invariant
                    chars@ == s@,
                    start <= i <= chars.len(),
                    start < chars.len(),
                    !is_white(s@[start as int]),
                    word_len(s@.skip(start as int)) == (i - start) + word_len(s@.skip(i as int)),
                decreases chars.len() - i,
            {
                assert(s@.skip(i as int).skip(1) =~= s@.skip(i + 1));
                i = i + 1;
            }
            assert(word_len(s@.skip(i as int)) == 0);
            assert(i > start);
            let ghost n = i - start;
            let word = string_of(&chars, start, i);
            assert(word@ =~= tail.take(n));
            assert(tail.skip(n) =~= s@.skip(i as int));
            let ghost before = texts(r@);
            r.push(word);
            assert(texts(r@) =~= before.push(word@));
            assert(before + (seq![tail.take(n)] + words(tail.skip(n))) =~= texts(r@) + words(s@.skip(i as int)));
        }
    }
    assert(s@.skip(i as int) =~= seq![]);
    assert(texts(r@) + words(s@.skip(i as int)) =~= texts(r@));
    r
}

/// Appends the bytes.
pub(crate) fn push_bytes(to: &mut Vec<u8>, bytes: &[u8])
    ensures
        final(to)@ == old(to)@ + bytes@,
{
    let ghost before = to@;
    let mut i: usize = 0;
    while i < bytes.len()
        invariant
            i <= bytes.len(),
            to@ == before + bytes@.take(i as int),
        decreases bytes.len() - i,
    {
        to.push(bytes[i]);
        assert(bytes@.take(i + 1) =~= bytes@.take(i as int).push(bytes@[i as int]));
        assert(to@ =~= before + bytes@.take(i + 1));
        i = i + 1;
    }
    assert(bytes@.take(i as int) =~= bytes@);
}

/// Appends the bytes that encode a text.
pub(crate) fn push_text(to: &mut Vec<u8>, s: &str)
    ensures
        final(to)@ == old(to)@ + encode_utf8(s@),
{
    push_bytes(to, s.as_bytes());
}

proof fn lemma_decimal_value(n: nat)
    ensures
        decimal(n).len() > 0,
        all_digits(decimal(n)),
        digits_value(decimal(n)) == n,
    decreases n,
{
    if n < 10 {
        assert(digits_value(decimal(n).drop_last()) == 0);
    } else {
        lemma_decimal_value(n / 10);
        assert(decimal(n).drop_last() =~= decimal(n / 10));
    }
}

/// A number's numeral reads as the number.
pub proof fn law_numerals_read_back(n: int)
    ensures
        signed_numeral(signed_decimal(n)) == Some(n),
        n >= 0 ==> unsigned_numeral(signed_decimal(n)) == Some(n),
{
    if n < 0 {
        lemma_decimal_value((-n) as nat);
        assert(signed_decimal(n).skip(1) =~= decimal((-n) as nat));
    } else {
        lemma_decimal_value(n as nat);
        assert(is_digit(decimal(n as nat)[0]));
    }
}

/// Lowering takes each capital letter of ASCII to the small one, 32 places on, and leaves every
/// other character.
pub proof fn law_lowering_changes_capitals_alone(s: Seq<char>, i: int)
    requires
        0 <= i < s.len(),
    ensures
        lowered(s).len() == s.len(),
        'A' <= s[i] <= 'Z' ==> lowered(s)[i] as int == s[i] as int + 32,
        !('A' <= s[i] <= 'Z') ==> lowered(s)[i] == s[i],
        lowered(lowered(s)) == lowered(s),
{
    assert(lowered(lowered(s)) =~= lowered(s));
}

proof fn lemma_front(s: Seq<char>)
    ensures
        exists|k: int|
            {
                &&& 0 <= k <= s.len()
                &&& #[trigger] s.skip(k) == trim_start(s)
                &&& forall|i: int| 0 <= i < k ==> is_white(#[trigger] s[i])
            },
        trim_start(s).len() > 0 ==> !is_white(trim_start(s)[0]),
    decreases s.len(),
{
    if s.len() > 0 && is_white(s[0]) {
        let rest = s.skip(1);
        lemma_front(rest);
        let k = choose|k: int|
            {
                &&& 0 <= k <= rest.len()
                &&& #[trigger] rest.skip(k) == trim_start(rest)
                &&& forall|i: int| 0 <= i < k ==> is_white(#[trigger] rest[i])
            };
        assert(s.skip(k + 1) =~= rest.skip(k));
        assert forall|i: int| 0 <= i < k + 1 implies is_white(#[trigger] s[i]) by {
            if i > 0 {
                assert(rest[i - 1] == s[i]);
            }
        }
    } else {
        assert(s.skip(0) =~= s);
    }
}

proof fn lemma_back(s: Seq<char>)
    ensures
        exists|k: int|
            {
                &&& 0 <= k <= s.len()
                &&& #[trigger] s.take(k) == trim_end(s)
                &&& forall|i: int| k <= i < s.len() ==> is_white(#[trigger] s[i])
            },
        trim_end(s).len() > 0 ==> !is_white(trim_end(s).last()),
    decreases s.len(),
{
    if s.len() > 0 && is_white(s.last()) {
        let rest = s.drop_last();
        lemma_back(rest);
        let k = choose|k: int|
            {
                &&& 0 <= k <= rest.len()
                &&& #[trigger] rest.take(k) == trim_end(rest)
                &&& forall|i: int| k <= i < rest.len() ==> is_white(#[trigger] rest[i])
            };
        assert(s.take(k) =~= rest.take(k));
        assert forall|i: int| k <= i < s.len() implies is_white(#[trigger] s[i]) by {
            if i < rest.len() {
                assert(rest[i] == s[i]);
            }
        }
    } else {
        assert(s.take(s.len() as int) =~= s);
    }
}

/// Trimming takes white space off both ends and nothing else: what is left stands in the text between
/// white space, and neither begins nor ends with any.
pub proof fn law_trimming_takes_white_space_off_the_ends(s: Seq<char>)
    ensures
        exists|i: int, j: int|
            {
                &&& 0 <= i <= j <= s.len()
                &&& trimmed(s) == #[trigger] s.subrange(i, j)
                &&& forall|k: int| 0 <= k < i || j <= k < s.len() ==> is_white(#[trigger] s[k])
            },
        trimmed(s).len() > 0 ==> !is_white(trimmed(s)[0]) && !is_white(trimmed(s).last()),
{
    lemma_front(s);
    let t = trim_start(s);
    lemma_back(t);
    let i = choose|k: int|
        {
            &&& 0 <= k <= s.len()
            &&& #[trigger] s.skip(k) == t
            &&& forall|n: int| 0 <= n < k ==> is_white(#[trigger] s[n])
        };
    let n = choose|k: int|
        {
            &&& 0 <= k <= t.len()
            &&& #[trigger] t.take(k) == trim_end(t)
            &&& forall|m: int| k <= m < t.len() ==> is_white(#[trigger] t[m])
        };
    assert(trimmed(s) =~= s.subrange(i, i + n));
    assert forall|k: int| 0 <= k < i || i + n <= k < s.len() implies is_white(#[trigger] s[k]) by {
        if k >= i + n {
            assert(t[k - i] == s[k]);
        }
    }
}

/// White space is the space, the tab and the ends of lines, and no letter, digit or sign of ASCII.
pub proof fn law_letters_digits_and_signs_are_not_white(c: char)
    ensures
        c == ' ' || c == '\t' || c == '\n' || c == '\r' ==> is_white(c),
        '!' <= c <= '~' ==> !is_white(c),
{
}

/// Taking a character off the end leaves a text that does not end in it, with nothing but that
/// character taken.
pub proof fn law_what_is_taken_off_the_end(s: Seq<char>, c: char)
    ensures
        ({
            let r = without_trailing(s, c);
            &&& r.len() <= s.len()
            &&& r == s.take(r.len() as int)
            &&& r.len() > 0 ==> r.last() != c
            &&& forall|i: int| r.len() <= i < s.len() ==> #[trigger] s[i] == c
        }),
    decreases s.len(),
{
    if s.len() > 0 && s.last() == c {
        let rest = s.drop_last();
        law_what_is_taken_off_the_end(rest, c);
        let r = without_trailing(s, c);
        assert(r =~= s.take(r.len() as int));
        assert forall|i: int| r.len() <= i < s.len() implies #[trigger] s[i] == c by {
            if i < rest.len() {
                assert(rest[i] == s[i]);
            }
        }
    } else {
        assert(s =~= s.take(s.len() as int));
    }
}

/// Replacing one character by another does so wherever it stands, and leaves every other.
pub proof fn law_one_character_is_replaced_by_another(s: Seq<char>, from: char, to: char)
    ensures
        replaced(s, seq![from], seq![to]).len() == s.len(),
        forall|i: int|
            0 <= i < s.len() ==> #[trigger] replaced(s, seq![from], seq![to])[i] == (if s[i] == from {
                to
            } else {
                s[i]
            }),
    decreases s.len(),
{
    if s.len() > 0 {
        law_one_character_is_replaced_by_another(s.skip(1), from, to);
        assert(s.subrange(0, 1) =~= seq![s[0]]);
        assert(seq![from][0] == from && seq![s[0]][0] == s[0]);
        assert(begins_with(s, seq![from]) == (s[0] == from));
    }
}

/// A text in which nothing is to be replaced stays as it is, and one that begins with what is to be
/// replaced has the new text in its place.
pub proof fn law_only_what_occurs_is_replaced(s: Seq<char>, from: Seq<char>, to: Seq<char>)
    requires
        from.len() > 0,
    ensures
        !contains_text(s, from) ==> replaced(s, from, to) == s,
        replaced(from + s, from, to) == to + replaced(s, from, to),
    decreases s.len(),
{
    let all = from + s;
    assert(all.subrange(0, from.len() as int) =~= from);
    assert(all.skip(from.len() as int) =~= s);
    if !contains_text(s, from) && s.len() >= from.len() {
        assert(!occurs_at(s, from, 0));
        let rest = s.skip(1);
        assert forall|k: int| !occurs_at(rest, from, k) by {
            if occurs_at(rest, from, k) {
                assert(s.subrange(k + 1, k + 1 + from.len()) =~= rest.subrange(k, k + from.len()));
                assert(occurs_at(s, from, k + 1));
            }
        }
        law_only_what_occurs_is_replaced(rest, from, to);
        assert(replaced(s, from, to) =~= s);
    }
}

proof fn lemma_word(s: Seq<char>)
    ensures
        word_len(s) <= s.len(),
        forall|i: int| 0 <= i < word_len(s) ==> !is_white(#[trigger] s[i]),
        word_len(s) < s.len() ==> is_white(s[word_len(s) as int]),
    decreases s.len(),
{
    if s.len() > 0 && !is_white(s[0]) {
        let rest = s.skip(1);
        lemma_word(rest);
        assert forall|i: int| 0 <= i < word_len(s) implies !is_white(#[trigger] s[i]) by {
            if i > 0 {
                assert(rest[i - 1] == s[i]);
            }
        }
    }
}

/// The words of a text are not empty and have no white space in them.
pub proof fn law_words_are_what_white_space_parts(s: Seq<char>)
    ensures
        forall|i: int| 0 <= i < words(s).len() ==> (#[trigger] words(s)[i]).len() > 0,
        forall|i: int, j: int|
            0 <= i < words(s).len() && 0 <= j < words(s)[i].len() ==> !is_white(#[trigger] words(s)[i][j]),
    decreases s.len(),
{
    let t = trim_start(s);
    lemma_front(s);
    lemma_trim_start_len(s);
    if t.len() > 0 {
        let n = word_len(t) as int;
        lemma_word(t);
        assert(n > 0);
        let rest = words(t.skip(n));
        law_words_are_what_white_space_parts(t.skip(n));
        assert(words(s) =~= seq![t.take(n)] + rest);
        assert forall|i: int| 0 <= i < words(s).len() implies (#[trigger] words(s)[i]).len() > 0 by {
            if i > 0 {
                assert(words(s)[i] == rest[i - 1]);
            }
        }
        assert forall|i: int, j: int| 0 <= i < words(s).len() && 0 <= j < words(s)[i].len() implies !is_white(
            #[trigger] words(s)[i][j],
        ) by {
            if i > 0 {
                assert(words(s)[i] == rest[i - 1]);
            }
        }
    }
}

} // verus!
