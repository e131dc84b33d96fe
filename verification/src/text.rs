//! Text: splitting, trimming and comparing strings, and writing numbers.
//!
//! Contracts speak of a string as the sequence of its characters.
use vstd::prelude::*;
use vstd::string::*;
use vstd::utf8::*;

verus! {

/// `String::push` appends the given character to the end of the string.
pub assume_specification[ String::push ](s: &mut String, c: char)
    ensures
        final(s)@ == old(s)@.push(c),
;

/// The characters with the Unicode property White_Space.
pub open spec fn is_white_space(c: char) -> bool {
    let n = c as u32;
    ||| 9 <= n <= 13
    ||| n == 32
    ||| n == 0x85
    ||| n == 0xa0
    ||| n == 0x1680
    ||| 0x2000 <= n <= 0x200a
    ||| n == 0x2028
    ||| n == 0x2029
    ||| n == 0x202f
    ||| n == 0x205f
    ||| n == 0x3000
}

/// The index of the first `c` in `s`, or the length of `s` where there is none.
pub open spec fn index_of(s: Seq<char>, c: char) -> int
    decreases s.len(),
{
    if s.len() == 0 || s[0] == c {
        0
    } else {
        1 + index_of(s.skip(1), c)
    }
}

/// The parts of `s` between the separators, always at least one.
pub open spec fn split(s: Seq<char>, sep: char) -> Seq<Seq<char>>
    decreases s.len(),
{
    let i = index_of(s, sep);
    if i >= s.len() {
        seq![s]
    } else {
        proof {
            lemma_index_of(s, sep);
        }
        seq![s.take(i)] + split(s.skip(i + 1), sep)
    }
}

/// What stands before and after the first `sep`.
pub open spec fn split_once(s: Seq<char>, sep: char) -> Option<(Seq<char>, Seq<char>)> {
    let i = index_of(s, sep);
    if i >= s.len() {
        None
    } else {
        Some((s.take(i), s.skip(i + 1)))
    }
}

/// What follows `prefix`, where `s` begins with it.
pub open spec fn strip_prefix(s: Seq<char>, prefix: Seq<char>) -> Option<Seq<char>> {
    if prefix.is_prefix_of(s) {
        Some(s.skip(prefix.len() as int))
    } else {
        None
    }
}

/// `s` without the white space that it begins with.
pub open spec fn trim_start(s: Seq<char>) -> Seq<char>
    decreases s.len(),
{
    if s.len() > 0 && is_white_space(s[0]) {
        trim_start(s.skip(1))
    } else {
        s
    }
}

/// `s` without the white space that it ends with.
pub open spec fn trim_end(s: Seq<char>) -> Seq<char>
    decreases s.len(),
{
    if s.len() > 0 && is_white_space(s.last()) {
        trim_end(s.drop_last())
    } else {
        s
    }
}

/// `s` without white space at either end.
pub open spec fn trim(s: Seq<char>) -> Seq<char> {
    trim_end(trim_start(s))
}

/// Whether `needle` stands somewhere in `s`.
pub open spec fn contains(s: Seq<char>, needle: Seq<char>) -> bool {
    exists|i: int|
        0 <= i <= s.len() - needle.len() && #[trigger] s.subrange(i, i + needle.len()) == needle
}

/// The lower case of an ASCII letter; any other character as it is.
pub open spec fn ascii_lower(c: char) -> char {
    if 'A' <= c <= 'Z' {
        (c as u8 + 32) as u8 as char
    } else {
        c
    }
}

/// `s` with its ASCII letters in lower case.
pub open spec fn ascii_lower_all(s: Seq<char>) -> Seq<char> {
    s.map_values(|c: char| ascii_lower(c))
}

/// The hexadecimal digits: `0` to `9`, `a` to `f` and `A` to `F`.
pub open spec fn is_hex_digit(c: char) -> bool {
    '0' <= c <= '9' || 'a' <= c <= 'f' || 'A' <= c <= 'F'
}

/// Whether `s` is made of hexadecimal digits alone.
pub open spec fn all_hex(s: Seq<char>) -> bool {
    forall|i: int| 0 <= i < s.len() ==> is_hex_digit(#[trigger] s[i])
}

/// The number of bytes that `s` takes in UTF-8.
pub open spec fn byte_len(s: Seq<char>) -> nat {
    encode_utf8(s).len()
}

/// The character of a decimal digit.
pub open spec fn digit_char(d: nat) -> char {
    (48 + d) as u8 as char
}

/// `n` in decimal, without leading zeros.
pub open spec fn decimal(n: nat) -> Seq<char>
    decreases n,
{
    if n < 10 {
        seq![digit_char(n)]
    } else {
        decimal(n / 10).push(digit_char(n % 10))
    }
}

/// The decimal digits.
pub open spec fn is_digit(c: char) -> bool {
    '0' <= c <= '9'
}

/// Whether `s` is made of decimal digits alone.
pub open spec fn all_digits(s: Seq<char>) -> bool {
    forall|i: int| 0 <= i < s.len() ==> is_digit(#[trigger] s[i])
}

/// The number that a string of decimal digits stands for.
pub open spec fn digits_value(s: Seq<char>) -> nat
    decreases s.len(),
{
    if s.len() == 0 {
        0
    } else {
        10 * digits_value(s.drop_last()) + (s.last() as u32 - 48) as nat
    }
}

/// The number that `s` stands for, where it is made of at least one decimal
/// digit and the number is no larger than `max`.
pub open spec fn parse_digits(s: Seq<char>, max: nat) -> Option<nat> {
    if s.len() > 0 && all_digits(s) && digits_value(s) <= max {
        Some(digits_value(s))
    } else {
        None
    }
}

/// As `parse_digits`, with a plus sign in front of the digits or without.
pub open spec fn parse_unsigned(s: Seq<char>, max: nat) -> Option<nat> {
    if s.len() > 0 && s[0] == '+' {
        parse_digits(s.skip(1), max)
    } else {
        parse_digits(s, max)
    }
}

/// The integer that `s` stands for, with a sign in front of the digits or
/// without, where it lies between `-max - 1` and `max`.
pub open spec fn parse_signed(s: Seq<char>, max: nat) -> Option<int> {
    if s.len() > 0 && s[0] == '-' {
        match parse_digits(s.skip(1), max + 1) {
            Some(n) => Some(-n),
            None => None,
        }
    } else {
        match parse_unsigned(s, max) {
            Some(n) => Some(n as int),
            None => None,
        }
    }
}

/// The parts of a list of strings, each as its characters.
pub open spec fn views(parts: Seq<&str>) -> Seq<Seq<char>> {
    parts.map_values(|p: &str| p@)
}

/// An optional string as its optional characters.
pub open spec fn opt_view(s: Option<String>) -> Option<Seq<char>> {
    match s {
        Some(t) => Some(t@),
        None => None,
    }
}

/// An optional string slice as its optional characters.
pub open spec fn opt_str_view(s: Option<&str>) -> Option<Seq<char>> {
    match s {
        Some(t) => Some(t@),
        None => None,
    }
}

/// An index of `c` lies within `s` or is its length; up to it there is no `c`.
pub proof fn lemma_index_of(s: Seq<char>, c: char)
    ensures
        0 <= index_of(s, c) <= s.len(),
        forall|i: int| 0 <= i < index_of(s, c) ==> s[i] != c,
        index_of(s, c) < s.len() ==> s[index_of(s, c)] == c,
    decreases s.len(),
{
    if s.len() > 0 && s[0] != c {
        lemma_index_of(s.skip(1), c);
        assert forall|i: int| 0 <= i < index_of(s, c) implies s[i] != c by {
            if i > 0 {
                assert(s.skip(1)[i - 1] == s[i]);
            }
        }
    }
}

/// Where `i` is the place of the first `c`, `index_of` is `i`.
pub proof fn lemma_index_of_is(s: Seq<char>, c: char, i: int)
    requires
        0 <= i <= s.len(),
        forall|j: int| 0 <= j < i ==> s[j] != c,
        i < s.len() ==> s[i] == c,
    ensures
        index_of(s, c) == i,
{
    lemma_index_of(s, c);
    let k = index_of(s, c);
    if k < i {
        assert(s[k] == c);
    } else if i < k {
        assert(s[i] != c);
    }
}

/// Whether `c` does not stand in `s`.
pub open spec fn free_of(s: Seq<char>, c: char) -> bool {
    forall|i: int| 0 <= i < s.len() ==> #[trigger] s[i] != c
}

/// What holds no separator is not split.
pub proof fn lemma_split_single(s: Seq<char>, sep: char)
    requires
        free_of(s, sep),
    ensures
        split(s, sep) == seq![s],
        split_once(s, sep) is None,
{
    lemma_index_of_is(s, sep, s.len() as int);
}

/// What stands before the first separator is the first part.
pub proof fn lemma_split_join(a: Seq<char>, sep: char, b: Seq<char>)
    requires
        free_of(a, sep),
    ensures
        split(a.push(sep) + b, sep) == seq![a] + split(b, sep),
        split_once(a.push(sep) + b, sep) == Some((a, b)),
{
    let s = a.push(sep) + b;
    assert forall|j: int| 0 <= j < a.len() implies s[j] != sep by {
        assert(s[j] == a[j]);
    }
    lemma_index_of_is(s, sep, a.len() as int);
    assert(s.take(a.len() as int) =~= a);
    assert(s.skip(a.len() as int + 1) =~= b);
}

/// What stands in no part of a string, and is not the separator, does not stand in
/// the string; and a last part that is not empty ends as the string does.
pub proof fn lemma_split_parts(s: Seq<char>, sep: char)
    ensures
        split(s, sep).len() > 0,
        forall|c: char|
            c != sep && (forall|k: int|
                0 <= k < split(s, sep).len() ==> free_of(#[trigger] split(s, sep)[k], c))
                ==> #[trigger] free_of(s, c),
        split(s, sep).last().len() > 0 ==> s.len() > 0 && s.last() == split(s, sep).last().last(),
    decreases s.len(),
{
    lemma_index_of(s, sep);
    let i = index_of(s, sep);
    let parts = split(s, sep);
    if i >= s.len() {
        assert(parts == seq![s]);
        assert(parts[0] == s);
    } else {
        let rest = s.skip(i + 1);
        lemma_split_parts(rest, sep);
        let tail = split(rest, sep);
        assert(parts == seq![s.take(i)] + tail);
        assert(parts[0] == s.take(i));
        assert forall|c: char|
            c != sep && (forall|k: int|
                0 <= k < parts.len() ==> free_of(#[trigger] parts[k], c)) implies
            #[trigger] free_of(s, c) by {
            assert forall|k: int| 0 <= k < tail.len() implies free_of(#[trigger] tail[k], c) by {
                assert(parts[k + 1] == tail[k]);
            }
            assert(free_of(rest, c));
            assert(free_of(parts[0], c));
            assert forall|j: int| 0 <= j < s.len() implies #[trigger] s[j] != c by {
                if j < i {
                    assert(s[j] == s.take(i)[j]);
                } else if j > i {
                    assert(s[j] == rest[j - i - 1]);
                }
            }
        }
        assert(parts.last() == tail.last());
    }
}

/// What neither begins nor ends with white space is not trimmed.
pub proof fn lemma_trim_none(s: Seq<char>)
    requires
        s.len() > 0,
        !is_white_space(s[0]),
        !is_white_space(s.last()),
    ensures
        trim(s) == s,
{
}

/// Hexadecimal digits take one byte each.
pub proof fn lemma_hex_bytes_of_chars(s: Seq<char>)
    requires
        all_hex(s),
    ensures
        byte_len(s) == s.len(),
        encode_utf8(s) == Seq::new(s.len(), |i: int| s[i] as u8),
{
    assert(is_ascii_chars(s)) by {
        assert forall|i: int| 0 <= i < s.len() implies '\0' <= #[trigger] s[i] <= '\u{7f}' by {
            assert(is_hex_digit(s[i]));
        }
    }
    is_ascii_chars_encode_utf8(s);
}

/// The characters of a string.
pub fn chars(s: &str) -> (v: Vec<char>)
    ensures
        v@ == s@,
{
    let mut v: Vec<char> = Vec::new();
    for c in it: s.chars()
        invariant
            it.seq() == s@,
            v@ == s@.take(it.index() as int),
    {
        v.push(c);
        assert(s@.take(it.index() + 1) =~= s@.take(it.index() as int).push(c));
    }
    assert(s@.take(s@.len() as int) =~= s@);
    v
}

/// Whether two strings are the same.
pub fn equal(a: &str, b: &str) -> (r: bool)
    ensures
        r == (a@ == b@),
{
    let x = chars(a);
    let y = chars(b);
    if x.len() != y.len() {
        return false;
    }
    let mut i: usize = 0;
    while i < x.len()
        invariant
            i <= x.len(),
            x.len() == y.len(),
            x@ == a@,
            y@ == b@,
            forall|j: int| 0 <= j < i ==> a@[j] == b@[j],
        decreases x.len() - i,
    {
        if x[i] != y[i] {
            return false;
        }
        i = i + 1;
    }
    assert(a@ =~= b@);
    true
}

/// The place of the first `c` at or after `from`, or the length where there is none.
pub fn find(v: &Vec<char>, from: usize, c: char) -> (i: usize)
    requires
        from <= v@.len(),
    ensures
        from <= i <= v@.len(),
        i - from == index_of(v@.skip(from as int), c),
{
    let mut i: usize = from;
    while i < v.len() && v[i] != c
        invariant
            from <= i <= v@.len(),
            forall|j: int| from <= j < i ==> v@[j] != c,
        decreases v@.len() - i,
    {
        i = i + 1;
    }
    proof {
        let t = v@.skip(from as int);
        assert forall|j: int| 0 <= j < i - from implies t[j] != c by {
            assert(t[j] == v@[from + j]);
        }
        lemma_index_of_is(t, c, i - from);
    }
    i
}

/// Splits a string at every `sep`.
pub fn split_str<'a>(s: &'a str, sep: char) -> (parts: Vec<&'a str>)
    ensures
        views(parts@) == split(s@, sep),
{
    let v = chars(s);
    let mut parts: Vec<&'a str> = Vec::new();
    let mut from: usize = 0;
    let mut done: bool = false;
    proof {
        assert(s@.skip(0) =~= s@);
        assert(views(parts@) + split(s@, sep) =~= split(s@, sep));
    }
    while !done
        invariant
            v@ == s@,
            from <= v@.len(),
            !done ==> views(parts@) + split(s@.skip(from as int), sep) == split(s@, sep),
            done ==> views(parts@) == split(s@, sep),
        decreases (if done { 0int } else { v@.len() - from + 1 }),
    {
        let i: usize = find(&v, from, sep);
        let part = s.substring_char(from, i);
        let ghost before = views(parts@);
        let ghost rest = s@.skip(from as int);
        parts.push(part);
        proof {
            lemma_index_of(rest, sep);
            assert(views(parts@) =~= before.push(part@));
            assert(part@ =~= rest.take(i - from));
        }
        if i == v.len() {
            proof {
                assert(rest.take(i - from) =~= rest);
                assert(before.push(part@) =~= before + seq![rest]);
            }
            done = true;
        } else {
            proof {
                assert(rest.skip(i - from + 1) =~= s@.skip(i + 1));
                assert(split(rest, sep) == seq![part@] + split(s@.skip(i + 1), sep));
                assert(before.push(part@) + split(s@.skip(i + 1), sep) =~= before + (
                seq![part@] + split(s@.skip(i + 1), sep)));
            }
            from = i + 1;
        }
    }
    parts
}

/// Splits a string at the first `sep`.
pub fn split_once_str<'a>(s: &'a str, sep: char) -> (r: Option<(&'a str, &'a str)>)
    ensures
        match r {
            Some(p) => split_once(s@, sep) == Some((p.0@, p.1@)),
            None => split_once(s@, sep) is None,
        },
{
    let v = chars(s);
    let i: usize = find(&v, 0, sep);
    proof {
        assert(v@.skip(0) =~= s@);
    }
    if i == v.len() {
        None
    } else {
        let a = s.substring_char(0, i);
        let b = s.substring_char(i + 1, v.len());
        proof {
            assert(a@ =~= s@.take(i as int));
            assert(b@ =~= s@.skip(i + 1));
        }
        Some((a, b))
    }
}

/// Removes a prefix from a string that begins with it.
pub fn strip_prefix_str<'a>(s: &'a str, prefix: &str) -> (r: Option<&'a str>)
    ensures
        opt_str_view(r) == strip_prefix(s@, prefix@),
{
    let v = chars(s);
    let p = chars(prefix);
    if p.len() > v.len() {
        return None;
    }
    let mut i: usize = 0;
    while i < p.len()
        invariant
            v@ == s@,
            p@ == prefix@,
            p.len() <= v.len(),
            i <= p.len(),
            forall|j: int| 0 <= j < i ==> s@[j] == prefix@[j],
        decreases p.len() - i,
    {
        if v[i] != p[i] {
            assert(s@.subrange(0, prefix@.len() as int)[i as int] != prefix@[i as int]);
            return None;
        }
        i = i + 1;
    }
    assert(s@.subrange(0, prefix@.len() as int) =~= prefix@);
    let r = s.substring_char(p.len(), v.len());
    assert(r@ =~= s@.skip(prefix@.len() as int));
    Some(r)
}

/// Whether a character is white space.
pub fn white_space(c: char) -> (r: bool)
    ensures
        r == is_white_space(c),
{
    let n: u32 = c as u32;
    (9 <= n && n <= 13) || n == 32 || n == 0x85 || n == 0xa0 || n == 0x1680 || (0x2000 <= n && n
        <= 0x200a) || n == 0x2028 || n == 0x2029 || n == 0x202f || n == 0x205f || n == 0x3000
}

/// Removes white space from both ends of a string.
pub fn trim_str<'a>(s: &'a str) -> (r: &'a str)
    ensures
        r@ == trim(s@),
{
    let v = chars(s);
    let mut from: usize = 0;
    assert(s@.skip(0) =~= s@);
    while from < v.len() && white_space(v[from])
        invariant
            v@ == s@,
            from <= v.len(),
            trim_start(s@.skip(from as int)) == trim_start(s@),
        decreases v.len() - from,
    {
        assert(s@.skip(from as int)[0] == s@[from as int]);
        assert(s@.skip(from as int).skip(1) =~= s@.skip(from + 1));
        from = from + 1;
    }
    let ghost start = s@.skip(from as int);
    proof {
        if from < v.len() {
            assert(start[0] == s@[from as int]);
        }
        assert(trim_start(s@) == start);
    }
    let mut to: usize = v.len();
    assert(s@.subrange(from as int, to as int) =~= start);
    while from < to && white_space(v[to - 1])
        invariant
            v@ == s@,
            from <= to <= v.len(),
            trim_end(s@.subrange(from as int, to as int)) == trim_end(start),
        decreases to - from,
    {
        assert(s@.subrange(from as int, to as int).last() == s@[to - 1]);
        assert(s@.subrange(from as int, to as int).drop_last() =~= s@.subrange(
            from as int,
            to - 1,
        ));
        to = to - 1;
    }
    proof {
        if from < to {
            assert(s@.subrange(from as int, to as int).last() == s@[to - 1]);
        }
    }
    s.substring_char(from, to)
}

/// Whether `needle` stands somewhere in `s`.
pub fn contains_str(s: &str, needle: &str) -> (r: bool)
    ensures
        r == contains(s@, needle@),
{
    let v = chars(s);
    let p = chars(needle);
    if p.len() > v.len() {
        return false;
    }
    let mut i: usize = 0;
    while i <= v.len() - p.len()
        invariant
            v@ == s@,
            p@ == needle@,
            p.len() <= v.len(),
            i <= v.len() - p.len() + 1,
            forall|k: int|
                0 <= k < i ==> #[trigger] s@.subrange(k, k + needle@.len()) != needle@,
        decreases v.len() - p.len() + 1 - i,
    {
        let mut j: usize = 0;
        while j < p.len() && v[i + j] == p[j]
            invariant
                v@ == s@,
                p@ == needle@,
                j <= p.len(),
                i + p.len() <= v.len(),
                forall|k: int| 0 <= k < j ==> s@[i + k] == needle@[k],
            decreases p.len() - j,
        {
            j = j + 1;
        }
        let ghost here = s@.subrange(i as int, i + needle@.len());
        if j == p.len() {
            assert(here =~= needle@);
            return true;
        }
        assert(here[j as int] != needle@[j as int]);
        if i == v.len() - p.len() {
            return false;
        }
        i = i + 1;
    }
    false
}

/// The lower case of an ASCII letter; any other character as it is.
pub fn lower_char(c: char) -> (r: char)
    ensures
        r == ascii_lower(c),
{
    if 'A' <= c && c <= 'Z' {
        (c as u8 + 32) as char
    } else {
        c
    }
}

/// Turns the ASCII letters of a string into lower case.
pub fn to_ascii_lower(s: &str) -> (r: String)
    ensures
        r@ == ascii_lower_all(s@),
{
    let v = chars(s);
    let mut r = String::new();
    let mut i: usize = 0;
    while i < v.len()
        invariant
            v@ == s@,
            i <= v.len(),
            r@ == ascii_lower_all(s@.take(i as int)),
        decreases v.len() - i,
    {
        r.push(lower_char(v[i]));
        i = i + 1;
        assert(r@ =~= ascii_lower_all(s@.take(i as int)));
    }
    assert(s@.take(i as int) =~= s@);
    r
}

/// Whether two strings are the same but for the case of ASCII letters.
pub fn equal_ignore_case(a: &str, b: &str) -> (r: bool)
    ensures
        r == (ascii_lower_all(a@) == ascii_lower_all(b@)),
{
    let x = to_ascii_lower(a);
    let y = to_ascii_lower(b);
    equal(x.as_str(), y.as_str())
}

/// Whether a character is a hexadecimal digit.
pub fn hex_digit(c: char) -> (r: bool)
    ensures
        r == is_hex_digit(c),
{
    ('0' <= c && c <= '9') || ('a' <= c && c <= 'f') || ('A' <= c && c <= 'F')
}

/// Whether a string is made of hexadecimal digits alone.
pub fn all_hex_str(s: &str) -> (r: bool)
    ensures
        r == all_hex(s@),
{
    let v = chars(s);
    let mut i: usize = 0;
    while i < v.len()
        invariant
            v@ == s@,
            i <= v.len(),
            all_hex(s@.take(i as int)),
        decreases v.len() - i,
    {
        if !hex_digit(v[i]) {
            assert(!is_hex_digit(s@[i as int]));
            return false;
        }
        assert forall|j: int| 0 <= j < i + 1 implies is_hex_digit(
            #[trigger] s@.take(i + 1)[j],
        ) by {
            if j < i {
                assert(s@.take(i as int)[j] == s@[j]);
            }
        }
        i = i + 1;
    }
    assert(s@.take(i as int) =~= s@);
    true
}

/// The number of bytes of a string.
pub fn len_bytes(s: &str) -> (n: usize)
    ensures
        n == byte_len(s@),
{
    s.as_bytes().len()
}

/// Appends `n` in decimal.
pub fn push_decimal(s: &mut String, n: u64)
    ensures
        final(s)@ == old(s)@ + decimal(n as nat),
    decreases n,
{
    let d: u64 = n % 10;
    if n >= 10 {
        push_decimal(s, n / 10);
    }
    proof {
        assert(48 <= 48 + d <= 57);
    }
    let c: char = (48u8 + d as u8) as char;
    s.push(c);
    assert(s@ =~= old(s)@ + decimal(n as nat));
}

/// The digits at the front of a string stand for no more than all of them.
proof fn lemma_digits_value_grows(s: Seq<char>, i: int)
    requires
        0 <= i <= s.len(),
        all_digits(s),
    ensures
        digits_value(s.take(i)) <= digits_value(s),
    decreases s.len(),
{
    if i == s.len() {
        assert(s.take(i) =~= s);
    } else {
        let front = s.drop_last();
        assert(all_digits(front));
        lemma_digits_value_grows(front, i);
        assert(front.take(i) =~= s.take(i));
        assert(is_digit(s[s.len() - 1]));
    }
}

/// Reads the decimal digits of `v` from `from` on.
fn read_digits(v: &Vec<char>, from: usize, max: u64) -> (r: Option<u64>)
    requires
        from <= v@.len(),
    ensures
        match r {
            Some(n) => parse_digits(v@.skip(from as int), max as nat) == Some(n as nat),
            None => parse_digits(v@.skip(from as int), max as nat) is None,
        },
{
    let ghost s = v@.skip(from as int);
    if from == v.len() {
        return None;
    }
    let mut n: u64 = 0;
    let mut i: usize = from;
    assert(s.take(0) =~= Seq::<char>::empty());
    while i < v.len()
        invariant
            from <= i <= v.len(),
            s == v@.skip(from as int),
            all_digits(s.take(i - from)),
            n == digits_value(s.take(i - from)),
            n <= max,
        decreases v.len() - i,
    {
        let c: char = v[i];
        assert(s[i - from] == c);
        if !('0' <= c && c <= '9') {
            assert(!is_digit(s[i - from]));
            return None;
        }
        let d: u64 = (c as u32 - 48) as u64;
        let next: u128 = n as u128 * 10 + d as u128;
        let ghost longer = s.take(i - from + 1);
        proof {
            assert(longer.drop_last() =~= s.take(i - from));
            assert(longer.last() == c);
            assert(all_digits(longer)) by {
                assert forall|j: int| 0 <= j < longer.len() implies is_digit(
                    #[trigger] longer[j],
                ) by {
                    if j < i - from {
                        assert(longer[j] == s.take(i - from)[j]);
                    }
                }
            }
        }
        if next > max as u128 {
            proof {
                if all_digits(s) {
                    lemma_digits_value_grows(s, i - from + 1);
                }
            }
            return None;
        }
        n = next as u64;
        i = i + 1;
    }
    assert(s.take(i - from) =~= s);
    Some(n)
}

/// Reads an unsigned number.
pub fn read_unsigned(s: &str, max: u64) -> (r: Option<u64>)
    ensures
        match r {
            Some(n) => parse_unsigned(s@, max as nat) == Some(n as nat),
            None => parse_unsigned(s@, max as nat) is None,
        },
{
    let v = chars(s);
    assert(v@.skip(0) =~= s@);
    if v.len() > 0 && v[0] == '+' {
        read_digits(&v, 1, max)
    } else {
        read_digits(&v, 0, max)
    }
}

/// Reads a signed number.
pub fn read_i64(s: &str) -> (r: Option<i64>)
    ensures
        match r {
            Some(n) => parse_signed(s@, i64::MAX as nat) == Some(n as int),
            None => parse_signed(s@, i64::MAX as nat) is None,
        },
{
    let v = chars(s);
    assert(v@.skip(0) =~= s@);
    if v.len() > 0 && v[0] == '-' {
        match read_digits(&v, 1, i64::MAX as u64 + 1) {
            Some(n) => {
                if n == i64::MAX as u64 + 1 {
                    Some(i64::MIN)
                } else {
                    Some(-(n as i64))
                }
            },
            None => None,
        }
    } else {
        match read_unsigned(s, i64::MAX as u64) {
            Some(n) => Some(n as i64),
            None => None,
        }
    }
}

/// A word is found wherever it stands.
pub proof fn law_a_word_is_found_anywhere(before: Seq<char>, word: Seq<char>, after: Seq<char>)
    ensures
        contains(before + word + after, word),
{
    let s = before + word + after;
    let i = before.len() as int;
    assert(s.subrange(i, i + word.len()) =~= word);
}

/// A word that is longer than a text does not stand in it.
pub proof fn law_no_word_is_longer_than_its_text(s: Seq<char>, word: Seq<char>)
    requires
        contains(s, word),
    ensures
        word.len() <= s.len(),
        exists|i: int|
            0 <= i <= s.len() - word.len() && #[trigger] s.subrange(i, i + word.len()) == word,
{
}

/// What stands after the last separator is the last part, and what stands before it splits
/// as it does alone.
pub proof fn law_the_last_part_follows_the_last_separator(
    front: Seq<char>,
    sep: char,
    last: Seq<char>,
)
    requires
        free_of(last, sep),
    ensures
        split(front.push(sep) + last, sep) == split(front, sep).push(last),
    decreases front.len(),
{
    let s = front.push(sep) + last;
    lemma_index_of(front, sep);
    let i = index_of(front, sep);
    let head = front.take(i);
    lemma_split_single(last, sep);
    if i < front.len() {
        let rest = front.skip(i + 1);
        law_the_last_part_follows_the_last_separator(rest, sep, last);
        assert(s =~= head.push(sep) + (rest.push(sep) + last));
        assert(front =~= head.push(sep) + rest);
        lemma_split_join(head, sep, rest.push(sep) + last);
        lemma_split_join(head, sep, rest);
        assert(split(s, sep) =~= split(front, sep).push(last));
    } else {
        assert(free_of(front, sep));
        lemma_split_join(front, sep, last);
        lemma_split_single(front, sep);
        assert(split(s, sep) =~= split(front, sep).push(last));
    }
}

/// A prefix comes off exactly where the text begins with it.
pub proof fn law_a_prefix_comes_off(prefix: Seq<char>, rest: Seq<char>, other: Seq<char>)
    requires
        !prefix.is_prefix_of(other),
    ensures
        strip_prefix(prefix + rest, prefix) == Some(rest),
        strip_prefix(other, prefix) is None,
{
    assert((prefix + rest).skip(prefix.len() as int) =~= rest);
    assert(prefix.is_prefix_of(prefix + rest));
}

/// White space comes off at both ends, and nowhere else.
pub proof fn law_white_space_comes_off_at_both_ends(s: Seq<char>, c: char)
    requires
        is_white_space(c),
        s.len() > 0,
        !is_white_space(s[0]),
        !is_white_space(s.last()),
    ensures
        trim(s) == s,
        trim(seq![c] + s) == s,
        trim(s.push(c)) == s,
        trim(seq![c] + s.push(c)) == s,
        trim(seq![c]) == Seq::<char>::empty(),
{
    let a = seq![c] + s;
    assert(a.skip(1) =~= s);
    assert(trim_start(s) == s);
    let b = s.push(c);
    assert(b.drop_last() =~= s);
    assert(trim_start(b) == b);
    assert(trim_end(b) == trim_end(s));
    let d = seq![c] + b;
    assert(d.skip(1) =~= b);
    assert(seq![c].skip(1) =~= Seq::<char>::empty());
    assert(trim_start(seq![c]) == trim_start(Seq::<char>::empty()));
}

/// Spaces, tabs and line ends are white space; letters, digits and signs are not.
pub proof fn law_white_space_is_no_letter(c: char)
    ensures
        c == ' ' || c == '\t' || c == '\n' || c == '\r' ==> is_white_space(c),
        '!' <= c <= '~' ==> !is_white_space(c),
{
}

/// Lower case changes the letters `A` to `Z` alone, each to its own, keeps the length, and
/// changes nothing the second time.
pub proof fn law_lower_case_changes_capitals_alone(s: Seq<char>)
    ensures
        ascii_lower_all(s).len() == s.len(),
        forall|i: int|
            0 <= i < s.len() && !('A' <= s[i] <= 'Z') ==> #[trigger] ascii_lower_all(s)[i] == s[i],
        forall|i: int|
            0 <= i < s.len() && 'A' <= s[i] <= 'Z' ==> #[trigger] ascii_lower_all(s)[i] as u32
                == s[i] as u32 + 32,
        ascii_lower_all(ascii_lower_all(s)) == ascii_lower_all(s),
{
    let lower = ascii_lower_all(s);
    assert(ascii_lower_all(lower) =~= lower);
}

/// A number in decimal reads back as the number, up to the largest that is asked for, with
/// a plus sign or without; with a minus sign as its opposite.
pub proof fn law_decimal_reads_back(n: nat, max: nat)
    ensures
        n <= max ==> parse_unsigned(decimal(n), max) == Some(n),
        n <= max ==> parse_unsigned(seq!['+'] + decimal(n), max) == Some(n),
        n > max ==> parse_unsigned(decimal(n), max) is None,
        n <= max ==> parse_signed(decimal(n), max) == Some(n as int),
        n <= max + 1 ==> parse_signed(seq!['-'] + decimal(n), max) == Some(-n),
        n > max + 1 ==> parse_signed(seq!['-'] + decimal(n), max) is None,
        parse_unsigned(seq!['-'] + decimal(n), max) is None,
        parse_unsigned(Seq::empty(), max) is None,
{
    lemma_decimal(n);
    let d = decimal(n);
    let plus = seq!['+'] + d;
    let minus = seq!['-'] + d;
    assert(plus.skip(1) =~= d);
    assert(minus.skip(1) =~= d);
    assert(is_digit(d[0]));
    assert(!is_digit(minus[0]));
}

/// A number in decimal is made of digits, which stand for it.
proof fn lemma_decimal(n: nat)
    ensures
        decimal(n).len() > 0,
        all_digits(decimal(n)),
        digits_value(decimal(n)) == n,
    decreases n,
{
    if n < 10 {
        assert(decimal(n).drop_last() =~= Seq::<char>::empty());
        assert(digits_value(Seq::<char>::empty()) == 0);
    } else {
        lemma_decimal(n / 10);
        assert(decimal(n).drop_last() =~= decimal(n / 10));
    }
}

/// What holds a character that is no digit is no number.
pub proof fn law_only_digits_are_numbers(s: Seq<char>, i: int, max: nat)
    requires
        0 <= i < s.len(),
        !('0' <= s[i] <= '9'),
        i > 0 || (s[0] != '+' && s[0] != '-'),
    ensures
        parse_unsigned(s, max) is None,
        parse_signed(s, max) is None,
{
    if i > 0 {
        assert(s.skip(1)[i - 1] == s[i]);
    }
    assert(!is_digit(s[i]));
}

/// A text is cut at its first separator, which belongs to neither part; one that holds none
/// is not cut.
pub proof fn law_a_text_is_cut_at_its_first_separator(
    head: Seq<char>,
    sep: char,
    tail: Seq<char>,
)
    requires
        free_of(head, sep),
    ensures
        split_once(head.push(sep) + tail, sep) == Some((head, tail)),
        split_once(head, sep) is None,
{
    lemma_split_join(head, sep, tail);
    lemma_split_single(head, sep);
}

/// A word is found in a text that it is a part of, and a text is taken apart at each
/// separator.
pub proof fn law_texts_are_searched_and_split(
    s: &str,
    before: Seq<char>,
    needle: &str,
    after: Seq<char>,
    sep: char,
    found: bool,
    parts: Vec<&str>,
)
    requires
        call_ensures(contains_str, (s, needle), found),
        call_ensures(split_str, (s, sep), parts),
        s@ == before + needle@ + after,
    ensures
        found,
        free_of(s@, sep) ==> parts@.len() == 1 && parts@[0]@ == s@,
        !free_of(s@, sep) ==> parts@.len() > 1,
{
    law_a_word_is_found_anywhere(before, needle@, after);
    let all = views(parts@);
    assert(all.len() == parts@.len());
    if free_of(s@, sep) {
        lemma_split_single(s@, sep);
        assert(all[0] == parts@[0]@);
    } else {
        lemma_index_of(s@, sep);
        let i = index_of(s@, sep);
        let head = s@.take(i);
        let tail = s@.skip(i + 1);
        assert(free_of(head, sep));
        assert(s@ =~= head.push(sep) + tail);
        lemma_split_join(head, sep, tail);
        lemma_split_nonempty(tail, sep);
    }
}

/// A text has at least one part.
proof fn lemma_split_nonempty(s: Seq<char>, sep: char)
    ensures
        split(s, sep).len() > 0,
{
}

} // verus!
