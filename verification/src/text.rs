//! Strings as sequences of characters.

use vstd::prelude::*;

verus! {

/// `String::push` of the standard library appends the character to the end
/// of the string.
pub assume_specification[ String::push ](s: &mut String, ch: char)
    ensures
        final(s)@ == old(s)@.push(ch),
;

/// The characters of `s`, in order.
pub fn chars_of(s: &str) -> (chars: Vec<char>)
    ensures
        chars@ == s@,
{
    let mut chars: Vec<char> = Vec::new();
    for c in it: s.chars()
        invariant
            chars@ == it.seq().take(it.index() as int),
            it.seq() == s@,
    {
        chars.push(c);
    }
    chars
}

/// The string made of `chars`, in order.
pub fn string_of(chars: &Vec<char>) -> (s: String)
    ensures
        s@ == chars@,
{
    let mut s = String::new();
    let mut i: usize = 0;
    while i < chars.len()
        invariant
            i <= chars@.len(),
            s@ == chars@.take(i as int),
        decreases chars@.len() - i,
    {
        s.push(chars[i]);
        i += 1;
    }
    s
}

/// Whether `a` and `b` hold the same characters.
pub fn same_chars(a: &Vec<char>, b: &Vec<char>) -> (same: bool)
    ensures
        same == (a@ == b@),
{
    if a.len() != b.len() {
        return false;
    }
    let mut i: usize = 0;
    while i < a.len()
        invariant
            a@.len() == b@.len(),
            i <= a@.len(),
            a@.take(i as int) == b@.take(i as int),
        decreases a@.len() - i,
    {
        if a[i] != b[i] {
            return false;
        }
        assert(a@.take(i + 1) == a@.take(i as int).push(a@[i as int]));
        assert(b@.take(i + 1) == b@.take(i as int).push(b@[i as int]));
        i += 1;
    }
    assert(a@ == a@.take(a@.len() as int));
    assert(b@ == b@.take(b@.len() as int));
    true
}

/// Whether `a` and `b` are the same text.
pub fn same_text(a: &str, b: &str) -> (same: bool)
    ensures
        same == (a@ == b@),
{
    same_chars(&chars_of(a), &chars_of(b))
}

/// The text `s` with every occurrence of `from`, found from the left and
/// not overlapping, replaced by `to`. An empty `from` occurs nowhere.
pub open spec fn replaced(s: Seq<char>, from: Seq<char>, to: Seq<char>) -> Seq<char>
    decreases s.len(),
{
    if from.len() == 0 || s.len() < from.len() {
        s
    } else if s.subrange(0, from.len() as int) == from {
        to + replaced(s.subrange(from.len() as int, s.len() as int), from, to)
    } else {
        seq![s[0]] + replaced(s.subrange(1, s.len() as int), from, to)
    }
}

/// Whether `from` occurs in `s` at the position `at`.
fn occurs_at(s: &Vec<char>, at: usize, from: &Vec<char>) -> (occurs: bool)
    requires
        at <= s@.len(),
    ensures
        occurs == (at + from@.len() <= s@.len() && s@.subrange(
            at as int,
            at + from@.len(),
        ) == from@),
{
    if from.len() > s.len() - at {
        return false;
    }
    let mut i: usize = 0;
    while i < from.len()
        invariant
            at + from@.len() <= s@.len() <= usize::MAX,
            i <= from@.len(),
            s@.subrange(at as int, at + i) == from@.take(i as int),
        decreases from@.len() - i,
    {
        if s[at + i] != from[i] {
            assert(s@.subrange(at as int, at + from@.len())[i as int] != from@[i as int]);
            return false;
        }
        assert(s@.subrange(at as int, at + i + 1) == s@.subrange(at as int, at + i).push(
            s@[at + i],
        ));
        assert(from@.take(i + 1) == from@.take(i as int).push(from@[i as int]));
        i += 1;
    }
    assert(from@.take(from@.len() as int) == from@);
    true
}

/// The characters of `s` with every occurrence of `from` replaced by `to`.
pub fn replace(s: &Vec<char>, from: &Vec<char>, to: &Vec<char>) -> (out: Vec<char>)
    ensures
        out@ == replaced(s@, from@, to@),
{
    if from.len() == 0 {
        return s.clone();
    }
    let mut out: Vec<char> = Vec::new();
    let mut i: usize = 0;
    assert(s@.subrange(0, s@.len() as int) == s@);
    assert(out@ + replaced(s@, from@, to@) == replaced(s@, from@, to@));
    while i < s.len()
        invariant
            i <= s@.len(),
            from@.len() > 0,
            replaced(s@, from@, to@) == out@ + replaced(
                s@.subrange(i as int, s@.len() as int),
                from@,
                to@,
            ),
        decreases s@.len() - i,
    {
        let ghost rest = s@.subrange(i as int, s@.len() as int);
        if occurs_at(s, i, from) {
            assert(rest.subrange(0, from@.len() as int) == s@.subrange(
                i as int,
                i + from@.len(),
            ));
            assert(rest.subrange(from@.len() as int, rest.len() as int) == s@.subrange(
                i + from@.len(),
                s@.len() as int,
            ));
            let ghost before = out@;
            let mut j: usize = 0;
            while j < to.len()
                invariant
                    j <= to@.len(),
                    out@ == before + to@.take(j as int),
                decreases to@.len() - j,
            {
                out.push(to[j]);
                assert(to@.take(j + 1) == to@.take(j as int).push(to@[j as int]));
                j += 1;
            }
            assert(to@.take(to@.len() as int) == to@);
            assert(before + (to@ + replaced(
                s@.subrange(i + from@.len(), s@.len() as int),
                from@,
                to@,
            )) == (before + to@) + replaced(
                s@.subrange(i + from@.len(), s@.len() as int),
                from@,
                to@,
            ));
            i += from.len();
        } else {
            proof {
                let tail = replaced(s@.subrange(i + 1, s@.len() as int), from@, to@);
                assert(rest.subrange(1, rest.len() as int) == s@.subrange(i + 1, s@.len() as int));
                if rest.len() >= from@.len() {
                    assert(rest.subrange(0, from@.len() as int) == s@.subrange(
                        i as int,
                        i + from@.len(),
                    ));
                } else {
                    lemma_short_is_kept(rest, from@, to@);
                    lemma_short_is_kept(s@.subrange(i + 1, s@.len() as int), from@, to@);
                    assert(rest == seq![rest[0]] + rest.subrange(1, rest.len() as int));
                }
                assert(replaced(rest, from@, to@) == seq![s@[i as int]] + tail);
                assert(out@ + (seq![s@[i as int]] + tail) == out@.push(s@[i as int]) + tail);
            }
            out.push(s[i]);
            i += 1;
        }
    }
    assert(s@.subrange(s@.len() as int, s@.len() as int) == Seq::<char>::empty());
    assert(out@ + Seq::<char>::empty() == out@);
    out
}

/// A text shorter than `from` has no occurrence of it.
pub proof fn lemma_short_is_kept(s: Seq<char>, from: Seq<char>, to: Seq<char>)
    requires
        s.len() < from.len(),
    ensures
        replaced(s, from, to) == s,
{
}

/// Whether `c` is white space: one of the characters with the Unicode
/// property `White_Space`.
pub open spec fn spec_is_whitespace(c: char) -> bool {
    let n = c as u32;
    ||| 0x09 <= n <= 0x0d
    ||| n == 0x20
    ||| n == 0x85
    ||| n == 0xa0
    ||| n == 0x1680
    ||| 0x2000 <= n <= 0x200a
    ||| n == 0x2028
    ||| n == 0x2029
    ||| n == 0x202f
    ||| n == 0x205f
    ||| n == 0x3000
}

/// Whether `c` is white space.
#[verifier::when_used_as_spec(spec_is_whitespace)]
pub fn is_whitespace(c: char) -> (white: bool)
    ensures
        white == spec_is_whitespace(c),
{
    let n: u32 = c as u32;
    (0x09 <= n && n <= 0x0d) || n == 0x20 || n == 0x85 || n == 0xa0 || n == 0x1680 || (0x2000 <= n
        && n <= 0x200a) || n == 0x2028 || n == 0x2029 || n == 0x202f || n == 0x205f || n == 0x3000
}

/// The text `s` without its white space.
pub open spec fn without_whitespace(s: Seq<char>) -> Seq<char> {
    s.filter(|c: char| !spec_is_whitespace(c))
}

/// The characters of `s` that are not white space, in order.
pub fn remove_whitespace(s: &Vec<char>) -> (out: Vec<char>)
    ensures
        out@ == without_whitespace(s@),
{
    let mut out: Vec<char> = Vec::new();
    let mut i: usize = 0;
    proof {
        reveal(Seq::filter);
        assert(s@.take(0) == Seq::<char>::empty());
    }
    while i < s.len()
        invariant
            i <= s@.len(),
            out@ == without_whitespace(s@.take(i as int)),
        decreases s@.len() - i,
    {
        proof {
            reveal(Seq::filter);
            assert(s@.take(i + 1).drop_last() == s@.take(i as int));
        }
        if !is_whitespace(s[i]) {
            out.push(s[i]);
        }
        i += 1;
    }
    assert(s@.take(s@.len() as int) == s@);
    out
}

/// The text `s` without the characters `c` at its start.
pub open spec fn trim_start(s: Seq<char>, c: char) -> Seq<char>
    decreases s.len(),
{
    if s.len() > 0 && s[0] == c {
        trim_start(s.drop_first(), c)
    } else {
        s
    }
}

/// The text `s` without the characters `c` at its end.
pub open spec fn trim_end(s: Seq<char>, c: char) -> Seq<char>
    decreases s.len(),
{
    if s.len() > 0 && s.last() == c {
        trim_end(s.drop_last(), c)
    } else {
        s
    }
}

/// The text `s` without the characters `c` at its start and at its end.
pub open spec fn trimmed(s: Seq<char>, c: char) -> Seq<char> {
    trim_end(trim_start(s, c), c)
}

/// The characters of `s` between the first and the last that differ from
/// `c`, these two included.
pub fn trim_matches(s: &Vec<char>, c: char) -> (out: Vec<char>)
    ensures
        out@ == trimmed(s@, c),
{
    let mut from: usize = 0;
    assert(s@.subrange(0, s@.len() as int) == s@);
    while from < s.len() && s[from] == c
        invariant
            from <= s@.len(),
            trim_start(s@, c) == trim_start(s@.subrange(from as int, s@.len() as int), c),
        decreases s@.len() - from,
    {
        assert(s@.subrange(from as int, s@.len() as int).drop_first() == s@.subrange(
            from + 1,
            s@.len() as int,
        ));
        from += 1;
    }
    let mut to: usize = s.len();
    assert(trim_start(s@, c) == s@.subrange(from as int, to as int));
    while to > from && s[to - 1] == c
        invariant
            from <= to <= s@.len(),
            trimmed(s@, c) == trim_end(s@.subrange(from as int, to as int), c),
        decreases to,
    {
        assert(s@.subrange(from as int, to as int).drop_last() == s@.subrange(
            from as int,
            to - 1,
        ));
        to -= 1;
    }
    assert(trimmed(s@, c) == s@.subrange(from as int, to as int));
    let mut out: Vec<char> = Vec::new();
    let mut i: usize = from;
    while i < to
        invariant
            from <= i <= to <= s@.len(),
            out@ == s@.subrange(from as int, i as int),
        decreases to - i,
    {
        out.push(s[i]);
        assert(s@.subrange(from as int, i + 1) == s@.subrange(from as int, i as int).push(
            s@[i as int],
        ));
        i += 1;
    }
    out
}

/// The value of a hexadecimal digit, in either case.
pub open spec fn spec_hex_digit(c: char) -> Option<u32> {
    let n = c as u32;
    if 0x30 <= n <= 0x39 {
        Some((n - 0x30) as u32)
    } else if 0x61 <= n <= 0x66 {
        Some((n - 0x61 + 10) as u32)
    } else if 0x41 <= n <= 0x46 {
        Some((n - 0x41 + 10) as u32)
    } else {
        None
    }
}

/// The value of a hexadecimal digit, in either case.
#[verifier::when_used_as_spec(spec_hex_digit)]
pub fn hex_digit(c: char) -> (digit: Option<u32>)
    ensures
        digit == spec_hex_digit(c),
        digit matches Some(d) ==> d < 16,
{
    let n: u32 = c as u32;
    if 0x30 <= n && n <= 0x39 {
        Some(n - 0x30)
    } else if 0x61 <= n && n <= 0x66 {
        Some(n - 0x61 + 10)
    } else if 0x41 <= n && n <= 0x46 {
        Some(n - 0x41 + 10)
    } else {
        None
    }
}

/// The number that a row of hexadecimal digits writes, the most significant
/// digit first; the empty row writes zero. There is none where a character
/// is no digit.
pub open spec fn hex_value(digits: Seq<char>) -> Option<nat>
    decreases digits.len(),
{
    if digits.len() == 0 {
        Some(0)
    } else {
        match (hex_value(digits.drop_last()), spec_hex_digit(digits.last())) {
            (Some(value), Some(digit)) => Some(value * 16 + digit as nat),
            _ => None,
        }
    }
}

/// The 32-bit number that `s` writes in hexadecimal: an optional plus sign
/// and at least one digit, with a value that fits. There is none otherwise.
pub open spec fn spec_parse_hex(s: Seq<char>) -> Option<u32> {
    let digits = if s.len() > 0 && s[0] == '+' {
        s.drop_first()
    } else {
        s
    };
    if digits.len() == 0 {
        None
    } else {
        match hex_value(digits) {
            Some(value) => if value <= u32::MAX {
                Some(value as u32)
            } else {
                None
            },
            None => None,
        }
    }
}

/// Where a row of digits writes a number, each of its characters is a digit,
/// and each shorter row from its start writes a number that is no greater.
pub proof fn lemma_hex_prefix(digits: Seq<char>, k: int)
    requires
        0 <= k <= digits.len(),
        hex_value(digits) is Some,
    ensures
        hex_value(digits.take(k)) is Some,
        hex_value(digits.take(k))->Some_0 <= hex_value(digits)->Some_0,
        k < digits.len() ==> spec_hex_digit(digits[k]) is Some,
    decreases digits.len(),
{
    if k == digits.len() {
        assert(digits.take(k) == digits);
    } else {
        lemma_hex_prefix(digits.drop_last(), k);
        assert(digits.drop_last().take(k) == digits.take(k));
        if k < digits.len() - 1 {
            assert(digits.drop_last()[k] == digits[k]);
        }
    }
}

/// The 32-bit number that the characters from `start` on write in
/// hexadecimal. There is none where `s` does not reach `start`.
pub fn parse_hex(s: &Vec<char>, start: usize) -> (number: Option<u32>)
    ensures
        start <= s@.len() ==> number == spec_parse_hex(
            s@.subrange(start as int, s@.len() as int),
        ),
        start > s@.len() ==> number is None,
{
    if start > s.len() {
        return None;
    }
    let ghost text = s@.subrange(start as int, s@.len() as int);
    let mut i: usize = start;
    if i < s.len() && s[i] == '+' {
        i += 1;
        assert(text.drop_first() == s@.subrange(i as int, s@.len() as int));
    }
    let first: usize = i;
    let ghost digits = s@.subrange(first as int, s@.len() as int);
    if i == s.len() {
        return None;
    }
    let mut value: u32 = 0;
    assert(digits.take(0) == Seq::<char>::empty());
    while i < s.len()
        invariant
            first <= i <= s@.len(),
            first < s@.len(),
            digits == s@.subrange(first as int, s@.len() as int),
            digits == (if text.len() > 0 && text[0] == '+' {
                text.drop_first()
            } else {
                text
            }),
            text == s@.subrange(start as int, s@.len() as int),
            hex_value(digits.take(i - first)) == Some(value as nat),
        decreases s@.len() - i,
    {
        proof {
            assert(digits.take(i - first + 1).drop_last() == digits.take(i - first));
            assert(digits.take(i - first + 1).last() == s@[i as int]);
            if hex_value(digits) is Some {
                lemma_hex_prefix(digits, i - first + 1);
            }
        }
        match hex_digit(s[i]) {
            None => {
                return None;
            },
            Some(digit) => {
                if value > (u32::MAX - digit) / 16 {
                    return None;
                }
                value = value * 16 + digit;
            },
        }
        i += 1;
    }
    assert(digits.take(digits.len() as int) == digits);
    Some(value)
}

/// The path of `name` below the directory `base`: a separator is put between
/// the two where `base` does not end with one, and a `name` that starts at
/// the root stands alone.
pub open spec fn joined(base: Seq<char>, name: Seq<char>) -> Seq<char> {
    if name.len() > 0 && name[0] == '/' {
        name
    } else if base.len() == 0 || base.last() == '/' {
        base + name
    } else {
        base + seq!['/'] + name
    }
}

/// The path of `name` below the directory `base`.
pub fn join(base: &Vec<char>, name: &Vec<char>) -> (path: Vec<char>)
    ensures
        path@ == joined(base@, name@),
{
    let mut path: Vec<char> = Vec::new();
    if !(name.len() > 0 && name[0] == '/') {
        let mut i: usize = 0;
        while i < base.len()
            invariant
                i <= base@.len(),
                path@ == base@.take(i as int),
            decreases base@.len() - i,
        {
            path.push(base[i]);
            assert(base@.take(i + 1) == base@.take(i as int).push(base@[i as int]));
            i += 1;
        }
        assert(base@.take(base@.len() as int) == base@);
        if base.len() > 0 && base[base.len() - 1] != '/' {
            path.push('/');
        }
    }
    let ghost before = path@;
    let mut j: usize = 0;
    while j < name.len()
        invariant
            j <= name@.len(),
            path@ == before + name@.take(j as int),
        decreases name@.len() - j,
    {
        path.push(name[j]);
        assert(name@.take(j + 1) == name@.take(j as int).push(name@[j as int]));
        j += 1;
    }
    assert(name@.take(name@.len() as int) == name@);
    path
}

/// The path of `name` below the directory `base`, as text.
pub fn join_text(base: &str, name: &str) -> (path: String)
    ensures
        path@ == joined(base@, name@),
{
    string_of(&join(&chars_of(base), &chars_of(name)))
}

/// What follows the first `c` in `s`, if `c` occurs in `s`.
pub open spec fn after_first(s: Seq<char>, c: char) -> Option<Seq<char>>
    decreases s.len(),
{
    if s.len() == 0 {
        None
    } else if s[0] == c {
        Some(s.drop_first())
    } else {
        after_first(s.drop_first(), c)
    }
}

/// The characters that follow the first `c` in `s`, if `c` occurs in `s`.
pub fn split_after(s: &Vec<char>, c: char) -> (rest: Option<Vec<char>>)
    ensures
        match rest {
            Some(found) => after_first(s@, c) == Some(found@),
            None => after_first(s@, c) is None,
        },
{
    let mut i: usize = 0;
    assert(s@.skip(0) == s@);
    while i < s.len() && s[i] != c
        invariant
            i <= s@.len(),
            after_first(s@, c) == after_first(s@.skip(i as int), c),
        decreases s@.len() - i,
    {
        assert(s@.skip(i as int).drop_first() == s@.skip(i + 1));
        i += 1;
    }
    if i == s.len() {
        return None;
    }
    assert(s@.skip(i as int).drop_first() == s@.skip(i + 1));
    let mut rest: Vec<char> = Vec::new();
    let mut j: usize = i + 1;
    while j < s.len()
        invariant
            i < j <= s@.len(),
            rest@ == s@.subrange(i + 1, j as int),
        decreases s@.len() - j,
    {
        rest.push(s[j]);
        assert(s@.subrange(i + 1, j + 1) == s@.subrange(i + 1, j as int).push(s@[j as int]));
        j += 1;
    }
    assert(s@.subrange(i + 1, s@.len() as int) == s@.skip(i + 1));
    Some(rest)
}

} // verus!
