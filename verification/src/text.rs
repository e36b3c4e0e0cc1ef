//! Text as the shell reads and writes it: trimming, searching, decimal numbers.

use vstd::prelude::*;
use vstd::string::*;

verus! {

/// The Unicode `White_Space` property, which `char::is_whitespace` tests.
pub open spec fn is_white_space(c: char) -> bool {
    let n = c as u32;
    ||| 0x9 <= n <= 0xd
    ||| n == 0x20
    ||| n == 0x85
    ||| n == 0xa0
    ||| n == 0x1680
    ||| 0x2000 <= n <= 0x200a
    ||| n == 0x2028
    ||| n == 0x2029
    ||| n == 0x202f
    ||| n == 0x205f
    ||| n == 0x3000
}

/// Tests a character for the `White_Space` property.
pub fn is_space(c: char) -> (r: bool)
    ensures
        r == is_white_space(c),
{
    let n: u32 = c as u32;
    (0x9 <= n && n <= 0xd) || n == 0x20 || n == 0x85 || n == 0xa0 || n == 0x1680 || (0x2000 <= n
        && n <= 0x200a) || n == 0x2028 || n == 0x2029 || n == 0x202f || n == 0x205f || n == 0x3000
}

/// Every character is white space; the empty text is blank.
pub open spec fn is_blank(s: Seq<char>) -> bool {
    forall|i: int| 0 <= i < s.len() ==> is_white_space(#[trigger] s[i])
}

/// `s` without its leading white space.
pub open spec fn trimmed_start(s: Seq<char>) -> Seq<char>
    decreases s.len(),
{
    if s.len() > 0 && is_white_space(s[0]) {
        trimmed_start(s.skip(1))
    } else {
        s
    }
}

/// `s` without its trailing white space.
pub open spec fn trimmed_end(s: Seq<char>) -> Seq<char>
    decreases s.len(),
{
    if s.len() > 0 && is_white_space(s.last()) {
        trimmed_end(s.drop_last())
    } else {
        s
    }
}

/// `s` without the white space at both ends.
pub open spec fn trimmed(s: Seq<char>) -> Seq<char> {
    trimmed_end(trimmed_start(s))
}

/// The characters of a text, one by one.
pub fn chars_of(s: &str) -> (v: Vec<char>)
    ensures
        v@ == s@,
{
    let mut v: Vec<char> = Vec::new();
    for c in it: s.chars()
        invariant
            it.seq() == s@,
            v@ == s@.take(it.index() as int),
    {
        v.push(c);
        assert(s@.take(it.index() as int + 1) =~= s@.take(it.index() as int).push(c));
    }
    assert(s@.take(s@.len() as int) =~= s@);
    v
}


/// Trims white space at both ends, as `str::trim` does.
pub fn trim(s: &str) -> (r: &str)
    ensures
        r@ == trimmed(s@),
{
    let v = chars_of(s);
    let mut a: usize = 0;
    assert(s@.skip(0) =~= s@);
    while a < v.len() && is_space(v[a])
        invariant
            v@ == s@,
            a <= v.len(),
            trimmed_start(s@) == trimmed_start(s@.skip(a as int)),
        decreases v.len() - a,
    {
        assert(s@.skip(a as int).skip(1) =~= s@.skip(a as int + 1));
        a = a + 1;
    }
    let mut b: usize = v.len();
    assert(s@.subrange(a as int, b as int) =~= s@.skip(a as int));
    while b > a && is_space(v[b - 1])
        invariant
            v@ == s@,
            a <= b <= v.len(),
            trimmed_end(s@.skip(a as int)) == trimmed_end(s@.subrange(a as int, b as int)),
        decreases b,
    {
        assert(s@.subrange(a as int, b as int).drop_last() =~= s@.subrange(a as int, b as int - 1));
        b = b - 1;
    }
    assert(b > a ==> s@.subrange(a as int, b as int).last() == v@[b - 1]);
    s.substring_char(a, b)
}

/// A text trims to nothing exactly when it is blank.
pub proof fn lemma_trimmed_empty(s: Seq<char>)
    ensures
        trimmed(s).len() == 0 <==> is_blank(s),
{
    lemma_trimmed_start(s);
    lemma_trimmed_end(trimmed_start(s));
}

proof fn lemma_trimmed_start(s: Seq<char>)
    ensures
        is_blank(trimmed_start(s)) <==> is_blank(s),
        trimmed_start(s).len() > 0 ==> !is_white_space(trimmed_start(s)[0]),
    decreases s.len(),
{
    if s.len() > 0 && is_white_space(s[0]) {
        lemma_trimmed_start(s.skip(1));
        if is_blank(s.skip(1)) {
            assert forall|i: int| 0 <= i < s.len() implies is_white_space(#[trigger] s[i]) by {
                if i > 0 {
                    assert(s.skip(1)[i - 1] == s[i]);
                }
            }
        }
        if is_blank(s) {
            assert forall|i: int| 0 <= i < s.skip(1).len() implies is_white_space(
                #[trigger] s.skip(1)[i],
            ) by {
                assert(s.skip(1)[i] == s[i + 1]);
            }
        }
    }
}

proof fn lemma_trimmed_end(s: Seq<char>)
    ensures
        trimmed_end(s).len() == 0 <==> is_blank(s),
        trimmed_end(s).len() > 0 ==> trimmed_end(s)[0] == s[0] && !is_white_space(
            trimmed_end(s).last(),
        ),
    decreases s.len(),
{
    if s.len() > 0 && is_white_space(s.last()) {
        lemma_trimmed_end(s.drop_last());
        if is_blank(s.drop_last()) {
            assert forall|i: int| 0 <= i < s.len() implies is_white_space(#[trigger] s[i]) by {
                if i < s.len() - 1 {
                    assert(s.drop_last()[i] == s[i]);
                }
            }
        }
        if is_blank(s) {
            assert forall|i: int| 0 <= i < s.drop_last().len() implies is_white_space(
                #[trigger] s.drop_last()[i],
            ) by {
                assert(s.drop_last()[i] == s[i]);
            }
        }
    } else if s.len() > 0 {
        assert(s[s.len() - 1] == s.last());
    }
}

/// A text with no white space at either end stays as it is when trimmed.
pub proof fn lemma_trimmed_identity(s: Seq<char>)
    requires
        s.len() > 0,
        !is_white_space(s[0]),
        !is_white_space(s.last()),
    ensures
        trimmed(s) == s,
{
}

/// What is left of a text that is not blank has no white space at either end.
pub proof fn lemma_trimmed_ends(s: Seq<char>)
    requires
        !is_blank(s),
    ensures
        trimmed(s).len() > 0,
        !is_white_space(trimmed(s)[0]),
        !is_white_space(trimmed(s).last()),
{
    lemma_trimmed_start(s);
    lemma_trimmed_end(trimmed_start(s));
    assert(trimmed_start(s).len() > 0);
}

/// Tests whether a text is blank.
pub fn blank(s: &str) -> (r: bool)
    ensures
        r == is_blank(s@),
{
    proof {
        lemma_trimmed_empty(s@);
    }
    trim(s).is_empty()
}

/// Compares two texts.
pub fn same(a: &str, b: &str) -> (r: bool)
    ensures
        r == (a@ == b@),
{
    a.to_owned() == b.to_owned()
}

/// `s` behind `prefix`, where it begins so.
pub open spec fn stripped(s: Seq<char>, prefix: Seq<char>) -> Option<Seq<char>> {
    if prefix.is_prefix_of(s) {
        Some(s.skip(prefix.len() as int))
    } else {
        None
    }
}

/// Strips a prefix, as `str::strip_prefix` does.
pub fn strip<'a>(s: &'a str, prefix: &str) -> (r: Option<&'a str>)
    ensures
        match r {
            Some(rest) => stripped(s@, prefix@) == Some(rest@),
            None => stripped(s@, prefix@) is None,
        },
{
    let v = chars_of(s);
    let p = chars_of(prefix);
    if matches_at(&v, 0, &p) {
        assert(s@.subrange(p.len() as int, v.len() as int) =~= s@.skip(p.len() as int));
        Some(s.substring_char(p.len(), v.len()))
    } else {
        None
    }
}

/// Tests whether `s` begins with `prefix`.
pub fn begins_with(s: &str, prefix: &str) -> (r: bool)
    ensures
        r == prefix@.is_prefix_of(s@),
{
    let v = chars_of(s);
    let p = chars_of(prefix);
    matches_at(&v, 0, &p)
}

/// Tests whether `part` stands in `v` at position `at`.
fn matches_at(v: &Vec<char>, at: usize, part: &Vec<char>) -> (r: bool)
    requires
        at <= v.len(),
    ensures
        r == (at + part.len() <= v.len() && v@.subrange(at as int, at + part.len()) == part@),
        at == 0 ==> r == part@.is_prefix_of(v@),
{
    if part.len() > v.len() - at {
        return false;
    }
    let mut i: usize = 0;
    while i < part.len()
        invariant
            at + part.len() <= v.len(),
            i <= part.len(),
            forall|j: int| 0 <= j < i ==> #[trigger] part@[j] == v@[at + j],
        decreases part.len() - i,
    {
        if v[at + i] != part[i] {
            assert(v@.subrange(at as int, at + part.len())[i as int] != part@[i as int]);
            return false;
        }
        i = i + 1;
    }
    assert(v@.subrange(at as int, at + part.len()) =~= part@);
    true
}

/// `part` stands somewhere in `s`.
pub open spec fn has_part(s: Seq<char>, part: Seq<char>) -> bool {
    exists|i: int|
        0 <= i && i + part.len() <= s.len() && #[trigger] s.subrange(i, i + part.len()) == part
}

/// Tests whether `part` stands somewhere in `s`.
pub fn contains(s: &str, part: &str) -> (r: bool)
    ensures
        r == has_part(s@, part@),
{
    let v = chars_of(s);
    let p = chars_of(part);
    let mut i: usize = 0;
    while i < v.len()
        invariant
            v@ == s@,
            p@ == part@,
            i <= v.len(),
            forall|j: int|
                0 <= j < i && j + p.len() <= v.len() ==> #[trigger] v@.subrange(j, j + p.len())
                    != p@,
        decreases v.len() - i,
    {
        if matches_at(&v, i, &p) {
            return true;
        }
        i = i + 1;
    }
    matches_at(&v, i, &p)
}

/// A text that stands between two others stands in the whole.
pub proof fn lemma_has_part(before: Seq<char>, part: Seq<char>, after: Seq<char>)
    ensures
        has_part(before + part + after, part),
{
    let s = before + part + after;
    let i = before.len() as int;
    assert(s.subrange(i, i + part.len()) =~= part);
}

/// What stands in a part stands in the whole.
pub proof fn lemma_has_part_widens(before: Seq<char>, s: Seq<char>, after: Seq<char>, part: Seq<char>)
    requires
        has_part(s, part),
    ensures
        has_part(before + s + after, part),
{
    let i = choose|i: int|
        0 <= i && i + part.len() <= s.len() && #[trigger] s.subrange(i, i + part.len()) == part;
    let k = before.len() + i;
    assert((before + s + after).subrange(k, k + part.len()) =~= part);
}

/// `s` with every occurrence of `from`, taken from the left without overlap, turned into `to`.
pub open spec fn replaced(s: Seq<char>, from: Seq<char>, to: Seq<char>) -> Seq<char>
    decreases s.len(),
{
    if s.len() == 0 || from.len() == 0 {
        s
    } else if from.is_prefix_of(s) {
        to + replaced(s.skip(from.len() as int), from, to)
    } else {
        seq![s[0]] + replaced(s.skip(1), from, to)
    }
}

/// Replaces every occurrence of `from`, as `str::replace` does.
pub fn replace(s: &str, from: &str, to: &str) -> (r: String)
    requires
        from@.len() > 0,
    ensures
        r@ == replaced(s@, from@, to@),
{
    let v = chars_of(s);
    let f = chars_of(from);
    let mut out = String::new();
    let mut i: usize = 0;
    assert(s@.skip(0) =~= s@);
    assert(out@ + replaced(s@, from@, to@) =~= replaced(s@, from@, to@));
    while i < v.len()
        invariant
            v@ == s@,
            f@ == from@,
            f.len() > 0,
            i <= v.len(),
            out@ + replaced(s@.skip(i as int), from@, to@) == replaced(s@, from@, to@),
        decreases v.len() - i,
    {
        let ghost rest = s@.skip(i as int);
        let ghost before = out@;
        let hit = matches_at(&v, i, &f);
        assert(hit == from@.is_prefix_of(rest)) by {
            if hit {
                assert(rest.take(from@.len() as int) =~= s@.subrange(i as int, i + from@.len()));
                assert forall|j: int| 0 <= j < from@.len() implies from@[j] == rest[j] by {
                    assert(s@.subrange(i as int, i + from@.len())[j] == from@[j]);
                }
            }
            if from@.is_prefix_of(rest) {
                assert(s@.subrange(i as int, i + from@.len()) =~= from@);
            }
        }
        if hit {
            out.append(to);
            assert(rest.skip(from@.len() as int) =~= s@.skip(i + from@.len()));
            assert(out@ + replaced(s@.skip(i + from@.len()), from@, to@) =~= before + (to@
                + replaced(s@.skip(i + from@.len()), from@, to@)));
            i = i + f.len();
        } else {
            out.append(s.substring_char(i, i + 1));
            assert(s@.subrange(i as int, i + 1) =~= seq![rest[0]]);
            assert(rest.skip(1) =~= s@.skip(i + 1));
            assert(out@ + replaced(s@.skip(i + 1), from@, to@) =~= before + (seq![rest[0]]
                + replaced(s@.skip(i + 1), from@, to@)));
            i = i + 1;
        }
    }
    assert(s@.skip(i as int) =~= Seq::<char>::empty());
    out
}

/// `s` without the double quotes at its front.
pub open spec fn unquoted_start(s: Seq<char>) -> Seq<char>
    decreases s.len(),
{
    if s.len() > 0 && s[0] == '"' {
        unquoted_start(s.skip(1))
    } else {
        s
    }
}

/// `s` without the double quotes at its end.
pub open spec fn unquoted_end(s: Seq<char>) -> Seq<char>
    decreases s.len(),
{
    if s.len() > 0 && s.last() == '"' {
        unquoted_end(s.drop_last())
    } else {
        s
    }
}

/// `s` without the double quotes at both ends.
pub open spec fn unquoted(s: Seq<char>) -> Seq<char> {
    unquoted_end(unquoted_start(s))
}

/// Strips the double quotes at both ends, as `trim_matches('"')` does.
pub fn unquote(s: &str) -> (r: &str)
    ensures
        r@ == unquoted(s@),
{
    let v = chars_of(s);
    let mut a: usize = 0;
    assert(s@.skip(0) =~= s@);
    while a < v.len() && v[a] == '"'
        invariant
            v@ == s@,
            a <= v.len(),
            unquoted_start(s@) == unquoted_start(s@.skip(a as int)),
        decreases v.len() - a,
    {
        assert(s@.skip(a as int).skip(1) =~= s@.skip(a as int + 1));
        a = a + 1;
    }
    let mut b: usize = v.len();
    assert(s@.subrange(a as int, b as int) =~= s@.skip(a as int));
    while b > a && v[b - 1] == '"'
        invariant
            v@ == s@,
            a <= b <= v.len(),
            unquoted_end(s@.skip(a as int)) == unquoted_end(s@.subrange(a as int, b as int)),
        decreases b,
    {
        assert(s@.subrange(a as int, b as int).drop_last() =~= s@.subrange(a as int, b as int - 1));
        b = b - 1;
    }
    assert(b > a ==> s@.subrange(a as int, b as int).last() == v@[b - 1]);
    s.substring_char(a, b)
}

/// The number of characters before the first line feed.
pub open spec fn line_length(s: Seq<char>) -> nat
    decreases s.len(),
{
    if s.len() == 0 || s[0] == '\n' {
        0
    } else {
        1 + line_length(s.skip(1))
    }
}

/// `s` up to its first line feed.
pub open spec fn first_line(s: Seq<char>) -> Seq<char> {
    s.take(line_length(s) as int)
}

/// The first line of a text.
pub fn head_line(s: &str) -> (r: &str)
    ensures
        r@ == first_line(s@),
{
    let v = chars_of(s);
    let mut n: usize = 0;
    assert(s@.skip(0) =~= s@);
    while n < v.len() && v[n] != '\n'
        invariant
            v@ == s@,
            n <= v.len(),
            line_length(s@) == n + line_length(s@.skip(n as int)),
        decreases v.len() - n,
    {
        assert(s@.skip(n as int).skip(1) =~= s@.skip(n as int + 1));
        n = n + 1;
    }
    assert(s@.subrange(0, n as int) =~= s@.take(n as int));
    s.substring_char(0, n)
}

/// The first line of a line followed by a line feed is that line.
pub proof fn lemma_first_line(line: Seq<char>, rest: Seq<char>)
    requires
        forall|i: int| 0 <= i < line.len() ==> #[trigger] line[i] != '\n',
    ensures
        first_line(line + seq!['\n'] + rest) == line,
    decreases line.len(),
{
    let s = line + seq!['\n'] + rest;
    if line.len() > 0 {
        assert(s[0] == line[0]);
        let tail = line.skip(1);
        assert forall|i: int| 0 <= i < tail.len() implies #[trigger] tail[i] != '\n' by {
            assert(tail[i] == line[i + 1]);
        }
        lemma_first_line(tail, rest);
        let t = tail + seq!['\n'] + rest;
        assert(s.skip(1) =~= t);
        assert(first_line(t) == tail);
        lemma_line_length(t);
        assert(first_line(t).len() == line_length(t));
        assert(line_length(s) == line.len());
    }
    assert(line_length(s) == line.len());
    assert(s.take(line.len() as int) =~= line);
}

proof fn lemma_line_length(s: Seq<char>)
    ensures
        line_length(s) <= s.len(),
    decreases s.len(),
{
    if s.len() > 0 && s[0] != '\n' {
        lemma_line_length(s.skip(1));
    }
}

/// An ASCII digit.
pub open spec fn is_digit(c: char) -> bool {
    48 <= c as u32 <= 57
}

/// Every character is an ASCII digit.
pub open spec fn all_digits(s: Seq<char>) -> bool {
    forall|i: int| 0 <= i < s.len() ==> is_digit(#[trigger] s[i])
}

/// The number that a row of digits writes.
pub open spec fn digits_value(s: Seq<char>) -> nat
    decreases s.len(),
{
    if s.len() == 0 {
        0
    } else {
        digits_value(s.drop_last()) * 10 + ((s.last() as u32 - 48) as nat)
    }
}

/// The length of the row of digits at the front of `s`.
pub open spec fn digit_run(s: Seq<char>) -> nat
    decreases s.len(),
{
    if s.len() == 0 || !is_digit(s[0]) {
        0
    } else {
        1 + digit_run(s.skip(1))
    }
}

/// Tests for an ASCII digit.
pub fn digit(c: char) -> (r: bool)
    ensures
        r == is_digit(c),
{
    48 <= c as u32 && c as u32 <= 57
}

/// The row of digits at the front of a text.
pub fn leading_digits(s: &str) -> (r: &str)
    ensures
        r@ == s@.take(digit_run(s@) as int),
        all_digits(r@),
{
    let v = chars_of(s);
    let mut n: usize = 0;
    assert(s@.skip(0) =~= s@);
    while n < v.len() && digit(v[n])
        invariant
            v@ == s@,
            n <= v.len(),
            digit_run(s@) == n + digit_run(s@.skip(n as int)),
            forall|i: int| 0 <= i < n ==> is_digit(#[trigger] s@[i]),
        decreases v.len() - n,
    {
        assert(s@.skip(n as int).skip(1) =~= s@.skip(n as int + 1));
        n = n + 1;
    }
    assert(s@.subrange(0, n as int) =~= s@.take(n as int));
    s.substring_char(0, n)
}

/// The row of digits in front of something that is no digit.
pub proof fn lemma_digit_run(digits: Seq<char>, rest: Seq<char>)
    requires
        all_digits(digits),
        rest.len() == 0 || !is_digit(rest[0]),
    ensures
        digit_run(digits + rest) == digits.len(),
        (digits + rest).take(digits.len() as int) == digits,
    decreases digits.len(),
{
    let s = digits + rest;
    assert(s.take(digits.len() as int) =~= digits);
    if digits.len() > 0 {
        assert(s[0] == digits[0]);
        let tail = digits.skip(1);
        assert forall|i: int| 0 <= i < tail.len() implies is_digit(#[trigger] tail[i]) by {
            assert(tail[i] == digits[i + 1]);
        }
        lemma_digit_run(tail, rest);
        assert(s.skip(1) =~= tail + rest);
    } else {
        assert(s =~= rest);
    }
}

/// The number that a row of digits writes, where it is no greater than `max`.
pub open spec fn bounded_value(s: Seq<char>, max: nat) -> Option<nat> {
    if s.len() > 0 && all_digits(s) && digits_value(s) <= max {
        Some(digits_value(s))
    } else {
        None
    }
}

/// What an unsigned integer type with the greatest value `max` parses from `s`: digits, with a
/// plus sign in front or without.
pub open spec fn unsigned_value(s: Seq<char>, max: nat) -> Option<nat> {
    bounded_value(
        if s.len() > 0 && s[0] == '+' {
            s.skip(1)
        } else {
            s
        },
        max,
    )
}

proof fn lemma_digits_value_grows(s: Seq<char>, n: int)
    requires
        0 <= n <= s.len(),
        all_digits(s),
    ensures
        digits_value(s.take(n)) <= digits_value(s),
    decreases s.len() - n,
{
    if n == s.len() {
        assert(s.take(n) =~= s);
    } else {
        lemma_digits_value_grows(s, n + 1);
        assert(s.take(n + 1).drop_last() =~= s.take(n));
        assert(is_digit(s[n]));
    }
}

/// Reads a row of digits.
pub fn parse_digits(s: &str, max: u64) -> (r: Option<u64>)
    ensures
        r matches Some(n) ==> bounded_value(s@, max as nat) == Some(n as nat),
        r is None ==> bounded_value(s@, max as nat) is None,
{
    let v = chars_of(s);
    assert(s@.skip(0) =~= s@);
    digits_from(&v, 0, max)
}

fn digits_from(v: &Vec<char>, from: usize, max: u64) -> (r: Option<u64>)
    requires
        from <= v.len(),
    ensures
        r matches Some(n) ==> bounded_value(v@.skip(from as int), max as nat) == Some(n as nat),
        r is None ==> bounded_value(v@.skip(from as int), max as nat) is None,
{
    let ghost s = v@.skip(from as int);
    if from == v.len() {
        return None;
    }
    let mut value: u64 = 0;
    let mut i: usize = from;
    assert(s.take(0) =~= Seq::<char>::empty());
    while i < v.len()
        invariant
            from <= i <= v.len(),
            s == v@.skip(from as int),
            forall|j: int| 0 <= j < i - from ==> is_digit(#[trigger] s[j]),
            value == digits_value(s.take(i - from)),
            value <= max,
        decreases v.len() - i,
    {
        let c = v[i];
        assert(s[i - from] == c);
        if !digit(c) {
            return None;
        }
        let d: u64 = (c as u32 - 48) as u64;
        assert(s.take(i - from + 1).drop_last() =~= s.take(i - from));
        assert(digits_value(s.take(i - from + 1)) == value * 10 + d);
        if d > max || value > max / 10 || value * 10 > max - d {
            proof {
                if all_digits(s) {
                    lemma_digits_value_grows(s, i - from + 1);
                }
            }
            return None;
        }
        value = value * 10 + d;
        i = i + 1;
    }
    assert(s.take(v.len() - from) =~= s);
    Some(value)
}

/// Parses an unsigned integer no greater than `max`, as `str::parse` does.
pub fn parse_unsigned(s: &str, max: u64) -> (r: Option<u64>)
    ensures
        r matches Some(n) ==> unsigned_value(s@, max as nat) == Some(n as nat),
        r is None ==> unsigned_value(s@, max as nat) is None,
{
    let v = chars_of(s);
    if v.len() > 0 && v[0] == '+' {
        digits_from(&v, 1, max)
    } else {
        assert(s@.skip(0) =~= s@);
        digits_from(&v, 0, max)
    }
}

/// The character of a decimal digit.
pub open spec fn digit_char(d: nat) -> char {
    (48 + d) as char
}

/// A number in decimal notation.
pub open spec fn decimal(n: nat) -> Seq<char>
    decreases n,
{
    if n < 10 {
        seq![digit_char(n)]
    } else {
        decimal(n / 10).push(digit_char(n % 10))
    }
}

/// Decimal notation is a row of digits that writes the number.
pub proof fn lemma_decimal(n: nat)
    ensures
        decimal(n).len() > 0,
        all_digits(decimal(n)),
        digits_value(decimal(n)) == n,
        bounded_value(decimal(n), n) == Some(n),
        unsigned_value(decimal(n), n) == Some(n),
        trimmed(decimal(n)) == decimal(n),
    decreases n,
{
    let s = decimal(n);
    if n < 10 {
        assert(s.drop_last() =~= Seq::<char>::empty());
        assert(digits_value(s.drop_last()) == 0);
    } else {
        lemma_decimal(n / 10);
        assert(s.drop_last() =~= decimal(n / 10));
        assert forall|i: int| 0 <= i < s.len() implies is_digit(#[trigger] s[i]) by {
            if i < s.len() - 1 {
                assert(decimal(n / 10)[i] == s[i]);
            }
        }
    }
    assert(is_digit(s[0]));
    assert(is_digit(s.last()));
    lemma_trimmed_identity(s);
}

/// Writes a number in decimal notation.
pub fn decimal_text(n: u64) -> (r: String)
    ensures
        r@ == decimal(n as nat),
    decreases n,
{
    let mut r = if n < 10 {
        String::new()
    } else {
        decimal_text(n / 10)
    };
    r.append(digit_text(n % 10));
    assert(r@ =~= decimal(n as nat));
    r
}

fn digit_text(d: u64) -> (r: &'static str)
    requires
        d < 10,
    ensures
        r@ == seq![digit_char(d as nat)],
{
    proof {
        reveal_strlit("0");
        reveal_strlit("1");
        reveal_strlit("2");
        reveal_strlit("3");
        reveal_strlit("4");
        reveal_strlit("5");
        reveal_strlit("6");
        reveal_strlit("7");
        reveal_strlit("8");
        reveal_strlit("9");
    }
    let r = if d == 0 {
        "0"
    } else if d == 1 {
        "1"
    } else if d == 2 {
        "2"
    } else if d == 3 {
        "3"
    } else if d == 4 {
        "4"
    } else if d == 5 {
        "5"
    } else if d == 6 {
        "6"
    } else if d == 7 {
        "7"
    } else if d == 8 {
        "8"
    } else {
        "9"
    };
    assert(r@ =~= seq![digit_char(d as nat)]);
    r
}

/// An integer in decimal notation, with its sign where it is negative.
pub open spec fn signed_decimal(n: int) -> Seq<char> {
    if n < 0 {
        "-"@ + decimal((-n) as nat)
    } else {
        decimal(n as nat)
    }
}

/// Writes a number in decimal notation, with a sign where it is negative.
pub fn signed_text(n: i64) -> (r: String)
    ensures
        r@ == signed_decimal(n as int),
{
    let wide: i128 = n as i128;
    if wide < 0 {
        plus("-", decimal_text((-wide) as u64).as_str())
    } else {
        decimal_text(wide as u64)
    }
}

/// The debug notation of an optional exit code.
pub open spec fn code_notation(code: Option<i32>) -> Seq<char> {
    match code {
        Some(c) => "Some("@ + signed_decimal(c as int) + ")"@,
        None => "None"@,
    }
}

/// Writes an optional exit code in debug notation.
pub fn code_text(code: Option<i32>) -> (r: String)
    ensures
        r@ == code_notation(code),
{
    match code {
        None => "None".to_owned(),
        Some(c) => {
            let mut r = "Some(".to_owned();
            r.append(signed_text(c as i64).as_str());
            r.append(")");
            r
        },
    }
}

/// The texts that a row of strings holds.
pub open spec fn texts(v: Seq<String>) -> Seq<Seq<char>> {
    v.map_values(|s: String| s@)
}

/// The text that an optional string holds.
pub open spec fn maybe_text(s: Option<String>) -> Option<Seq<char>> {
    match s {
        Some(s) => Some(s@),
        None => None,
    }
}

/// The text of an optional slice.
pub open spec fn slice_text(s: Option<&str>) -> Option<Seq<char>> {
    match s {
        Some(s) => Some(s@),
        None => None,
    }
}

/// The texts that a result holds.
pub open spec fn result_text(r: Result<String, String>) -> Result<Seq<char>, Seq<char>> {
    match r {
        Ok(s) => Ok(s@),
        Err(s) => Err(s@),
    }
}

/// A result with the text of its error.
pub open spec fn result_of<T>(r: Result<T, String>) -> Result<T, Seq<char>> {
    match r {
        Ok(v) => Ok(v),
        Err(s) => Err(s@),
    }
}

/// The parts in a row, with `sep` between them.
pub open spec fn joined(parts: Seq<Seq<char>>, sep: Seq<char>) -> Seq<char>
    decreases parts.len(),
{
    if parts.len() == 0 {
        Seq::empty()
    } else if parts.len() == 1 {
        parts[0]
    } else {
        joined(parts.drop_last(), sep) + sep + parts.last()
    }
}

/// Joins texts with a separator.
pub fn join(parts: &Vec<String>, sep: &str) -> (r: String)
    ensures
        r@ == joined(texts(parts@), sep@),
{
    let mut r = String::new();
    let ghost all = texts(parts@);
    let mut i: usize = 0;
    while i < parts.len()
        invariant
            all == texts(parts@),
            i <= parts.len(),
            r@ == joined(all.take(i as int), sep@),
        decreases parts.len() - i,
    {
        assert(all.take(i as int + 1).drop_last() =~= all.take(i as int));
        let ghost before = r@;
        if i > 0 {
            r.append(sep);
        }
        r.append(parts[i].as_str());
        assert(i == 0 ==> r@ =~= parts@[0]@);
        i = i + 1;
    }
    assert(all.take(parts.len() as int) =~= all);
    r
}

/// The text with one more line feed at its end.
pub fn with_line_feed(s: &str) -> (r: String)
    ensures
        r@ == s@ + "\n"@,
{
    let mut r = s.to_owned();
    r.append("\n");
    r
}

/// The two texts, one behind the other.
pub fn plus(a: &str, b: &str) -> (r: String)
    ensures
        r@ == a@ + b@,
{
    let mut r = a.to_owned();
    r.append(b);
    r
}

proof fn lemma_trimmed_start_of(a: Seq<char>, t: Seq<char>)
    requires
        is_blank(a),
        t.len() > 0,
        !is_white_space(t[0]),
    ensures
        trimmed_start(a + t) == t,
    decreases a.len(),
{
    if a.len() > 0 {
        let rest = a.skip(1);
        assert forall|i: int| 0 <= i < rest.len() implies is_white_space(#[trigger] rest[i]) by {
            assert(rest[i] == a[i + 1]);
        }
        lemma_trimmed_start_of(rest, t);
        assert((a + t)[0] == a[0]);
        assert((a + t).skip(1) =~= rest + t);
    } else {
        assert(a + t =~= t);
    }
}

proof fn lemma_trimmed_end_of(t: Seq<char>, b: Seq<char>)
    requires
        is_blank(b),
        t.len() > 0,
        !is_white_space(t.last()),
    ensures
        trimmed_end(t + b) == t,
    decreases b.len(),
{
    if b.len() > 0 {
        let rest = b.drop_last();
        assert forall|i: int| 0 <= i < rest.len() implies is_white_space(#[trigger] rest[i]) by {
            assert(rest[i] == b[i]);
        }
        lemma_trimmed_end_of(t, rest);
        assert((t + b).last() == b[b.len() - 1]);
        assert((t + b).drop_last() =~= t + rest);
    } else {
        assert(t + b =~= t);
    }
}

/// Trimming takes away the white space at both ends and nothing else.
pub proof fn law_trimmed(a: Seq<char>, core: Seq<char>, b: Seq<char>)
    requires
        is_blank(a),
        is_blank(b),
        core.len() > 0,
        !is_white_space(core[0]),
        !is_white_space(core.last()),
    ensures
        trimmed(a + core + b) == core,
{
    let t = core + b;
    assert(t[0] == core[0]);
    lemma_trimmed_start_of(a, t);
    assert(a + core + b =~= a + t);
    lemma_trimmed_end_of(core, b);
}

/// Every character is a double quote.
pub open spec fn all_quotes(s: Seq<char>) -> bool {
    forall|i: int| 0 <= i < s.len() ==> #[trigger] s[i] == '"'
}

proof fn lemma_unquoted_start_of(a: Seq<char>, t: Seq<char>)
    requires
        all_quotes(a),
        t.len() > 0,
        t[0] != '"',
    ensures
        unquoted_start(a + t) == t,
    decreases a.len(),
{
    if a.len() > 0 {
        let rest = a.skip(1);
        assert forall|i: int| 0 <= i < rest.len() implies #[trigger] rest[i] == '"' by {
            assert(rest[i] == a[i + 1]);
        }
        lemma_unquoted_start_of(rest, t);
        assert((a + t)[0] == a[0]);
        assert((a + t).skip(1) =~= rest + t);
    } else {
        assert(a + t =~= t);
    }
}

proof fn lemma_unquoted_end_of(t: Seq<char>, b: Seq<char>)
    requires
        all_quotes(b),
        t.len() > 0,
        t.last() != '"',
    ensures
        unquoted_end(t + b) == t,
    decreases b.len(),
{
    if b.len() > 0 {
        let rest = b.drop_last();
        assert forall|i: int| 0 <= i < rest.len() implies #[trigger] rest[i] == '"' by {
            assert(rest[i] == b[i]);
        }
        lemma_unquoted_end_of(t, rest);
        assert((t + b).last() == b[b.len() - 1]);
        assert((t + b).drop_last() =~= t + rest);
    } else {
        assert(t + b =~= t);
    }
}

/// Unquoting takes away the double quotes at both ends and nothing else.
pub proof fn law_unquoted(a: Seq<char>, core: Seq<char>, b: Seq<char>)
    requires
        all_quotes(a),
        all_quotes(b),
        core.len() > 0,
        core[0] != '"',
        core.last() != '"',
    ensures
        unquoted(a + core + b) == core,
{
    let t = core + b;
    assert(t[0] == core[0]);
    lemma_unquoted_start_of(a, t);
    assert(a + core + b =~= a + t);
    lemma_unquoted_end_of(core, b);
}

/// The first occurrence of a part is replaced, what stands before it stays, and the rest is dealt
/// with in the same way.
pub proof fn law_replaced(a: Seq<char>, from: Seq<char>, b: Seq<char>, to: Seq<char>)
    requires
        from.len() > 0,
        !has_part(a + from.drop_last(), from),
    ensures
        replaced(a + from + b, from, to) == a + to + replaced(b, from, to),
    decreases a.len(),
{
    let s = a + from + b;
    if a.len() == 0 {
        assert(s.take(from.len() as int) =~= from);
        assert(s.skip(from.len() as int) =~= b);
        assert(a + to + replaced(b, from, to) =~= to + replaced(b, from, to));
    } else {
        let head = a + from.drop_last();
        assert(!from.is_prefix_of(s)) by {
            if from.is_prefix_of(s) {
                assert(head.subrange(0int, 0int + from.len()) =~= from);
            }
        }
        let rest = a.skip(1);
        assert(!has_part(rest + from.drop_last(), from)) by {
            let tail = rest + from.drop_last();
            if has_part(tail, from) {
                assert(seq![a[0]] + tail + Seq::<char>::empty() =~= head);
                lemma_has_part_widens(seq![a[0]], tail, Seq::empty(), from);
            }
        }
        law_replaced(rest, from, b, to);
        assert(s.skip(1) =~= rest + from + b);
        assert(seq![s[0]] + (rest + to + replaced(b, from, to)) =~= a + to + replaced(b, from, to));
    }
}

/// A text that does not hold a part stays as it is when the part is replaced.
pub proof fn law_replaced_nothing(s: Seq<char>, from: Seq<char>, to: Seq<char>)
    requires
        from.len() > 0,
        !has_part(s, from),
    ensures
        replaced(s, from, to) == s,
    decreases s.len(),
{
    if s.len() > 0 {
        assert(!from.is_prefix_of(s)) by {
            if from.is_prefix_of(s) {
                assert(s.subrange(0int, 0int + from.len()) =~= from);
            }
        }
        let rest = s.skip(1);
        assert(!has_part(rest, from)) by {
            if has_part(rest, from) {
                assert(seq![s[0]] + rest + Seq::<char>::empty() =~= s);
                lemma_has_part_widens(seq![s[0]], rest, Seq::empty(), from);
            }
        }
        law_replaced_nothing(rest, from, to);
        assert(seq![s[0]] + rest =~= s);
    }
}

/// A text holds a part exactly if it is something, the part, and something.
pub proof fn law_has_part(s: Seq<char>, part: Seq<char>)
    ensures
        has_part(s, part) <==> exists|before: Seq<char>, after: Seq<char>|
            s == #[trigger] (before + part + after),
{
    if has_part(s, part) {
        let i = choose|i: int|
            0 <= i && i + part.len() <= s.len() && #[trigger] s.subrange(i, i + part.len()) == part;
        assert(s =~= s.take(i) + part + s.skip(i + part.len()));
    }
    if exists|before: Seq<char>, after: Seq<char>| s == #[trigger] (before + part + after) {
        let (before, after) = choose|before: Seq<char>, after: Seq<char>|
            s == #[trigger] (before + part + after);
        lemma_has_part(before, part, after);
    }
}

/// A prefix is stripped from exactly the texts that begin with it, and the rest is left.
pub proof fn law_stripped(s: Seq<char>, prefix: Seq<char>, rest: Seq<char>)
    ensures
        stripped(s, prefix) == Some(rest) <==> s == prefix + rest,
{
    if s == prefix + rest {
        assert(s.take(prefix.len() as int) =~= prefix);
        assert(s.skip(prefix.len() as int) =~= rest);
    }
    if stripped(s, prefix) == Some(rest) {
        assert(s =~= prefix + rest);
    }
}

/// Joined texts stand one behind the other with the separator between each two of them.
pub proof fn law_joined(a: Seq<Seq<char>>, b: Seq<Seq<char>>, one: Seq<char>, sep: Seq<char>)
    requires
        a.len() > 0,
        b.len() > 0,
    ensures
        joined(a + b, sep) == joined(a, sep) + sep + joined(b, sep),
        joined(seq![one], sep) == one,
        joined(Seq::empty(), sep) == Seq::<char>::empty(),
    decreases b.len(),
{
    assert((a + b).drop_last() =~= a + b.drop_last());
    assert((a + b).last() == b.last());
    if b.len() == 1 {
        assert(a + b.drop_last() =~= a);
    } else {
        law_joined(a, b.drop_last(), one, sep);
        assert(joined(a, sep) + sep + joined(b.drop_last(), sep) + sep + b.last() =~= joined(a, sep)
            + sep + (joined(b.drop_last(), sep) + sep + b.last()));
    }
}

/// One more digit behind a row of digits is worth its own value and makes the row worth ten times as
/// much; so the decimal notation of a number is worth that number, and but for a single digit it
/// does not begin with a zero.
pub proof fn law_digits(s: Seq<char>, d: char, n: nat)
    ensures
        digits_value(Seq::empty()) == 0,
        is_digit(d) ==> digits_value(s.push(d)) == 10 * digits_value(s) + (d as u32 - 48),
        digits_value(decimal(n)) == n,
        all_digits(decimal(n)),
        n >= 10 ==> decimal(n)[0] != '0',
    decreases n,
{
    assert(s.push(d).drop_last() =~= s);
    lemma_decimal(n);
    lemma_leading_digit(n);
}

proof fn lemma_leading_digit(n: nat)
    ensures
        decimal(n).len() > 0,
        n > 0 ==> decimal(n)[0] != '0',
    decreases n,
{
    if n >= 10 {
        lemma_leading_digit(n / 10);
    }
}

/// Two numbers with the same decimal notation are the same.
pub proof fn law_decimal_injective(a: nat, b: nat)
    requires
        decimal(a) == decimal(b),
    ensures
        a == b,
{
    lemma_decimal(a);
    lemma_decimal(b);
}

/// A row of digits is read as its value up to the greatest one that is allowed, and not beyond.
pub proof fn law_bounded(s: Seq<char>, max: nat)
    ensures
        s.len() > 0 && all_digits(s) && digits_value(s) <= max ==> bounded_value(s, max) == Some(
            digits_value(s),
        ) && unsigned_value(s, max) == Some(digits_value(s)),
        digits_value(s) > max || !all_digits(s) || s.len() == 0 ==> bounded_value(s, max) is None,
{
    if s.len() > 0 && all_digits(s) {
        assert(is_digit(s[0]));
    }
}

/// White space is the tab, the line ends and the space of ASCII, and the blanks that Unicode adds.
pub proof fn law_white_space(c: char)
    ensures
        c as u32 <= 127 ==> (is_white_space(c) <==> c == ' ' || 9 <= c as u32 <= 13),
        128 <= c as u32 <= 255 ==> (is_white_space(c) <==> c as u32 == 133 || c as u32 == 160),
        256 <= c as u32 <= 8191 ==> (is_white_space(c) <==> c as u32 == 5760),
        8192 <= c as u32 <= 8287 ==> (is_white_space(c) <==> c as u32 <= 8202 || c as u32 == 8232
            || c as u32 == 8233 || c as u32 == 8239 || c as u32 == 8287),
        c as u32 > 8287 ==> (is_white_space(c) <==> c as u32 == 12288),
        is_digit(c) <==> '0' <= c <= '9',
{
}

/// The first line ends before the first line feed; a text without one is a line of its own.
pub proof fn law_first_line(line: Seq<char>, rest: Seq<char>)
    requires
        forall|i: int| 0 <= i < line.len() ==> #[trigger] line[i] != '\n',
    ensures
        first_line(line + seq!['\n'] + rest) == line,
        first_line(line) == line,
{
    lemma_first_line(line, rest);
    lemma_whole_line(line);
    assert(line.take(line.len() as int) =~= line);
}

proof fn lemma_whole_line(line: Seq<char>)
    requires
        forall|i: int| 0 <= i < line.len() ==> #[trigger] line[i] != '\n',
    ensures
        line_length(line) == line.len(),
    decreases line.len(),
{
    if line.len() > 0 {
        let tail = line.skip(1);
        assert forall|i: int| 0 <= i < tail.len() implies #[trigger] tail[i] != '\n' by {
            assert(tail[i] == line[i + 1]);
        }
        lemma_whole_line(tail);
    }
}

/// One plus sign in front of the digits changes nothing, and nothing else may stand there.
pub proof fn law_unsigned(s: Seq<char>, max: nat)
    ensures
        unsigned_value(seq!['+'] + s, max) == bounded_value(s, max),
        s.len() > 0 && s[0] != '+' && !is_digit(s[0]) ==> unsigned_value(s, max) is None,
        s.len() == 0 ==> unsigned_value(s, max) is None,
        s.len() > 0 && s[0] != '+' ==> unsigned_value(s, max) == bounded_value(s, max),
{
    assert((seq!['+'] + s).skip(1) =~= s);
}

/// Strings are shown by their texts, one for one and in their order.
pub proof fn law_texts(v: Seq<String>, s: String, t: &str, i: int)
    ensures
        texts(v).len() == v.len(),
        0 <= i < v.len() ==> texts(v)[i] == v[i]@,
        maybe_text(Some(s)) == Some(s@),
        maybe_text(None) is None,
        slice_text(Some(t)) == Some(t@),
        slice_text(None) is None,
        result_text(Ok(s)) == Ok::<Seq<char>, Seq<char>>(s@),
        result_text(Err(s)) == Err::<Seq<char>, Seq<char>>(s@),
        result_of::<int>(Ok(i)) == Ok::<int, Seq<char>>(i),
        result_of::<int>(Err(s)) == Err::<int, Seq<char>>(s@),
{
}

/// A number below zero is its digits behind a minus sign; an exit code is shown in brackets.
pub proof fn law_signed(n: int, code: i32)
    ensures
        n >= 0 ==> signed_decimal(n) == decimal(n as nat),
        n < 0 ==> signed_decimal(n) == "-"@ + decimal((-n) as nat),
        code_notation(None) == "None"@,
        code_notation(Some(code)) == "Some("@ + signed_decimal(code as int) + ")"@,
{
}

/// Nothing is left of a blank text, nor of a row of quotes.
pub proof fn law_nothing_left(s: Seq<char>)
    ensures
        is_blank(s) ==> trimmed(s).len() == 0,
        all_quotes(s) ==> unquoted(s).len() == 0,
{
    lemma_trimmed_empty(s);
    if all_quotes(s) {
        lemma_no_quotes_left(s);
    }
}

proof fn lemma_no_quotes_left(s: Seq<char>)
    requires
        all_quotes(s),
    ensures
        unquoted_start(s).len() == 0,
    decreases s.len(),
{
    if s.len() > 0 {
        let rest = s.skip(1);
        assert forall|i: int| 0 <= i < rest.len() implies #[trigger] rest[i] == '"' by {
            assert(rest[i] == s[i + 1]);
        }
        lemma_no_quotes_left(rest);
    }
}

} // verus!
