//! Text helpers: white space, comparison, searching, splitting and decimal
//! rendering, all stated over the characters of a string.
use vstd::prelude::*;

verus! {

/// The characters with the Unicode `White_Space` property.
pub open spec fn is_white(c: char) -> bool {
    ||| '\u{9}' <= c <= '\u{d}'
    ||| c == ' '
    ||| c == '\u{85}'
    ||| c == '\u{a0}'
    ||| c == '\u{1680}'
    ||| '\u{2000}' <= c <= '\u{200a}'
    ||| c == '\u{2028}'
    ||| c == '\u{2029}'
    ||| c == '\u{202f}'
    ||| c == '\u{205f}'
    ||| c == '\u{3000}'
}

/// `s` without its leading white space.
pub open spec fn trimmed_start(s: Seq<char>) -> Seq<char>
    decreases s.len(),
{
    if s.len() > 0 && is_white(s[0]) {
        trimmed_start(s.skip(1))
    } else {
        s
    }
}

/// `s` without its trailing white space.
pub open spec fn trimmed_end(s: Seq<char>) -> Seq<char>
    decreases s.len(),
{
    if s.len() > 0 && is_white(s.last()) {
        trimmed_end(s.drop_last())
    } else {
        s
    }
}

/// `s` without its leading and trailing white space.
pub open spec fn trimmed(s: Seq<char>) -> Seq<char> {
    trimmed_end(trimmed_start(s))
}

proof fn lemma_trimmed_start(s: Seq<char>)
    ensures
        trimmed_start(s).len() <= s.len(),
        trimmed_start(s) == s.skip(s.len() - trimmed_start(s).len()),
        trimmed_start(s).len() > 0 ==> !is_white(trimmed_start(s)[0]),
        forall|i: int|
            0 <= i < s.len() - trimmed_start(s).len() ==> is_white(#[trigger] s[i]),
    decreases s.len(),
{
    if s.len() > 0 && is_white(s[0]) {
        lemma_trimmed_start(s.skip(1));
        let r = trimmed_start(s);
        assert(s.skip(1).skip(s.len() - 1 - r.len()) == s.skip(s.len() - r.len()));
        assert forall|i: int| 0 <= i < s.len() - r.len() implies is_white(#[trigger] s[i]) by {
            if i > 0 {
                assert(s[i] == s.skip(1)[i - 1]);
            }
        }
    } else {
        assert(s.skip(0) == s);
    }
}

proof fn lemma_trimmed_end(s: Seq<char>)
    ensures
        trimmed_end(s).len() <= s.len(),
        trimmed_end(s) == s.take(trimmed_end(s).len() as int),
        trimmed_end(s).len() > 0 ==> !is_white(trimmed_end(s).last()),
        forall|i: int| trimmed_end(s).len() <= i < s.len() ==> is_white(#[trigger] s[i]),
    decreases s.len(),
{
    if s.len() > 0 && is_white(s.last()) {
        lemma_trimmed_end(s.drop_last());
        let r = trimmed_end(s);
        assert(s.drop_last().take(r.len() as int) == s.take(r.len() as int));
        assert forall|i: int| r.len() <= i < s.len() implies is_white(#[trigger] s[i]) by {
            if i < s.len() - 1 {
                assert(s[i] == s.drop_last()[i]);
            }
        }
    } else {
        assert(s.take(s.len() as int) == s);
    }
}

/// Where the trimmed text begins and ends in `s`.
pub open spec fn trimmed_window(s: Seq<char>) -> (int, int) {
    let from = s.len() - trimmed_start(s).len();
    (from, from + trimmed(s).len())
}

/// The trimmed text is one stretch of `s`, and everything outside it is white
/// space.
pub proof fn lemma_trimmed_window(s: Seq<char>)
    ensures
        ({
            let (from, to) = trimmed_window(s);
            &&& 0 <= from <= to <= s.len()
            &&& trimmed(s) == s.subrange(from, to)
            &&& forall|i: int| 0 <= i < from || to <= i < s.len() ==> is_white(#[trigger] s[i])
        }),
{
    let front = trimmed_start(s);
    lemma_trimmed_start(s);
    lemma_trimmed_end(front);
    let (from, to) = trimmed_window(s);
    assert forall|i: int| 0 <= i < from || to <= i < s.len() implies is_white(#[trigger] s[i]) by {
        if to <= i {
            assert(s[i] == front[i - from]);
        }
    }
}

/// Trimming leaves no white space at either end, leaves nothing exactly of a
/// text that is all white space, and does nothing the second time.
pub proof fn law_trimming(s: Seq<char>)
    ensures
        trimmed(trimmed(s)) == trimmed(s),
        trimmed(s).len() > 0 ==> !is_white(trimmed(s)[0]) && !is_white(trimmed(s).last()),
        trimmed(s).len() == 0 <==> forall|i: int| 0 <= i < s.len() ==> is_white(#[trigger] s[i]),
{
    let front = trimmed_start(s);
    let r = trimmed(s);
    lemma_trimmed_start(s);
    lemma_trimmed_end(front);
    let from = s.len() - front.len();
    assert(r == s.subrange(from, from + r.len()));
    if r.len() > 0 {
        assert(r[0] == front[0]);
        assert(s[from] == r[0]);
        assert(!is_white(s[from]));
        assert(trimmed_start(r) == r);
        assert(trimmed_end(r) == r);
    } else {
        assert forall|i: int| 0 <= i < s.len() implies is_white(#[trigger] s[i]) by {
            if i >= from {
                assert(s[i] == front[i - from]);
            }
        }
    }
}

/// `str::trim` drops leading and trailing characters with the Unicode
/// `White_Space` property and nothing else.
pub assume_specification[ str::trim ](s: &str) -> (r: &str)
    ensures
        r@ == trimmed(s@),
;

/// `str::trim_end` drops trailing characters with the Unicode `White_Space`
/// property and nothing else.
pub assume_specification[ str::trim_end ](s: &str) -> (r: &str)
    ensures
        r@ == trimmed_end(s@),
;

/// `String::push` appends one character.
pub assume_specification[ std::string::String::push ](s: &mut std::string::String, c: char)
    ensures
        final(s)@ == old(s)@.push(c),
;

/// The characters of `s`, in order.
pub fn chars_of(s: &str) -> (r: Vec<char>)
    ensures
        r@ == s@,
{
    let mut out: Vec<char> = Vec::new();
    for c in it: s.chars()
        invariant
            it.seq() == s@,
            out@ == s@.take(it.index()),
    {
        assert(s@.take(it.index() + 1) == s@.take(it.index()).push(c));
        out.push(c);
    }
    assert(s@.take(s@.len() as int) == s@);
    out
}

/// Equality of `str` holds exactly when the characters agree.
pub assume_specification[ <str as PartialEq<str>>::eq ](a: &str, b: &str) -> (r: bool)
    ensures
        r == (a@ == b@),
;

/// Whether the two texts agree.
pub fn same(a: &str, b: &str) -> (r: bool)
    ensures
        r == (a@ == b@),
{
    *a == *b
}

/// The order of strings: by the first character in which they differ, and the
/// shorter one first where there is none.
pub open spec fn precedes(a: Seq<char>, b: Seq<char>) -> bool
    decreases a.len(),
{
    &&& b.len() > 0
    &&& (a.len() == 0 || a[0] < b[0] || (a[0] == b[0] && precedes(a.skip(1), b.skip(1))))
}

/// Of two strings at most one comes before the other.
pub proof fn lemma_precedes_one_way(a: Seq<char>, b: Seq<char>)
    ensures
        !(precedes(a, b) && precedes(b, a)),
    decreases a.len(),
{
    if a.len() > 0 && b.len() > 0 {
        lemma_precedes_one_way(a.skip(1), b.skip(1));
    }
}

/// The hexadecimal digit for `d`, where `d` is below sixteen.
pub open spec fn hex_digit(d: int) -> char {
    if d < 10 {
        (48 + d) as char
    } else {
        (87 + d) as char
    }
}

/// Whether `needle` stands in `s` at position `i`.
pub open spec fn stands_at(s: Seq<char>, needle: Seq<char>, i: int) -> bool {
    0 <= i <= s.len() - needle.len() && s.subrange(i, i + needle.len()) == needle
}

fn same_range(chars: &Vec<char>, from: usize, part: &Vec<char>) -> (r: bool)
    requires
        from + part.len() <= chars.len(),
    ensures
        r == (chars@.subrange(from as int, from + part@.len()) == part@),
{
    let mut i: usize = 0;
    while i < part.len()
        invariant
            i <= part.len(),
            from + part.len() <= chars.len(),
            chars@.subrange(from as int, from + i) == part@.take(i as int),
        decreases part.len() - i,
    {
        if chars[from + i] != part[i] {
            assert(chars@.subrange(from as int, from + part@.len())[i as int] != part@[i as int]);
            return false;
        }
        assert(chars@.subrange(from as int, from + i + 1) == chars@.subrange(
            from as int,
            from + i,
        ).push(chars@[from + i]));
        assert(part@.take(i + 1) == part@.take(i as int).push(part@[i as int]));
        i += 1;
    }
    assert(part@.take(i as int) == part@);
    true
}

/// Whether `needle` occurs somewhere in `s`.
pub fn contains_text(s: &str, needle: &str) -> (r: bool)
    ensures
        r == exists|i: int| stands_at(s@, needle@, i),
{
    let chars = chars_of(s);
    let part = chars_of(needle);
    if part.len() > chars.len() {
        return false;
    }
    let mut i: usize = 0;
    while i <= chars.len() - part.len()
        invariant
            i <= chars.len() - part.len() + 1,
            part.len() <= chars.len(),
            chars@ == s@,
            part@ == needle@,
            forall|j: int| 0 <= j < i ==> !stands_at(s@, needle@, j),
        decreases chars.len() - part.len() + 1 - i,
    {
        if same_range(&chars, i, &part) {
            assert(stands_at(s@, needle@, i as int));
            return true;
        }
        if i == chars.len() - part.len() {
            return false;
        }
        i += 1;
    }
    false
}

/// Whether the character `c` occurs in `s`.
pub fn contains_char(s: &str, c: char) -> (r: bool)
    ensures
        r == s@.contains(c),
{
    let chars = chars_of(s);
    let mut i: usize = 0;
    while i < chars.len()
        invariant
            i <= chars.len(),
            chars@ == s@,
            forall|j: int| 0 <= j < i ==> s@[j] != c,
        decreases chars.len() - i,
    {
        if chars[i] == c {
            assert(s@[i as int] == c);
            return true;
        }
        i += 1;
    }
    false
}

/// What follows `prefix` in `s`, where `s` begins with it.
pub fn strip_prefix<'a>(s: &'a str, prefix: &str) -> (r: Option<&'a str>)
    ensures
        r is Some <==> prefix@.is_prefix_of(s@),
        r matches Some(rest) ==> s@ == prefix@ + rest@,
{
    let chars = chars_of(s);
    let part = chars_of(prefix);
    if part.len() <= chars.len() && same_range(&chars, 0, &part) {
        let rest = s.substring_char(part.len(), chars.len());
        assert(s@ == prefix@ + rest@);
        Some(rest)
    } else {
        None
    }
}

/// What stands before `suffix` in `s`, where `s` ends with it.
pub fn strip_suffix<'a>(s: &'a str, suffix: &str) -> (r: Option<&'a str>)
    ensures
        r is Some <==> suffix@.is_suffix_of(s@),
        r matches Some(rest) ==> s@ == rest@ + suffix@,
{
    let chars = chars_of(s);
    let part = chars_of(suffix);
    if part.len() <= chars.len() && same_range(&chars, chars.len() - part.len(), &part) {
        let rest = s.substring_char(0, chars.len() - part.len());
        assert(s@ == rest@ + suffix@);
        Some(rest)
    } else {
        None
    }
}

/// The last line of `s`: what follows its last line feed.
pub open spec fn last_line(s: Seq<char>) -> Seq<char>
    decreases s.len(),
{
    if s.len() == 0 || s.last() == '\n' {
        Seq::empty()
    } else {
        last_line(s.drop_last()).push(s.last())
    }
}

/// The last line of `s` that holds more than white space, without the white
/// space around it.
pub open spec fn last_filled_line(s: Seq<char>) -> Option<Seq<char>>
    decreases s.len(),
{
    let line = last_line(s);
    if trimmed(line).len() > 0 {
        Some(trimmed(line))
    } else if line.len() >= s.len() {
        None
    } else {
        last_filled_line(s.take(s.len() - line.len() - 1))
    }
}

/// A suffix that holds no line feed and follows one, or is all of `s`, is its
/// last line.
proof fn lemma_is_last_line(s: Seq<char>, from: int)
    requires
        0 <= from <= s.len(),
        from == 0 || s[from - 1] == '\n',
        forall|i: int| from <= i < s.len() ==> s[i] != '\n',
    ensures
        last_line(s) == s.skip(from),
    decreases s.len() - from,
{
    if from < s.len() {
        lemma_is_last_line(s.drop_last(), from);
        assert(s.skip(from) == s.drop_last().skip(from).push(s.last()));
    } else {
        assert(s.skip(from) == Seq::<char>::empty());
    }
}

/// The last line of `s` that holds more than white space, trimmed.
pub fn last_nonempty_line(s: &str) -> (r: Option<String>)
    ensures
        r is Some <==> last_filled_line(s@) is Some,
        r matches Some(line) ==> last_filled_line(s@) == Some(line@),
{
    let chars = chars_of(s);
    let mut end: usize = chars.len();
    assert(s@.take(end as int) == s@);
    loop
        invariant
            end <= chars.len(),
            chars@ == s@,
            last_filled_line(s@) == last_filled_line(s@.take(end as int)),
        decreases end,
    {
        let mut from: usize = end;
        while from > 0 && chars[from - 1] != '\n'
            invariant
                from <= end <= chars.len(),
                forall|i: int| from <= i < end ==> chars@[i] != '\n',
            decreases from,
        {
            from -= 1;
        }
        let ghost head = s@.take(end as int);
        let line = s.substring_char(from, end);
        proof {
            lemma_is_last_line(head, from as int);
            assert(head.skip(from as int) == line@);
        }
        let kept = line.trim();
        if !kept.is_empty() {
            return Some(kept.to_owned());
        }
        if from == 0 {
            return None;
        }
        end = from - 1;
        assert(head.take(head.len() - line@.len() - 1) == s@.take(end as int));
    }
}

/// The decimal digit for `d`, where `d` is below ten.
pub open spec fn digit(d: int) -> char {
    (48 + d) as char
}

/// The decimal digits of `n`.
pub open spec fn decimal_nat(n: nat) -> Seq<char>
    decreases n,
{
    if n < 10 {
        seq![digit(n as int)]
    } else {
        decimal_nat(n / 10).push(digit((n % 10) as int))
    }
}

/// The decimal rendering of `n`, with a sign in front of a negative number.
pub open spec fn decimal(n: int) -> Seq<char> {
    if n < 0 {
        seq!['-'] + decimal_nat((-n) as nat)
    } else {
        decimal_nat(n as nat)
    }
}

fn digit_char(d: u8) -> (r: char)
    requires
        d < 10,
    ensures
        r == digit(d as int),
{
    (48 + d) as char
}

/// The decimal rendering of an unsigned number.
pub fn decimal_u64(n: u64) -> (r: String)
    ensures
        r@ == decimal(n as int),
    decreases n,
{
    if n < 10 {
        let mut out = String::new();
        out.push(digit_char(n as u8));
        out
    } else {
        let mut out = decimal_u64(n / 10);
        out.push(digit_char((n % 10) as u8));
        out
    }
}

/// The decimal rendering of a signed number.
pub fn decimal_i64(n: i64) -> (r: String)
    ensures
        r@ == decimal(n as int),
{
    if n < 0 {
        let magnitude: u64 = (-(n as i128)) as u64;
        let mut out = String::new();
        out.push('-');
        out.append(decimal_u64(magnitude).as_str());
        out
    } else {
        decimal_u64(n as u64)
    }
}

/// The digits of a number, read from left to right, give the number back; they
/// are all decimal digits, and the first is no zero unless the number is.
pub proof fn law_digits_give_the_number(n: nat)
    ensures
        decimal_nat(n).len() > 0,
        decimal_nat(n).fold_left(0int, |value: int, c: char| 10 * value + (c as int - 48)) == n,
        forall|i: int|
            0 <= i < decimal_nat(n).len() ==> 48 <= #[trigger] decimal_nat(n)[i] as int <= 57,
        n > 0 ==> decimal_nat(n)[0] as int != 48,
    decreases n,
{
    let read = |value: int, c: char| 10 * value + (c as int - 48);
    reveal_with_fuel(Seq::fold_left, 2);
    if n < 10 {
        assert(decimal_nat(n).drop_last() == Seq::<char>::empty());
        assert(decimal_nat(n).drop_last().fold_left(0int, read) == 0);
    } else {
        law_digits_give_the_number(n / 10);
        assert(decimal_nat(n).drop_last() == decimal_nat(n / 10));
    }
}

/// A number is rendered by its digits, after a minus where it is negative, so
/// no two numbers are rendered alike.
pub proof fn law_decimals_tell_numbers_apart(a: int, b: int)
    ensures
        decimal(a) == decimal(b) <==> a == b,
        a >= 0 ==> decimal(a) == decimal_nat(a as nat),
        a < 0 ==> decimal(a) == seq!['-'] + decimal_nat((-a) as nat),
{
    if decimal(a) == decimal(b) {
        law_digits_give_the_number(if a < 0 { (-a) as nat } else { a as nat });
        law_digits_give_the_number(if b < 0 { (-b) as nat } else { b as nat });
        if a < 0 {
            assert(decimal(a)[0] == '-');
            assert(b < 0);
            assert(decimal(a).skip(1) == decimal_nat((-a) as nat));
            assert(decimal(b).skip(1) == decimal_nat((-b) as nat));
        } else if b < 0 {
            assert(decimal(b)[0] == '-');
        }
    }
}

/// A number that is followed by something that can be no part of it can be read
/// off the front of a text, together with what follows it.
pub proof fn law_decimals_end_where_digits_end(a: int, x: Seq<char>, b: int, y: Seq<char>)
    requires
        decimal(a) + x == decimal(b) + y,
        x.len() > 0 && (x[0] == ',' || x[0] == ';' || x[0] == ' '),
        y.len() > 0 && (y[0] == ',' || y[0] == ';' || y[0] == ' '),
    ensures
        a == b,
        x == y,
{
    law_digits_give_the_number(if a < 0 { (-a) as nat } else { a as nat });
    law_digits_give_the_number(if b < 0 { (-b) as nat } else { b as nat });
    let m = decimal(a);
    let n = decimal(b);
    if m.len() < n.len() {
        assert((m + x)[m.len() as int] == x[0]);
        assert((n + y)[m.len() as int] == n[m.len() as int]);
    } else if n.len() < m.len() {
        assert((n + y)[n.len() as int] == y[0]);
        assert((m + x)[n.len() as int] == m[n.len() as int]);
    }
    assert(m == (m + x).take(m.len() as int));
    assert(n == (n + y).take(n.len() as int));
    assert(x == (m + x).skip(m.len() as int));
    assert(y == (n + y).skip(n.len() as int));
    law_decimals_tell_numbers_apart(a, b);
}

/// The last line that holds more than white space: what stands after the line
/// feed before it and up to the line feed after it, trimmed, where nothing but
/// white space follows. A text of white space alone has none.
pub proof fn law_last_filled_line(s: Seq<char>, from: int, to: int)
    requires
        0 <= from <= to <= s.len(),
    ensures
        (from == 0 || s[from - 1] == '\n') && (to == s.len() || s[to] == '\n') && (forall|i: int|
            from <= i < to ==> s[i] != '\n') && trimmed(s.subrange(from, to)).len() > 0 && (
        forall|i: int| to <= i < s.len() ==> is_white(#[trigger] s[i])) ==> last_filled_line(s)
            == Some(trimmed(s.subrange(from, to))),
        (forall|i: int| 0 <= i < s.len() ==> is_white(#[trigger] s[i])) ==> last_filled_line(s)
            is None,
    decreases s.len(),
{
    let line = last_line(s);
    lemma_last_line_start(s);
    let start = s.len() - line.len();
    law_trimming(line);
    let found = (from == 0 || s[from - 1] == '\n') && (to == s.len() || s[to] == '\n') && (
    forall|i: int| from <= i < to ==> s[i] != '\n') && trimmed(s.subrange(from, to)).len() > 0 && (
    forall|i: int| to <= i < s.len() ==> is_white(#[trigger] s[i]));
    let blank = forall|i: int| 0 <= i < s.len() ==> is_white(#[trigger] s[i]);
    if blank {
        assert forall|i: int| 0 <= i < line.len() implies is_white(#[trigger] line[i]) by {
            assert(line[i] == s[start + i]);
        }
        if start > 0 {
            let rest = s.take(start - 1);
            assert forall|i: int| 0 <= i < rest.len() implies is_white(#[trigger] rest[i]) by {
                assert(rest[i] == s[i]);
            }
            law_last_filled_line(rest, 0, 0);
        }
    }
    if found {
        let part = s.subrange(from, to);
        if to == s.len() {
            lemma_is_last_line(s, from);
            assert(s.skip(from) == part);
        } else {
            assert(start > to) by {
                if start <= to {
                    assert(line[to - start] == s[to]);
                }
            }
            assert forall|i: int| 0 <= i < line.len() implies is_white(#[trigger] line[i]) by {
                assert(line[i] == s[start + i]);
            }
            let rest = s.take(start - 1);
            assert(rest.subrange(from, to) == part);
            assert forall|i: int| to <= i < rest.len() implies is_white(#[trigger] rest[i]) by {
                assert(rest[i] == s[i]);
            }
            law_last_filled_line(rest, from, to);
        }
    }
}

/// The last line starts the text or follows a line feed, and holds none.
proof fn lemma_last_line_start(s: Seq<char>)
    ensures
        last_line(s).len() <= s.len(),
        last_line(s) == s.skip(s.len() - last_line(s).len()),
        last_line(s).len() < s.len() ==> s[s.len() - last_line(s).len() - 1] == '\n',
        forall|i: int| 0 <= i < last_line(s).len() ==> #[trigger] last_line(s)[i] != '\n',
    decreases s.len(),
{
    if s.len() > 0 && s.last() != '\n' {
        let head = s.drop_last();
        lemma_last_line_start(head);
        let line = last_line(head);
        assert(last_line(s) == line.push(s.last()));
        assert(s.skip(s.len() - last_line(s).len()) == head.skip(head.len() - line.len()).push(
            s.last(),
        ));
        assert forall|i: int| 0 <= i < last_line(s).len() implies #[trigger] last_line(s)[i]
            != '\n' by {
            if i < line.len() {
                assert(last_line(s)[i] == line[i]);
            }
        }
    } else {
        assert(s.skip(s.len() as int) == Seq::<char>::empty());
    }
}

/// Strings are ordered by the first character in which they differ; a string
/// comes before every longer one that starts with it, and of two different
/// strings exactly one comes first.
pub proof fn law_strings_are_ordered(a: Seq<char>, b: Seq<char>, i: int)
    ensures
        0 <= i < a.len() && i < b.len() && a.take(i) == b.take(i) && a[i] < b[i] ==> precedes(a, b),
        a.len() < b.len() && a == b.take(a.len() as int) ==> precedes(a, b),
        a != b ==> (precedes(a, b) <==> !precedes(b, a)),
        !precedes(a, a),
    decreases a.len(),
{
    lemma_precedes_one_way(a, b);
    lemma_precedes_one_way(a, a);
    if a.len() == 0 || b.len() == 0 {
        if a.len() == b.len() {
            assert(a == b);
        }
    } else {
        let x = a.skip(1);
        let y = b.skip(1);
        law_strings_are_ordered(x, y, i - 1);
        if 0 < i < a.len() && i < b.len() && a.take(i) == b.take(i) {
            assert(a.take(i)[0] == b.take(i)[0]);
            assert(x.take(i - 1) == a.take(i).skip(1));
            assert(y.take(i - 1) == b.take(i).skip(1));
        }
        if a.len() < b.len() && a == b.take(a.len() as int) {
            assert(a[0] == b.take(a.len() as int)[0]);
            assert(y.take(x.len() as int) == b.take(a.len() as int).skip(1));
        }
        if a[0] == b[0] && x == y {
            assert(a == seq![a[0]] + x);
            assert(b == seq![b[0]] + y);
            assert(a == b);
        }
    }
}

/// A text stands at a place of another exactly when its characters do, one by
/// one.
pub proof fn law_where_a_text_stands(s: Seq<char>, needle: Seq<char>, i: int)
    ensures
        stands_at(s, needle, i) <==> 0 <= i <= s.len() - needle.len() && forall|j: int|
            0 <= j < needle.len() ==> #[trigger] needle[j] == s[i + j],
{
    if 0 <= i <= s.len() - needle.len() {
        let part = s.subrange(i, i + needle.len());
        if part == needle {
            assert forall|j: int| 0 <= j < needle.len() implies #[trigger] needle[j] == s[i + j] by {
                assert(part[j] == needle[j]);
            }
        } else if forall|j: int| 0 <= j < needle.len() ==> #[trigger] needle[j] == s[i + j] {
            assert(part == needle);
        }
    }
}

} // verus!
