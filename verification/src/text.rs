//! Moving between strings and sequences of characters.

use vstd::prelude::*;

verus! {

/// `String::push` appends one character to the end of the string.
pub assume_specification[ String::push ](s: &mut String, ch: char)
    ensures
        final(s)@ == old(s)@.push(ch),
;

/// `String::pop` takes the last character off the string and gives it
/// back; of an empty string it takes nothing.
pub assume_specification[ String::pop ](s: &mut String) -> (last: Option<char>)
    ensures
        match last {
            Some(c) => old(s)@.len() > 0 && c == old(s)@.last() && final(s)@ == old(s)@.drop_last(),
            None => old(s)@.len() == 0 && final(s)@ == old(s)@,
        },
;

/// The characters of `s`, in order.
pub fn chars_of(s: &str) -> (v: Vec<char>)
    ensures
        v@ == s@,
{
    let mut v: Vec<char> = Vec::new();
    for c in it: s.chars()
        invariant
            v@ == it.seq().take(it.index()),
            it.seq() == s@,
    {
        v.push(c);
    }
    v
}

/// The string made of `chars[from..to]`.
pub fn string_of(chars: &Vec<char>, from: usize, to: usize) -> (s: String)
    requires
        from <= to <= chars.len(),
    ensures
        s@ == chars@.subrange(from as int, to as int),
{
    let mut s = String::new();
    let mut i: usize = from;
    while i < to
        invariant
            from <= i <= to <= chars.len(),
            s@ == chars@.subrange(from as int, i as int),
        decreases to - i,
    {
        s.push(chars[i]);
        assert(chars@.subrange(from as int, i as int).push(chars@[i as int])
            =~= chars@.subrange(from as int, i + 1));
        i = i + 1;
    }
    s
}

/// The first position from `from` on at which `s` holds `c`; the length of
/// `s` where it holds none.
pub open spec fn first_at(s: Seq<char>, from: int, c: char) -> int
    decreases s.len() - from,
{
    if 0 <= from < s.len() && s[from] != c {
        first_at(s, from + 1, c)
    } else if from < s.len() {
        from
    } else {
        s.len() as int
    }
}

/// `first_at` gives a position that holds `c`, or the length, and nothing
/// before it holds `c`.
pub proof fn lemma_first_at(s: Seq<char>, from: int, c: char)
    requires
        0 <= from <= s.len(),
    ensures
        from <= first_at(s, from, c) <= s.len(),
        first_at(s, from, c) < s.len() ==> s[first_at(s, from, c)] == c,
        forall|i: int| from <= i < first_at(s, from, c) ==> #[trigger] s[i] != c,
    decreases s.len() - from,
{
    if from < s.len() && s[from] != c {
        lemma_first_at(s, from + 1, c);
    }
}

/// The first `c` from `from` on is at `at` if nothing before `at` is `c`
/// and `at` holds `c` or is the end.
pub proof fn lemma_first_at_is(s: Seq<char>, from: int, at: int, c: char)
    requires
        0 <= from <= at <= s.len(),
        forall|i: int| from <= i < at ==> #[trigger] s[i] != c,
        at < s.len() ==> s[at] == c,
    ensures
        first_at(s, from, c) == at,
    decreases at - from,
{
    if from < at {
        lemma_first_at_is(s, from + 1, at, c);
    }
}

/// The first position from `from` on, and before `to`, at which `chars`
/// holds `c`; `to` where there is none.
pub fn find_char(chars: &Vec<char>, from: usize, to: usize, c: char) -> (at: usize)
    requires
        from <= to <= chars.len(),
    ensures
        from <= at <= to,
        at == if first_at(chars@, from as int, c) < to {
            first_at(chars@, from as int, c)
        } else {
            to as int
        },
{
    let mut at: usize = from;
    while at < to && chars[at] != c
        invariant
            from <= at <= to <= chars.len(),
            first_at(chars@, from as int, c) == first_at(chars@, at as int, c),
        decreases to - at,
    {
        at = at + 1;
    }
    proof {
        lemma_first_at(chars@, at as int, c);
    }
    at
}

/// The decimal digits of `n`, the most significant first.
pub open spec fn digits(n: nat) -> Seq<char>
    decreases n,
{
    if n < 10 {
        seq![digit(n)]
    } else {
        digits(n / 10).push(digit(n % 10))
    }
}

/// The character of the digit `d`.
pub open spec fn digit(d: nat) -> char {
    if d == 0 {
        '0'
    } else if d == 1 {
        '1'
    } else if d == 2 {
        '2'
    } else if d == 3 {
        '3'
    } else if d == 4 {
        '4'
    } else if d == 5 {
        '5'
    } else if d == 6 {
        '6'
    } else if d == 7 {
        '7'
    } else if d == 8 {
        '8'
    } else {
        '9'
    }
}

/// The decimal notation of `i`: a minus sign where `i` is negative, then
/// the digits of its absolute value.
pub open spec fn decimal(i: int) -> Seq<char> {
    if i < 0 {
        seq!['-'] + digits((-i) as nat)
    } else {
        digits(i as nat)
    }
}

fn digit_char(d: u64) -> (c: char)
    requires
        d < 10,
    ensures
        c == digit(d as nat),
{
    if d == 0 {
        '0'
    } else if d == 1 {
        '1'
    } else if d == 2 {
        '2'
    } else if d == 3 {
        '3'
    } else if d == 4 {
        '4'
    } else if d == 5 {
        '5'
    } else if d == 6 {
        '6'
    } else if d == 7 {
        '7'
    } else if d == 8 {
        '8'
    } else {
        '9'
    }
}

/// Appends the digits of `n` to `s`.
fn push_digits(s: &mut String, n: u64)
    ensures
        final(s)@ == old(s)@ + digits(n as nat),
    decreases n,
{
    if n < 10 {
        s.push(digit_char(n));
        assert(old(s)@.push(digit(n as nat)) =~= old(s)@ + digits(n as nat));
    } else {
        push_digits(s, n / 10);
        s.push(digit_char(n % 10));
        assert((old(s)@ + digits((n / 10) as nat)).push(digit((n % 10) as nat)) =~= old(s)@
            + digits(n as nat));
    }
}

/// The decimal notation of `i`.
pub fn decimal_string(i: i32) -> (s: String)
    ensures
        s@ == decimal(i as int),
{
    let mut s = String::new();
    if i < 0 {
        s.push('-');
        let magnitude: u64 = (-(i as i64)) as u64;
        push_digits(&mut s, magnitude);
    } else {
        push_digits(&mut s, i as u64);
        assert(Seq::<char>::empty() + digits(i as nat) =~= digits(i as nat));
    }
    s
}

/// Where the line that starts at `pos` ends: before its line feed and the
/// carriage return in front of that, if there is one; at the end of the
/// text where no line feed follows.
pub open spec fn line_end(s: Seq<char>, pos: int) -> int {
    let feed = first_at(s, pos, '\n');
    if pos < feed < s.len() && s[feed - 1] == '\r' {
        feed - 1
    } else {
        feed
    }
}

/// The lines of `s` from `pos` on, without their line endings. A text
/// that ends with a line ending has the lines that it has without it.
pub open spec fn lines_from(s: Seq<char>, pos: int) -> Seq<Seq<char>>
    decreases s.len() - pos,
{
    if 0 <= pos < s.len() {
        let feed = first_at(s, pos, '\n');
        let rest = if pos <= feed < s.len() {
            lines_from(s, feed + 1)
        } else {
            Seq::empty()
        };
        seq![s.subrange(pos, line_end(s, pos))] + rest
    } else {
        Seq::empty()
    }
}

/// The lines of `contents`, without their line endings.
pub fn lines_of(contents: &str) -> (lines: Vec<String>)
    ensures
        lines@.map_values(|l: String| l@) == lines_from(contents@, 0),
{
    let chars = chars_of(contents);
    let mut lines: Vec<String> = Vec::new();
    let mut pos: usize = 0;
    assert(lines@.map_values(|l: String| l@) + lines_from(chars@, 0) =~= lines_from(chars@, 0));
    while pos < chars.len()
        invariant
            pos <= chars.len(),
            chars@ == contents@,
            lines_from(chars@, 0) == lines@.map_values(|l: String| l@) + lines_from(
                chars@,
                pos as int,
            ),
        decreases chars.len() - pos,
    {
        let feed = find_char(&chars, pos, chars.len(), '\n');
        proof {
            lemma_first_at(chars@, pos as int, '\n');
        }
        let end = if pos < feed && feed < chars.len() && chars[feed - 1] == '\r' {
            feed - 1
        } else {
            feed
        };
        let next = if feed < chars.len() {
            feed + 1
        } else {
            feed
        };
        let line = string_of(&chars, pos, end);
        proof {
            let rest = lines_from(chars@, next as int);
            assert(lines@.push(line).map_values(|l: String| l@) + rest =~= lines@.map_values(
                |l: String| l@,
            ) + (seq![line@] + rest));
        }
        lines.push(line);
        pos = next;
    }
    assert(lines@.map_values(|l: String| l@) + Seq::<Seq<char>>::empty() =~= lines@.map_values(
        |l: String| l@,
    ));
    lines
}

} // verus!
