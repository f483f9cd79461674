//! Character classes of the shell language, and maximal runs of them.

use vstd::prelude::*;

verus! {

/// The character classes that the grammar scans runs of.
#[derive(Debug, PartialEq, Eq, Structural, Clone, Copy)]
pub enum CharClass {
    /// A space or a tab: what separates the arguments on one line.
    Blank,
    /// A blank, a carriage return or a line feed.
    Space,
    /// What a bareword is made of: anything but whitespace, a backslash,
    /// `<`, `>`, `;`, `|`, `=`, `#` and the two quote characters.
    Bareword,
    /// A bareword character other than `!` and `$`.
    NotSpace,
    /// A dot, an ASCII letter or an ASCII digit.
    Dotted,
    /// Anything up to the end of the line.
    LineText,
    /// Anything but a double quote.
    NotDoubleQuote,
    /// Anything but a single quote.
    NotSingleQuote,
}

pub open spec fn is_blank(c: char) -> bool {
    c == ' ' || c == '\t'
}

pub open spec fn is_space(c: char) -> bool {
    c == ' ' || c == '\t' || c == '\r' || c == '\n'
}

pub open spec fn is_bareword_char(c: char) -> bool {
    !is_space(c) && c != '\\' && c != '<' && c != '>' && c != ';' && c != '|' && c != '='
        && c != '#' && c != '"' && c != '\''
}

pub open spec fn is_not_space_char(c: char) -> bool {
    is_bareword_char(c) && c != '!' && c != '$'
}

pub open spec fn is_dotted_char(c: char) -> bool {
    c == '.' || ('a' <= c && c <= 'z') || ('A' <= c && c <= 'Z') || ('0' <= c && c <= '9')
}

pub open spec fn is_line_text(c: char) -> bool {
    c != '\n' && c != '\r'
}

impl CharClass {
    /// Whether `c` belongs to the class.
    pub open spec fn contains(self, c: char) -> bool {
        match self {
            CharClass::Blank => is_blank(c),
            CharClass::Space => is_space(c),
            CharClass::Bareword => is_bareword_char(c),
            CharClass::NotSpace => is_not_space_char(c),
            CharClass::Dotted => is_dotted_char(c),
            CharClass::LineText => is_line_text(c),
            CharClass::NotDoubleQuote => c != '"',
            CharClass::NotSingleQuote => c != '\'',
        }
    }

    /// Whether `c` belongs to the class.
    pub fn has(self, c: char) -> (b: bool)
        ensures
            b == self.contains(c),
    {
        let space = c == ' ' || c == '\t' || c == '\r' || c == '\n';
        let bare = !space && c != '\\' && c != '<' && c != '>' && c != ';' && c != '|' && c != '='
            && c != '#' && c != '"' && c != '\'';
        match self {
            CharClass::Blank => c == ' ' || c == '\t',
            CharClass::Space => space,
            CharClass::Bareword => bare,
            CharClass::NotSpace => bare && c != '!' && c != '$',
            CharClass::Dotted => c == '.' || ('a' <= c && c <= 'z') || ('A' <= c && c <= 'Z') || (
            '0' <= c && c <= '9'),
            CharClass::LineText => c != '\n' && c != '\r',
            CharClass::NotDoubleQuote => c != '"',
            CharClass::NotSingleQuote => c != '\'',
        }
    }
}

/// Whether `s` has the character `c` at `pos`.
pub open spec fn at(s: Seq<char>, pos: int, c: char) -> bool {
    0 <= pos < s.len() && s[pos] == c
}

/// Where the longest run of characters of `class` that starts at `pos`
/// ends: the first position from `pos` on that holds no character of the
/// class, or the end of `s`.
pub open spec fn run_end(s: Seq<char>, pos: int, class: CharClass) -> int
    decreases s.len() - pos,
{
    if 0 <= pos < s.len() && class.contains(s[pos]) {
        run_end(s, pos + 1, class)
    } else {
        pos
    }
}

/// A run ends within the text, holds only characters of its class, and
/// cannot be made longer.
pub proof fn lemma_run_end(s: Seq<char>, pos: int, class: CharClass)
    requires
        0 <= pos <= s.len(),
    ensures
        pos <= run_end(s, pos, class) <= s.len(),
        forall|i: int| pos <= i < run_end(s, pos, class) ==> class.contains(#[trigger] s[i]),
        run_end(s, pos, class) < s.len() ==> !class.contains(s[run_end(s, pos, class)]),
    decreases s.len() - pos,
{
    if pos < s.len() && class.contains(s[pos]) {
        lemma_run_end(s, pos + 1, class);
    }
}

/// The run from `pos` ends at `end` if everything before `end` is of the
/// class and what stands at `end`, if anything, is not.
pub proof fn lemma_run_end_is(s: Seq<char>, pos: int, end: int, class: CharClass)
    requires
        0 <= pos <= end <= s.len(),
        forall|i: int| pos <= i < end ==> class.contains(#[trigger] s[i]),
        end < s.len() ==> !class.contains(s[end]),
    ensures
        run_end(s, pos, class) == end,
    decreases end - pos,
{
    if pos < end {
        lemma_run_end_is(s, pos + 1, end, class);
    }
}

/// Where the run of `class` from `pos` ends.
pub fn scan_run(chars: &Vec<char>, pos: usize, class: CharClass) -> (end: usize)
    requires
        pos <= chars.len(),
    ensures
        end == run_end(chars@, pos as int, class),
        pos <= end <= chars.len(),
{
    let mut end: usize = pos;
    while end < chars.len() && class.has(chars[end])
        invariant
            pos <= end <= chars.len(),
            run_end(chars@, pos as int, class) == run_end(chars@, end as int, class),
        decreases chars.len() - end,
    {
        end = end + 1;
    }
    end
}

/// Whether `chars` holds `c` at `pos`.
pub fn holds(chars: &Vec<char>, pos: usize, c: char) -> (b: bool)
    ensures
        b == at(chars@, pos as int, c),
{
    pos < chars.len() && chars[pos] == c
}

} // verus!
