//! The state of an interactive session and of its line editor, and the
//! decisions of the editor that need no terminal: how a line is split for
//! display, which commands complete what was typed, what the prompt shows.

use crate::ast::Syntax;
use crate::error::RshError;
use crate::evaluator::{texts, Evaluator};
use crate::grammar::program;
use crate::history::{clone_records, csv_reader, csv_writer, csv_line, record_views, records_from,
    History};
use crate::parse::Parse;
use crate::text::{chars_of, decimal, decimal_string, lines_from, lines_of, string_of};
use vstd::prelude::*;
use unicode_segmentation::UnicodeSegmentation;
use vstd::string::StrSliceExecFns;

verus! {

/// The modes of the line editor.
#[derive(Debug, PartialEq, Eq, Structural, Clone, Copy)]
pub enum Mode {
    Nomal,
    Visual,
    Input,
}

/// The letter that the prompt shows for a mode.
pub open spec fn mode_text(mode: Mode) -> Seq<char> {
    match mode {
        Mode::Nomal => "N"@,
        Mode::Input => "I"@,
        Mode::Visual => "V"@,
    }
}

/// The letter that the prompt shows for `mode`.
pub fn mode_string(mode: Mode) -> (letter: &'static str)
    ensures
        letter@ == mode_text(mode),
{
    match mode {
        Mode::Nomal => "N",
        Mode::Input => "I",
        Mode::Visual => "V",
    }
}

/// The directory part of the prompt: each directory is put in front of
/// what the directories before it gave, and a slash behind.
pub open spec fn pwd_text(dirs: Seq<Seq<char>>) -> Seq<char>
    decreases dirs.len(),
{
    if dirs.len() == 0 {
        Seq::empty()
    } else {
        dirs.last() + pwd_text(dirs.drop_last()) + seq!['/']
    }
}

/// The last part of the prompt: the return code and the mode.
pub open spec fn utils_text(return_code: i32, mode: Mode) -> Seq<char> {
    " ["@ + decimal(return_code as int) + ": "@ + mode_text(mode) + "] > "@
}

/// Calls `whoami::username`, which asks the system for the name of the
/// user who runs the process. Nothing is claimed of the name.
#[verifier::external_body]
fn current_username() -> (name: String) {
    whoami::username()
}

/// Calls `chrono::Local::now` and formats the time with
/// `chrono::DateTime::format`, which writes each `%` item of `pattern` in
/// digits. The one pattern admitted is year, month and day with `-`
/// between them, a space, and hour, minute and second with `:` between
/// them; chrono knows each of its items, so the formatting does not fail.
/// Nothing is claimed of the text: it depends on the clock. (chrono gives
/// up where the system's clock stands before the year 1970.)
#[verifier::external_body]
fn local_time(pattern: &str) -> (time: String)
    requires
        pattern@ == "%Y-%m-%d %H:%M:%S"@,
{
    chrono::Local::now().format(pattern).to_string()
}

/// The sum of `a` and `b`, or the largest number where the sum is larger.
fn saturating_sum(a: usize, b: usize) -> (sum: usize)
    ensures
        sum == if a + b <= usize::MAX {
            a + b
        } else {
            usize::MAX as int
        },
{
    if a <= usize::MAX - b {
        a + b
    } else {
        usize::MAX
    }
}

/// What the prompt shows.
#[derive(Debug, PartialEq)]
pub struct Prompt {
    username: String,
    pwd: String,
    utils: String,
}

impl Prompt {
    pub closed spec fn username(&self) -> Seq<char> {
        self.username@
    }

    pub closed spec fn pwd(&self) -> Seq<char> {
        self.pwd@
    }

    pub closed spec fn utils(&self) -> Seq<char> {
        self.utils@
    }

    /// The number of bytes that a text takes in UTF-8, as `str::len` gives
    /// it.
    pub open spec fn bytes(text: Seq<char>) -> usize {
        vstd::utf8::encode_utf8(text).len() as usize
    }

    /// The length of the prompt in bytes, or the largest number where the
    /// length is larger.
    pub open spec fn len_spec(&self) -> nat {
        let exact = Self::bytes(self.username()) + Self::bytes(self.pwd()) + Self::bytes(
            self.utils(),
        );
        if exact <= usize::MAX {
            exact as nat
        } else {
            usize::MAX as nat
        }
    }

    /// The prompt of the user `username` in the directory whose components
    /// are `pwd`, after a command that returned `return_code`, in the mode
    /// `mode`.
    pub fn new(username: String, pwd: Vec<String>, return_code: i32, mode: Mode) -> (p: Prompt)
        ensures
            p.username() == username@ + seq![' '],
            p.pwd() == pwd_text(texts(pwd@)),
            p.utils() == utils_text(return_code, mode),
    {
        let mut name = username;
        name.push(' ');
        let mut full_path = String::new();
        let mut i: usize = 0;
        assert(texts(pwd@).take(0) =~= Seq::<Seq<char>>::empty());
        while i < pwd.len()
            invariant
                i <= pwd.len(),
                full_path@ == pwd_text(texts(pwd@).take(i as int)),
            decreases pwd.len() - i,
        {
            let mut next = pwd[i].clone();
            next.append(full_path.as_str());
            next.push('/');
            proof {
                let before = texts(pwd@).take(i as int);
                let now = texts(pwd@).take(i + 1);
                assert(now.drop_last() =~= before);
                assert(now.last() == pwd@[i as int]@);
            }
            full_path = next;
            i = i + 1;
        }
        assert(texts(pwd@).take(pwd.len() as int) =~= texts(pwd@));
        let mut utils = " [".to_owned();
        utils.append(decimal_string(return_code).as_str());
        utils.append(": ");
        utils.append(mode_string(mode));
        utils.append("] > ");
        Self { username: name, pwd: full_path, utils }
    }

    pub fn get_username(&self) -> (text: String)
        ensures
            text@ == self.username(),
    {
        self.username.clone()
    }

    pub fn get_pwd(&self) -> (text: String)
        ensures
            text@ == self.pwd(),
    {
        self.pwd.clone()
    }

    pub fn get_utils(&self) -> (text: String)
        ensures
            text@ == self.utils(),
    {
        self.utils.clone()
    }

    /// The length of the prompt in bytes, or the largest number where the
    /// length is larger.
    pub fn len(&self) -> (n: usize)
        ensures
            n == self.len_spec(),
    {
        let a = self.username.as_str().len();
        let b = self.pwd.as_str().len();
        let c = self.utils.as_str().len();
        saturating_sum(saturating_sum(a, b), c)
    }
}

/// The line that is being edited.
#[derive(Debug, PartialEq)]
pub struct Buffer {
    pub buffer: String,
}

impl Buffer {
    /// An empty line.
    pub fn new() -> (b: Buffer)
        ensures
            b.buffer@ == Seq::<char>::empty(),
    {
        Self { buffer: String::new() }
    }
}

/// Whether the character at `i` stands inside double quotes: an odd number
/// of quote characters stands before it.
pub open spec fn quoted_at(s: Seq<char>, i: int) -> bool
    decreases i,
{
    if i <= 0 {
        false
    } else {
        quoted_at(s, i - 1) != (s[i - 1] == '"')
    }
}

/// Whether the line breaks at `i`: a space outside double quotes stands
/// there.
pub open spec fn is_break(s: Seq<char>, i: int) -> bool {
    0 <= i < s.len() && s[i] == ' ' && !quoted_at(s, i)
}

/// The first break from `from` on; the length of `s` where there is none.
pub open spec fn next_break(s: Seq<char>, from: int) -> int
    decreases s.len() - from,
{
    if 0 <= from < s.len() && !is_break(s, from) {
        next_break(s, from + 1)
    } else if from < s.len() {
        from
    } else {
        s.len() as int
    }
}

/// The pieces of `s` from `from` on: what stands between the breaks. There
/// is always at least one, which may be empty.
pub open spec fn pieces(s: Seq<char>, from: int) -> Seq<Seq<char>>
    decreases s.len() - from,
{
    let end = next_break(s, from);
    if 0 <= from <= end < s.len() {
        seq![s.subrange(from, end)] + pieces(s, end + 1)
    } else {
        seq![s.subrange(from, s.len() as int)]
    }
}

/// The texts of `parts` with a space between each two of them.
pub open spec fn joined(parts: Seq<Seq<char>>) -> Seq<char>
    decreases parts.len(),
{
    if parts.len() == 0 {
        Seq::empty()
    } else if parts.len() == 1 {
        parts[0]
    } else {
        parts[0] + seq![' '] + joined(parts.drop_first())
    }
}

/// Splitting loses nothing: the pieces of a line, with a space between
/// each two of them, are the line.
pub proof fn lemma_pieces_join(s: Seq<char>, from: int)
    requires
        0 <= from <= s.len(),
    ensures
        pieces(s, from).len() > 0,
        joined(pieces(s, from)) == s.subrange(from, s.len() as int),
    decreases s.len() - from,
{
    lemma_next_break(s, from);
    let end = next_break(s, from);
    if end < s.len() {
        lemma_pieces_join(s, end + 1);
        let rest = pieces(s, end + 1);
        let all = seq![s.subrange(from, end)] + rest;
        assert(all[0] == s.subrange(from, end));
        assert(all.drop_first() =~= rest);
        assert(s.subrange(from, end) + seq![' '] + s.subrange(end + 1, s.len() as int)
            =~= s.subrange(from, s.len() as int));
    }
}

/// The next break is a break, or the end, and no break stands before it.
pub proof fn lemma_next_break(s: Seq<char>, from: int)
    requires
        0 <= from <= s.len(),
    ensures
        from <= next_break(s, from) <= s.len(),
        next_break(s, from) < s.len() ==> is_break(s, next_break(s, from)),
        forall|i: int| from <= i < next_break(s, from) ==> !is_break(s, i),
    decreases s.len() - from,
{
    if from < s.len() && !is_break(s, from) {
        lemma_next_break(s, from + 1);
    }
}

/// The words of `words` that start with `prefix`, in order.
pub open spec fn matching(words: Seq<Seq<char>>, prefix: Seq<char>) -> Seq<Seq<char>>
    decreases words.len(),
{
    if words.len() == 0 {
        Seq::empty()
    } else if prefix.is_prefix_of(words.last()) {
        matching(words.drop_last(), prefix).push(words.last())
    } else {
        matching(words.drop_last(), prefix)
    }
}

/// The commands of `records`, in order.
pub open spec fn commands_of(records: Seq<History>) -> Seq<Seq<char>> {
    records.map_values(|h: History| h@.0)
}

/// `s` without what stands from `lo` to `hi`, both included.
pub open spec fn without_range(s: Seq<char>, lo: int, hi: int) -> Seq<char> {
    let cut = if lo < s.len() {
        lo
    } else {
        s.len() as int
    };
    let resume = if hi + 1 < s.len() {
        hi + 1
    } else {
        s.len() as int
    };
    s.subrange(0, cut) + s.subrange(resume, s.len() as int)
}

/// How many columns the first `count` characters of `s` take: one for an
/// ASCII character, two for any other.
pub open spec fn width(s: Seq<char>, count: int) -> nat
    decreases count,
{
    if count <= 0 || count > s.len() {
        0
    } else {
        width(s, count - 1) + if s[count - 1] <= '\u{7f}' {
            1nat
        } else {
            2nat
        }
    }
}

/// The value of a hexadecimal digit, given as a byte.
pub open spec fn hex_digit(b: u8) -> Option<u8> {
    if 48 <= b <= 57 {
        Some((b - 48) as u8)
    } else if 97 <= b <= 102 {
        Some((b - 87) as u8)
    } else if 65 <= b <= 70 {
        Some((b - 55) as u8)
    } else {
        None
    }
}

/// The number that two bytes are in base 16: two digits, or a `+` and one
/// digit.
pub open spec fn hex_pair(hi: u8, lo: u8) -> Option<u8> {
    match (hex_digit(hi), hex_digit(lo)) {
        (Some(h), Some(l)) => Some((h * 16 + l) as u8),
        (None, Some(l)) => if hi == 43 {
            Some(l)
        } else {
            None
        },
        _ => None,
    }
}

/// The colour that a colour code names, as red, green and blue; or why
/// the code names none. A code is `#` and three numbers of two bytes each.
pub open spec fn color_of(code: Seq<u8>) -> Result<(u8, u8, u8), Seq<char>> {
    if code.len() != 7 || code[0] != 35 {
        Err("Invalid color code"@)
    } else {
        match hex_pair(code[1], code[2]) {
            None => Err("Invalid red value"@),
            Some(r) => match hex_pair(code[3], code[4]) {
                None => Err("Invalid green value"@),
                Some(g) => match hex_pair(code[5], code[6]) {
                    None => Err("Invalid blue value"@),
                    Some(b) => Ok((r, g, b)),
                },
            },
        }
    }
}

/// The value of the hexadecimal digit `b`.
fn hex_digit_value(b: u8) -> (value: Option<u8>)
    ensures
        value == hex_digit(b),
{
    if 48 <= b && b <= 57 {
        Some(b - 48)
    } else if 97 <= b && b <= 102 {
        Some(b - 87)
    } else if 65 <= b && b <= 70 {
        Some(b - 55)
    } else {
        None
    }
}

/// The number that the bytes `hi` and `lo` are in base 16.
fn hex_pair_value(hi: u8, lo: u8) -> (value: Option<u8>)
    ensures
        value == hex_pair(hi, lo),
{
    match hex_digit_value(lo) {
        Some(l) => match hex_digit_value(hi) {
            Some(h) => Some(h * 16 + l),
            None => if hi == 43 {
                Some(l)
            } else {
                None
            },
        },
        None => None,
    }
}

/// The number of bytes that `c` takes in UTF-8.
fn char_bytes(c: char) -> (bytes: usize)
    ensures
        bytes == Prompt::bytes(seq![c]),
{
    let mut one = String::new();
    one.push(c);
    assert(one@ =~= seq![c]);
    one.as_str().len()
}

/// Whether `word` starts with `prefix`.
pub fn has_prefix(word: &Vec<char>, prefix: &Vec<char>) -> (b: bool)
    ensures
        b == prefix@.is_prefix_of(word@),
{
    if prefix.len() > word.len() {
        return false;
    }
    let mut i: usize = 0;
    while i < prefix.len()
        invariant
            i <= prefix.len() <= word.len(),
            forall|j: int| 0 <= j < i ==> prefix@[j] == word@[j],
        decreases prefix.len() - i,
    {
        if prefix[i] != word[i] {
            assert(word@.subrange(0, prefix@.len() as int)[i as int] != prefix@[i as int]);
            return false;
        }
        i = i + 1;
    }
    assert(prefix@ =~= word@.subrange(0, prefix@.len() as int));
    true
}

/// The words of `words` that start with `prefix`, in order, after `found`.
fn add_matching(found: &mut Vec<String>, words: &Vec<String>, prefix: &Vec<char>)
    ensures
        texts(final(found)@) == texts(old(found)@) + matching(texts(words@), prefix@),
{
    let mut i: usize = 0;
    assert(texts(words@).take(0) =~= Seq::<Seq<char>>::empty());
    assert(texts(found@) + Seq::<Seq<char>>::empty() =~= texts(found@));
    while i < words.len()
        invariant
            i <= words.len(),
            texts(found@) == texts(old(found)@) + matching(texts(words@).take(i as int), prefix@),
        decreases words.len() - i,
    {
        proof {
            let before = texts(words@).take(i as int);
            let now = texts(words@).take(i + 1);
            assert(now.drop_last() =~= before);
            assert(now.last() == words@[i as int]@);
        }
        let word = chars_of(words[i].as_str());
        if has_prefix(&word, prefix) {
            let ghost before = found@;
            found.push(words[i].clone());
            assert(texts(found@) =~= texts(before).push(words@[i as int]@));
            assert(texts(found@) =~= texts(old(found)@) + matching(
                texts(words@).take(i + 1),
                prefix@,
            ));
        }
        i = i + 1;
    }
    assert(texts(words@).take(words.len() as int) =~= texts(words@));
}

/// The commands of `records`, in order.
fn history_commands(records: &Vec<History>) -> (commands: Vec<String>)
    ensures
        texts(commands@) == commands_of(records@),
{
    let mut commands: Vec<String> = Vec::new();
    let mut i: usize = 0;
    while i < records.len()
        invariant
            i <= records.len(),
            commands.len() == i,
            forall|j: int| 0 <= j < i ==> commands@[j]@ == records@[j]@.0,
        decreases records.len() - i,
    {
        commands.push(records[i].get_command().clone());
        i = i + 1;
    }
    assert(texts(commands@) =~= commands_of(records@));
    commands
}

/// The state of a session and of its line editor.
#[derive(Debug)]
pub struct Rsh {
    pub prompt: Prompt,
    pub buffer: Buffer,
    /// The lines of the environment file.
    pub env_database: Vec<String>,
    pub history_database: Vec<History>,
    /// The names that can complete a command.
    pub command_database: Vec<String>,
    pub return_code: i32,
    pub exists_rshenv: bool,
    pub now_mode: Mode,
    /// The cursor's place in the line, in bytes.
    pub cursor_x: usize,
    /// The cursor's place in the line, in characters.
    pub char_count: usize,
}

/// The way in which a selection grows from where it began.
#[derive(Debug, PartialEq, Eq, Structural, Clone, Copy)]
pub enum Direction {
    /// The cursor has not left the place where the selection began.
    Unset,
    Left,
    Right,
}

/// The grapheme clusters of a text, in order, as `unicode_segmentation`
/// cuts them.
pub uninterp spec fn grapheme_clusters(text: Seq<char>) -> Seq<Seq<char>>;

/// Calls `UnicodeSegmentation::graphemes` of `unicode_segmentation` on
/// `text`, for extended grapheme clusters, and collects what its iterator
/// yields. The result is a function of the text alone; nothing more is
/// claimed of it.
#[verifier::external_body]
fn graphemes(text: &str) -> (clusters: Vec<String>)
    ensures
        texts(clusters@) == grapheme_clusters(text@),
{
    text.graphemes(true).map(|cluster| cluster.to_string()).collect()
}

/// The texts of `parts`, one behind the other.
pub open spec fn concat(parts: Seq<Seq<char>>) -> Seq<char>
    decreases parts.len(),
{
    if parts.len() == 0 {
        Seq::empty()
    } else {
        concat(parts.drop_last()) + parts.last()
    }
}

/// The number of bytes that the first `count` characters of `s` take, as
/// `str::len` gives it; of all of `s` where it has fewer.
pub open spec fn prefix_bytes(s: Seq<char>, count: int) -> usize {
    if 0 <= count <= s.len() {
        Prompt::bytes(s.take(count))
    } else {
        Prompt::bytes(s)
    }
}

/// The line, the cursor's place in characters and its place in bytes.
pub type Line = (Seq<char>, int, int);

/// The line after a character was typed at the cursor: the character
/// stands where the cursor was, or at the end where the cursor was beyond
/// it, and the cursor behind the character.
pub open spec fn typed(line: Seq<char>, cursor: int, c: char) -> Line {
    let at = if 0 <= cursor <= line.len() {
        cursor
    } else {
        line.len() as int
    };
    let after = line.insert(at, c);
    (after, at + 1, prefix_bytes(after, at + 1) as int)
}

/// The line after the character before the cursor was rubbed out, where
/// `clusters` are the grapheme clusters of the line. An ASCII character
/// goes alone; where the character is another, the cluster with the
/// cursor's number, less one, goes. With the cursor at the start or
/// beyond the end nothing happens.
pub open spec fn rubbed_out(line: Seq<char>, cursor: int, x: int, clusters: Seq<Seq<char>>) -> Line {
    if 0 < cursor <= line.len() {
        let after = if line[cursor - 1] <= '\u{7f}' {
            line.remove(cursor - 1)
        } else if cursor - 1 < clusters.len() {
            concat(clusters.remove(cursor - 1))
        } else {
            concat(clusters)
        };
        (after, cursor - 1, prefix_bytes(after, cursor - 1) as int)
    } else {
        (line, cursor, x)
    }
}

/// `a - b`, or 0 where `b` is the larger.
fn saturating_difference(a: usize, b: usize) -> (d: usize)
    ensures
        d == if a >= b {
            a - b
        } else {
            0
        },
{
    if a >= b {
        a - b
    } else {
        0
    }
}

/// The texts of `parts`, one behind the other.
fn concat_all(parts: &Vec<String>) -> (all: String)
    ensures
        all@ == concat(texts(parts@)),
{
    let mut all = String::new();
    let mut i: usize = 0;
    assert(texts(parts@).take(0) =~= Seq::<Seq<char>>::empty());
    while i < parts.len()
        invariant
            i <= parts.len(),
            all@ == concat(texts(parts@).take(i as int)),
        decreases parts.len() - i,
    {
        proof {
            let now = texts(parts@).take(i + 1);
            assert(now.drop_last() =~= texts(parts@).take(i as int));
            assert(now.last() == parts@[i as int]@);
        }
        all.append(parts[i].as_str());
        i = i + 1;
    }
    assert(texts(parts@).take(parts.len() as int) =~= texts(parts@));
    all
}

/// Where the user is in the history while a line is edited.
#[derive(Debug)]
pub struct HistoryCursor {
    /// The number of the record that the line shows; the number of
    /// records where it shows none.
    pub index: usize,
    /// What the user had typed before walking through the history.
    pub saved: String,
    /// Whether the line shows a record.
    pub referenced: bool,
}

/// What submitting a command line gave.
#[derive(Debug)]
pub struct Submission {
    /// 0 where the line is a program, which was handed to the evaluator,
    /// and 1 where it is none.
    pub code: i32,
    /// The time of the submission.
    pub time: String,
    /// The line to append to the history file.
    pub record: String,
}

impl Rsh {
    /// The state of a session that has just begun: an empty line, empty
    /// databases, the normal mode, and the prompt of the user in no
    /// directory.
    pub fn new() -> (rsh: Rsh)
        ensures
            rsh.buffer.buffer@ == Seq::<char>::empty(),
            rsh.env_database@.len() == 0,
            rsh.history_database@.len() == 0,
            rsh.command_database@.len() == 0,
            rsh.return_code == 0,
            !rsh.exists_rshenv,
            rsh.now_mode == Mode::Nomal,
            rsh.cursor_x == 0,
            rsh.char_count == 0,
            rsh.prompt.pwd() == seq!['/'],
            rsh.prompt.utils() == utils_text(0, Mode::Nomal),
    {
        let mut pwd: Vec<String> = Vec::new();
        pwd.push(String::new());
        proof {
            let dirs = texts(pwd@);
            assert(dirs.len() == 1);
            assert(dirs.drop_last() =~= Seq::<Seq<char>>::empty());
            assert(pwd_text(dirs.drop_last()) =~= Seq::<char>::empty());
            assert(dirs.last() =~= Seq::<char>::empty());
            assert(pwd_text(dirs) =~= seq!['/']);
        }
        Self {
            prompt: Prompt::new(current_username(), pwd, 0, Mode::Nomal),
            buffer: Buffer::new(),
            env_database: Vec::new(),
            history_database: Vec::new(),
            command_database: Vec::new(),
            return_code: 0,
            exists_rshenv: false,
            now_mode: Mode::Nomal,
            cursor_x: 0,
            char_count: 0,
        }
    }

    /// Sets the prompt for the current user, the directory whose
    /// components are `pwd`, and the session's return code and mode.
    pub fn refresh_prompt(&mut self, pwd: Vec<String>)
        ensures
            final(self).prompt.pwd() == pwd_text(texts(pwd@)),
            final(self).prompt.utils() == utils_text(old(self).return_code, old(self).now_mode),
            final(self).buffer == old(self).buffer,
            final(self).env_database == old(self).env_database,
            final(self).history_database == old(self).history_database,
            final(self).command_database == old(self).command_database,
            final(self).return_code == old(self).return_code,
            final(self).exists_rshenv == old(self).exists_rshenv,
            final(self).now_mode == old(self).now_mode,
            final(self).cursor_x == old(self).cursor_x,
            final(self).char_count == old(self).char_count,
    {
        self.prompt = Prompt::new(current_username(), pwd, self.return_code, self.now_mode);
    }

    /// The path of the profile file `path` below the directory `home_dir`.
    pub fn open_profile(&self, home_dir: &str, path: &str) -> (full: String)
        ensures
            full@ == home_dir@ + seq!['/'] + path@,
    {
        let mut full = home_dir.to_owned();
        full.push('/');
        full.append(path);
        full
    }

    /// Takes the text of the history file: its records become the history.
    pub fn get_rshhistory_contents(&mut self, contents: &str)
        ensures
            record_views(final(self).history_database@) == records_from(contents@, 0),
            final(self).prompt == old(self).prompt,
            final(self).buffer == old(self).buffer,
            final(self).env_database == old(self).env_database,
            final(self).command_database == old(self).command_database,
            final(self).return_code == old(self).return_code,
            final(self).exists_rshenv == old(self).exists_rshenv,
            final(self).now_mode == old(self).now_mode,
            final(self).cursor_x == old(self).cursor_x,
            final(self).char_count == old(self).char_count,
    {
        self.history_database = csv_reader(contents);
    }

    /// Takes the text of the environment file: its lines become the
    /// environment database.
    pub fn get_rshenv_contents(&mut self, data: &str)
        ensures
            texts(final(self).env_database@) == lines_from(data@, 0),
            final(self).exists_rshenv,
            final(self).prompt == old(self).prompt,
            final(self).buffer == old(self).buffer,
            final(self).history_database == old(self).history_database,
            final(self).command_database == old(self).command_database,
            final(self).return_code == old(self).return_code,
            final(self).now_mode == old(self).now_mode,
            final(self).cursor_x == old(self).cursor_x,
            final(self).char_count == old(self).char_count,
    {
        self.env_database = lines_of(data);
        self.exists_rshenv = true;
    }

    /// The colour that the colour code `color_code` names, as red, green
    /// and blue.
    pub fn set_prompt_color(&self, color_code: String) -> (color: Result<(u8, u8, u8), RshError>)
        ensures
            match color_of(vstd::utf8::encode_utf8(color_code@)) {
                Ok(c) => color == Ok::<(u8, u8, u8), RshError>(c),
                Err(message) => color matches Err(e) && e.message@ == message,
            },
    {
        let code = color_code.as_str().as_bytes();
        if code.len() != 7 || code[0] != 35 {
            return Err(RshError::new("Invalid color code"));
        }
        let r = match hex_pair_value(code[1], code[2]) {
            Some(r) => r,
            None => {
                return Err(RshError::new("Invalid red value"));
            },
        };
        let g = match hex_pair_value(code[3], code[4]) {
            Some(g) => g,
            None => {
                return Err(RshError::new("Invalid green value"));
            },
        };
        let b = match hex_pair_value(code[5], code[6]) {
            Some(b) => b,
            None => {
                return Err(RshError::new("Invalid blue value"));
            },
        };
        Ok((r, g, b))
    }

    /// A copy of the history.
    pub fn get_history_database(&self) -> (records: Vec<History>)
        ensures
            record_views(records@) == record_views(self.history_database@),
    {
        clone_records(&self.history_database)
    }

    /// The directory components that the prompt shows: all but the first
    /// three, where there are three or more.
    pub fn get_current_dir_as_vec(&self, components: Vec<String>) -> (shown: Vec<String>)
        ensures
            shown@ == if components@.len() > 2 {
                components@.skip(3)
            } else {
                components@
            },
    {
        let mut now_dir = components;
        if now_dir.len() > 2 {
            let _ = now_dir.remove(0);
            let _ = now_dir.remove(0);
            let _ = now_dir.remove(0);
            assert(now_dir@ =~= components@.skip(3));
        }
        now_dir
    }

    /// The letter of the current mode.
    pub fn get_mode_string(&self) -> (letter: &'static str)
        ensures
            letter@ == mode_text(self.now_mode),
    {
        mode_string(self.now_mode)
    }

    pub fn set_mode(&mut self, mode: Mode)
        ensures
            final(self).now_mode == mode,
            final(self).prompt == old(self).prompt,
            final(self).buffer == old(self).buffer,
            final(self).env_database == old(self).env_database,
            final(self).history_database == old(self).history_database,
            final(self).command_database == old(self).command_database,
            final(self).return_code == old(self).return_code,
            final(self).exists_rshenv == old(self).exists_rshenv,
            final(self).cursor_x == old(self).cursor_x,
            final(self).char_count == old(self).char_count,
    {
        self.now_mode = mode;
    }

    /// Splits a line for display at the spaces that stand outside double
    /// quotes. The quotes stay in the pieces.
    pub fn rsh_split_line(&self, line: String) -> (parts: Vec<String>)
        ensures
            texts(parts@) == pieces(line@, 0),
    {
        let chars = chars_of(line.as_str());
        let mut r_vec: Vec<String> = Vec::new();
        let mut quote_flag = false;
        let mut start: usize = 0;
        let mut i: usize = 0;
        assert(texts(r_vec@) + pieces(chars@, 0) =~= pieces(chars@, 0));
        while i < chars.len()
            invariant
                start <= i <= chars.len(),
                chars@ == line@,
                quote_flag == quoted_at(chars@, i as int),
                next_break(chars@, start as int) == next_break(chars@, i as int),
                pieces(chars@, 0) == texts(r_vec@) + pieces(chars@, start as int),
            decreases chars.len() - i,
        {
            let c = chars[i];
            if c == '"' {
                quote_flag = !quote_flag;
            } else if c == ' ' && !quote_flag {
                let piece = string_of(&chars, start, i);
                proof {
                    let rest = pieces(chars@, i + 1);
                    assert(texts(r_vec@.push(piece)) + rest =~= texts(r_vec@) + (seq![piece@]
                        + rest));
                }
                r_vec.push(piece);
                start = i + 1;
            }
            i = i + 1;
        }
        let piece = string_of(&chars, start, chars.len());
        assert(texts(r_vec@.push(piece)) =~= texts(r_vec@) + seq![piece@]);
        r_vec.push(piece);
        r_vec
    }

    /// The commands that start with `search_string`: those of the history,
    /// in order, then those of the command database.
    pub fn rsh_get_command_database(&self, search_string: String) -> (found: Vec<String>)
        ensures
            texts(found@) == matching(commands_of(self.history_database@), search_string@)
                + matching(texts(self.command_database@), search_string@),
    {
        let prefix = chars_of(search_string.as_str());
        let mut filtered_commands: Vec<String> = Vec::new();
        assert(texts(filtered_commands@) =~= Seq::<Seq<char>>::empty());
        let commands = history_commands(&self.history_database);
        add_matching(&mut filtered_commands, &commands, &prefix);
        assert(texts(filtered_commands@) =~= matching(
            commands_of(self.history_database@),
            search_string@,
        ));
        add_matching(&mut filtered_commands, &self.command_database, &prefix);
        filtered_commands
    }

    /// The completion number `counter` of `search_string`, where the
    /// completions are what `rsh_get_command_database` gives. A counter
    /// past the last completion is set to the last one. Where nothing
    /// completes `search_string`, the search fails and the counter stays.
    pub fn rsh_char_search(&self, search_string: String, counter: &mut usize) -> (found: Result<
        String,
        RshError,
    >)
        ensures
            ({
                let all = matching(commands_of(self.history_database@), search_string@) + matching(
                    texts(self.command_database@),
                    search_string@,
                );
                if all.len() == 0 {
                    found matches Err(e) && e.message@ == "No command found"@ && *final(counter)
                        == *old(counter)
                } else {
                    &&& *final(counter) == if *old(counter) < all.len() {
                        *old(counter) as int
                    } else {
                        all.len() - 1
                    }
                    &&& found matches Ok(word) && word@ == all[*final(counter) as int]
                }
            }),
    {
        let filtered_commands = self.rsh_get_command_database(search_string);
        if filtered_commands.len() == 0 {
            return Err(RshError::new("No command found"));
        }
        if filtered_commands.len() <= *counter {
            *counter = filtered_commands.len() - 1;
        }
        assert(texts(filtered_commands@)[*counter as int] == filtered_commands@[*counter as int]@);
        Ok(filtered_commands[*counter].clone())
    }

    /// The commands that start with `buffer`: those of the history, the
    /// latest first, then those of the command database, in order.
    pub fn get_filterd_commands(&self, buffer: String) -> (found: Vec<String>)
        ensures
            texts(found@) == matching(commands_of(self.history_database@), buffer@).reverse()
                + matching(texts(self.command_database@), buffer@),
    {
        let prefix = chars_of(buffer.as_str());
        let mut history_matches: Vec<String> = Vec::new();
        assert(texts(history_matches@) =~= Seq::<Seq<char>>::empty());
        let commands = history_commands(&self.history_database);
        add_matching(&mut history_matches, &commands, &prefix);
        assert(texts(history_matches@) =~= matching(commands_of(self.history_database@), buffer@));
        let mut filtered_commands: Vec<String> = Vec::new();
        let mut i: usize = history_matches.len();
        while i > 0
            invariant
                i <= history_matches.len(),
                filtered_commands.len() == history_matches.len() - i,
                forall|j: int|
                    0 <= j < filtered_commands.len() ==> filtered_commands@[j]@
                        == history_matches@[history_matches.len() - 1 - j]@,
            decreases i,
        {
            i = i - 1;
            filtered_commands.push(history_matches[i].clone());
        }
        assert(texts(filtered_commands@) =~= texts(history_matches@).reverse());
        add_matching(&mut filtered_commands, &self.command_database, &prefix);
        filtered_commands
    }

    /// Puts `text` into the line, with the cursor behind it.
    pub fn set_buffer(&mut self, text: String)
        ensures
            final(self).buffer.buffer@ == text@,
            final(self).cursor_x == Prompt::bytes(text@),
            final(self).char_count as nat == text@.len(),
            final(self).prompt == old(self).prompt,
            final(self).env_database == old(self).env_database,
            final(self).history_database == old(self).history_database,
            final(self).command_database == old(self).command_database,
            final(self).return_code == old(self).return_code,
            final(self).exists_rshenv == old(self).exists_rshenv,
            final(self).now_mode == old(self).now_mode,
    {
        self.cursor_x = text.as_str().len();
        self.char_count = text.as_str().unicode_len();
        self.buffer.buffer = text;
    }

    /// Types a character at the cursor.
    pub fn insert(&mut self, c: char)
        ensures
            (final(self).buffer.buffer@, final(self).char_count as int, final(self).cursor_x as int)
                == typed(old(self).buffer.buffer@, old(self).char_count as int, c),
            final(self).prompt == old(self).prompt,
            final(self).env_database == old(self).env_database,
            final(self).history_database == old(self).history_database,
            final(self).command_database == old(self).command_database,
            final(self).return_code == old(self).return_code,
            final(self).exists_rshenv == old(self).exists_rshenv,
            final(self).now_mode == old(self).now_mode,
    {
        let chars = chars_of(self.buffer.buffer.as_str());
        let at = if self.char_count <= chars.len() {
            self.char_count
        } else {
            chars.len()
        };
        let mut line = string_of(&chars, 0, at);
        line.push(c);
        let ghost after = chars@.insert(at as int, c);
        assert(line@ =~= after.take(at + 1));
        self.cursor_x = line.as_str().len();
        self.char_count = line.as_str().unicode_len();
        let tail = string_of(&chars, at, chars.len());
        line.append(tail.as_str());
        assert(line@ =~= after);
        self.buffer.buffer = line;
    }

    /// Rubs out the character before the cursor, where `clusters` are the
    /// grapheme clusters of the line.
    pub fn backspace_with(&mut self, clusters: Vec<String>)
        ensures
            (final(self).buffer.buffer@, final(self).char_count as int, final(self).cursor_x as int)
                == rubbed_out(
                old(self).buffer.buffer@,
                old(self).char_count as int,
                old(self).cursor_x as int,
                texts(clusters@),
            ),
            final(self).prompt == old(self).prompt,
            final(self).env_database == old(self).env_database,
            final(self).history_database == old(self).history_database,
            final(self).command_database == old(self).command_database,
            final(self).return_code == old(self).return_code,
            final(self).exists_rshenv == old(self).exists_rshenv,
            final(self).now_mode == old(self).now_mode,
    {
        let chars = chars_of(self.buffer.buffer.as_str());
        if self.char_count == 0 || self.char_count > chars.len() {
            return ;
        }
        let cursor = self.char_count - 1;
        let line = if chars[cursor] <= '\u{7f}' {
            let mut line = string_of(&chars, 0, cursor);
            let tail = string_of(&chars, cursor + 1, chars.len());
            line.append(tail.as_str());
            assert(line@ =~= chars@.remove(cursor as int));
            line
        } else if cursor < clusters.len() {
            let mut rest = clusters;
            let _ = rest.remove(cursor);
            assert(texts(rest@) =~= texts(clusters@).remove(cursor as int));
            concat_all(&rest)
        } else {
            concat_all(&clusters)
        };
        let after = chars_of(line.as_str());
        let before_cursor = if cursor <= after.len() {
            string_of(&after, 0, cursor)
        } else {
            string_of(&after, 0, after.len())
        };
        assert(before_cursor@ =~= if cursor <= after@.len() {
            after@.take(cursor as int)
        } else {
            after@
        });
        self.cursor_x = before_cursor.as_str().len();
        self.char_count = cursor;
        self.buffer.buffer = line;
    }

    /// Rubs out the character before the cursor: an ASCII character alone,
    /// and for any other character the grapheme cluster with the cursor's
    /// number, less one.
    pub fn backspace(&mut self)
        ensures
            (final(self).buffer.buffer@, final(self).char_count as int, final(self).cursor_x as int)
                == rubbed_out(
                old(self).buffer.buffer@,
                old(self).char_count as int,
                old(self).cursor_x as int,
                grapheme_clusters(old(self).buffer.buffer@),
            ),
            final(self).prompt == old(self).prompt,
            final(self).env_database == old(self).env_database,
            final(self).history_database == old(self).history_database,
            final(self).command_database == old(self).command_database,
            final(self).return_code == old(self).return_code,
            final(self).exists_rshenv == old(self).exists_rshenv,
            final(self).now_mode == old(self).now_mode,
    {
        let clusters = graphemes(self.buffer.buffer.as_str());
        self.backspace_with(clusters);
    }

    /// Moves the cursor one character to the left and says by how many
    /// columns more than one the terminal's cursor has to go left. Going
    /// left makes a selection that grows to the left one character longer
    /// and one that grows to the right one character shorter. With the
    /// cursor at the start or beyond the end nothing happens.
    pub fn move_cursor_left(&mut self, direction: Direction, range_string: &mut String) -> (columns:
        usize)
        ensures
            final(self).buffer == old(self).buffer,
            final(self).prompt == old(self).prompt,
            final(self).env_database == old(self).env_database,
            final(self).history_database == old(self).history_database,
            final(self).command_database == old(self).command_database,
            final(self).return_code == old(self).return_code,
            final(self).exists_rshenv == old(self).exists_rshenv,
            final(self).now_mode == old(self).now_mode,
            ({
                let line = old(self).buffer.buffer@;
                let cursor = old(self).char_count as int;
                if 0 < cursor <= line.len() {
                    let under = line[cursor - 1];
                    let bytes = Prompt::bytes(seq![under]);
                    &&& final(self).char_count == cursor - 1
                    &&& final(self).cursor_x == if old(self).cursor_x >= bytes {
                        old(self).cursor_x - bytes
                    } else {
                        0
                    }
                    &&& columns == if direction == Direction::Left && bytes >= 1 {
                        bytes - 1
                    } else {
                        0
                    }
                    &&& final(range_string)@ == match direction {
                        Direction::Left => old(range_string)@.push(under),
                        Direction::Right => if old(range_string)@.len() > 0 {
                            old(range_string)@.drop_last()
                        } else {
                            old(range_string)@
                        },
                        Direction::Unset => old(range_string)@,
                    }
                } else {
                    &&& final(self).char_count == old(self).char_count
                    &&& final(self).cursor_x == old(self).cursor_x
                    &&& columns == 0
                    &&& final(range_string)@ == old(range_string)@
                }
            }),
    {
        let chars = chars_of(self.buffer.buffer.as_str());
        if self.char_count == 0 || self.char_count > chars.len() {
            return 0;
        }
        let under = chars[self.char_count - 1];
        let bytes = char_bytes(under);
        let mut columns: usize = 0;
        match direction {
            Direction::Right => {
                let _ = range_string.pop();
            },
            Direction::Left => {
                range_string.push(under);
                columns = saturating_difference(bytes, 1);
            },
            Direction::Unset => {},
        }
        self.cursor_x = saturating_difference(self.cursor_x, bytes);
        self.char_count = self.char_count - 1;
        columns
    }

    /// Moves the cursor one character to the right and says by how many
    /// columns the terminal's cursor has to go right. In the visual mode,
    /// going right makes a selection that grows to the right one character
    /// longer and one that grows to the left one character shorter. With
    /// the cursor at the end or beyond it nothing happens.
    pub fn move_cursor_right(&mut self, direction: Direction, range_string: &mut String) -> (columns:
        usize)
        ensures
            final(self).buffer == old(self).buffer,
            final(self).prompt == old(self).prompt,
            final(self).env_database == old(self).env_database,
            final(self).history_database == old(self).history_database,
            final(self).command_database == old(self).command_database,
            final(self).return_code == old(self).return_code,
            final(self).exists_rshenv == old(self).exists_rshenv,
            final(self).now_mode == old(self).now_mode,
            ({
                let line = old(self).buffer.buffer@;
                let cursor = old(self).char_count as int;
                if cursor < line.len() {
                    let under = line[cursor];
                    let bytes = Prompt::bytes(seq![under]);
                    &&& final(self).char_count == cursor + 1
                    &&& final(self).cursor_x == if old(self).cursor_x + bytes <= usize::MAX {
                        old(self).cursor_x + bytes
                    } else {
                        usize::MAX as int
                    }
                    &&& columns == bytes
                    &&& final(range_string)@ == if old(self).now_mode == Mode::Visual {
                        match direction {
                            Direction::Right => old(range_string)@.push(under),
                            Direction::Left => if old(range_string)@.len() > 0 {
                                old(range_string)@.drop_last()
                            } else {
                                old(range_string)@
                            },
                            Direction::Unset => old(range_string)@,
                        }
                    } else {
                        old(range_string)@
                    }
                } else {
                    &&& final(self).char_count == old(self).char_count
                    &&& final(self).cursor_x == old(self).cursor_x
                    &&& columns == 0
                    &&& final(range_string)@ == old(range_string)@
                }
            }),
    {
        let chars = chars_of(self.buffer.buffer.as_str());
        if self.char_count >= chars.len() {
            return 0;
        }
        let under = chars[self.char_count];
        let bytes = char_bytes(under);
        if self.now_mode == Mode::Visual {
            match direction {
                Direction::Left => {
                    let _ = range_string.pop();
                },
                Direction::Right => {
                    range_string.push(under);
                },
                Direction::Unset => {},
            }
        }
        self.cursor_x = saturating_sum(self.cursor_x, bytes);
        self.char_count = self.char_count + 1;
        bytes
    }

    /// What of a completion is shown behind the line: what stands in it
    /// behind as many characters as the line has.
    pub fn completion_suffix(&self, completion: &String) -> (suffix: String)
        ensures
            suffix@ == if self.buffer.buffer@.len() <= completion@.len() {
                completion@.skip(self.buffer.buffer@.len() as int)
            } else {
                Seq::<char>::empty()
            },
    {
        let typed = self.buffer.buffer.as_str().unicode_len();
        let chars = chars_of(completion.as_str());
        if typed <= chars.len() {
            string_of(&chars, typed, chars.len())
        } else {
            String::new()
        }
    }

    /// A cursor for the history as it is now, which shows no record.
    pub fn history_cursor(&self) -> (cursor: HistoryCursor)
        ensures
            cursor.index == self.history_database@.len(),
            cursor.saved@ == Seq::<char>::empty(),
            !cursor.referenced,
    {
        HistoryCursor { index: self.history_database.len(), saved: String::new(), referenced: false }
    }

    /// One record back in the history: the line becomes the command of
    /// the record before the one shown, if there is one. What the user had
    /// typed is kept in the cursor when the walk begins.
    pub fn history_up(&mut self, cursor: &mut HistoryCursor)
        ensures
            final(cursor).saved@ == if old(cursor).referenced {
                old(cursor).saved@
            } else {
                old(self).buffer.buffer@
            },
            final(self).history_database == old(self).history_database,
            final(self).command_database == old(self).command_database,
            final(self).env_database == old(self).env_database,
            final(self).now_mode == old(self).now_mode,
            if 0 < old(cursor).index <= old(self).history_database@.len() {
                &&& final(cursor).index == old(cursor).index - 1
                &&& final(cursor).referenced
                &&& final(self).buffer.buffer@ == old(self).history_database@[old(cursor).index
                    - 1]@.0
                &&& final(self).char_count as nat == final(self).buffer.buffer@.len()
                &&& final(self).cursor_x == Prompt::bytes(final(self).buffer.buffer@)
            } else {
                &&& final(cursor).index == old(cursor).index
                &&& final(cursor).referenced == old(cursor).referenced
                &&& final(self).buffer == old(self).buffer
                &&& final(self).char_count == old(self).char_count
                &&& final(self).cursor_x == old(self).cursor_x
            },
    {
        if !cursor.referenced {
            cursor.saved = self.buffer.buffer.clone();
        }
        if 0 < cursor.index && cursor.index <= self.history_database.len() {
            cursor.index = cursor.index - 1;
            let command = self.history_database[cursor.index].get_command().clone();
            self.set_buffer(command);
            cursor.referenced = true;
        }
    }

    /// One record forward in the history. From the last record but one the
    /// line goes back to what the user had typed; from a record in the
    /// middle, other than the first two, it becomes the command of the
    /// next record.
    pub fn history_down(&mut self, cursor: &mut HistoryCursor)
        ensures
            final(cursor).saved == old(cursor).saved,
            final(self).history_database == old(self).history_database,
            final(self).command_database == old(self).command_database,
            final(self).env_database == old(self).env_database,
            final(self).now_mode == old(self).now_mode,
            ({
                let len = old(self).history_database@.len();
                let index = old(cursor).index;
                if 1 < index && index + 1 < len {
                    &&& final(cursor).index == index + 1
                    &&& final(cursor).referenced == old(cursor).referenced
                    &&& final(self).buffer.buffer@ == old(self).history_database@[index + 1]@.0
                } else if index + 1 == len {
                    &&& final(cursor).index == index
                    &&& !final(cursor).referenced
                    &&& final(self).buffer.buffer@ == old(cursor).saved@
                } else {
                    &&& final(cursor).index == index
                    &&& final(cursor).referenced == old(cursor).referenced
                    &&& final(self).buffer == old(self).buffer
                    &&& final(self).char_count == old(self).char_count
                    &&& final(self).cursor_x == old(self).cursor_x
                }
            }),
    {
        let len = self.history_database.len();
        if cursor.index < len && cursor.index + 1 == len {
            self.set_buffer(cursor.saved.clone());
            cursor.referenced = false;
        }
        if 1 < cursor.index && cursor.index < len && cursor.index + 1 < len {
            cursor.index = cursor.index + 1;
            let command = self.history_database[cursor.index].get_command().clone();
            self.set_buffer(command);
        }
    }

    /// The next completion of `typed`: the line becomes the completion
    /// number `counter`, if anything completes `typed`, and the counter
    /// goes one on, past the completion that was taken.
    pub fn complete(&mut self, typed: &String, counter: &mut usize)
        ensures
            final(self).history_database == old(self).history_database,
            final(self).command_database == old(self).command_database,
            final(self).env_database == old(self).env_database,
            final(self).now_mode == old(self).now_mode,
            final(self).char_count as nat == final(self).buffer.buffer@.len(),
            final(self).cursor_x == Prompt::bytes(final(self).buffer.buffer@),
            ({
                let all = matching(commands_of(old(self).history_database@), typed@) + matching(
                    texts(old(self).command_database@),
                    typed@,
                );
                if all.len() == 0 {
                    &&& final(self).buffer.buffer@ == old(self).buffer.buffer@
                    &&& *final(counter) == if *old(counter) < usize::MAX {
                        *old(counter) + 1
                    } else {
                        usize::MAX as int
                    }
                } else {
                    let taken = if *old(counter) < all.len() {
                        *old(counter) as int
                    } else {
                        all.len() - 1
                    };
                    &&& final(self).buffer.buffer@ == all[taken]
                    &&& *final(counter) == taken + 1
                }
            }),
    {
        let found = self.rsh_get_command_database(typed.clone());
        assert(texts(found@).len() == found@.len());
        if found.len() > 0 {
            let taken = if *counter < found.len() {
                *counter
            } else {
                found.len() - 1
            };
            assert(texts(found@)[taken as int] == found@[taken as int]@);
            self.set_buffer(found[taken].clone());
            *counter = taken + 1;
        } else {
            let same = self.buffer.buffer.clone();
            self.set_buffer(same);
            if *counter < usize::MAX {
                *counter = *counter + 1;
            }
        }
    }

    /// What completes the line where no command and no record starts with
    /// it: every command, where the line stands at the start of the path
    /// that the last line of the environment file and the line make;
    /// nothing otherwise.
    pub open spec fn env_completions(&self) -> Seq<Seq<char>> {
        let typed = self.buffer.buffer@;
        if self.env_database@.len() > 0 && typed.is_prefix_of(
            self.env_database@.last()@ + seq!['/'] + typed,
        ) {
            texts(self.command_database@)
        } else {
            Seq::empty()
        }
    }

    /// The commands that complete the line: those that start with it,
    /// from the history, the latest first, and from the command database;
    /// where there is none, what the environment file gives.
    pub fn completions(&self) -> (found: Vec<String>)
        ensures
            ({
                let typed = self.buffer.buffer@;
                let starting = matching(commands_of(self.history_database@), typed).reverse()
                    + matching(texts(self.command_database@), typed);
                texts(found@) == if starting.len() > 0 {
                    starting
                } else {
                    self.env_completions()
                }
            }),
    {
        let filtered_commands = self.get_filterd_commands(self.buffer.buffer.clone());
        if filtered_commands.len() > 0 || self.env_database.len() == 0 {
            assert(texts(filtered_commands@).len() == filtered_commands@.len());
            return filtered_commands;
        }
        assert(texts(filtered_commands@).len() == filtered_commands@.len());
        let typed = chars_of(self.buffer.buffer.as_str());
        let mut command_path = self.env_database[self.env_database.len() - 1].clone();
        command_path.push('/');
        command_path.append(self.buffer.buffer.as_str());
        let path = chars_of(command_path.as_str());
        if has_prefix(&path, &typed) {
            crate::orchestrator::clone_words(&self.command_database)
        } else {
            let none: Vec<String> = Vec::new();
            assert(texts(none@) =~= Seq::<Seq<char>>::empty());
            none
        }
    }

    /// The line without what a selection covers: the characters from the
    /// smaller to the larger of `start_pos` and the cursor's place, both
    /// included.
    pub fn get_string_at_cursor(&self, start_pos: usize) -> (rest: String)
        ensures
            rest@ == if start_pos < self.char_count {
                without_range(self.buffer.buffer@, start_pos as int, self.char_count as int)
            } else {
                without_range(self.buffer.buffer@, self.char_count as int, start_pos as int)
            },
    {
        let chars = chars_of(self.buffer.buffer.as_str());
        let (lo, hi) = if start_pos < self.char_count {
            (start_pos, self.char_count)
        } else {
            (self.char_count, start_pos)
        };
        let cut = if lo < chars.len() {
            lo
        } else {
            chars.len()
        };
        let resume = if hi < chars.len() && hi + 1 < chars.len() {
            hi + 1
        } else {
            chars.len()
        };
        let mut rest = string_of(&chars, 0, cut);
        let tail = string_of(&chars, resume, chars.len());
        rest.append(tail.as_str());
        rest
    }

    /// The column of the cursor: the length of the prompt and the width of
    /// the characters before the cursor, or the largest number where that
    /// is larger.
    pub fn cursor_column(&self) -> (column: usize)
        ensures
            ({
                let count = if self.char_count <= self.buffer.buffer@.len() {
                    self.char_count as int
                } else {
                    self.buffer.buffer@.len() as int
                };
                let exact = self.prompt.len_spec() + width(self.buffer.buffer@, count);
                column == if exact <= usize::MAX {
                    exact
                } else {
                    usize::MAX as nat
                }
            }),
    {
        let chars = chars_of(self.buffer.buffer.as_str());
        let count = if self.char_count <= chars.len() {
            self.char_count
        } else {
            chars.len()
        };
        let mut column: usize = self.prompt.len();
        let mut i: usize = 0;
        while i < count
            invariant
                i <= count <= chars.len(),
                chars@ == self.buffer.buffer@,
                column == if self.prompt.len_spec() + width(chars@, i as int) <= usize::MAX {
                    self.prompt.len_spec() + width(chars@, i as int)
                } else {
                    usize::MAX as nat
                },
            decreases count - i,
        {
            let step: usize = if chars[i] <= '\u{7f}' {
                1
            } else {
                2
            };
            column = saturating_sum(column, step);
            i = i + 1;
        }
        column
    }

    /// Submits a command line: the line is parsed and, where it is a
    /// program, its statements are handed to `evaluator`, before what it
    /// has pending. The line is emptied. The result holds the record of
    /// the submission for the history file, with the time of now.
    pub fn execute_commands(&mut self, evaluator: &mut Evaluator, command: &mut String) -> (done:
        Submission)
        ensures
            *final(self) == *old(self),
            final(command)@ == Seq::<char>::empty(),
            done.record@ == csv_line(old(command)@, done.time@),
            final(evaluator).memory() == old(evaluator).memory(),
            match program(old(command)@) {
                Some(tree) => tree matches Syntax::Compound(items) && done.code == 0 && final(evaluator).pending() == items + old(evaluator).pending(),
                None => done.code == 1 && final(evaluator).pending() == old(evaluator).pending(),
            },
    {
        let time = local_time("%Y-%m-%d %H:%M:%S");
        let record = csv_writer(command.clone(), time.clone());
        let parsed = Parse::parse_node(command.as_str());
        *command = String::new();
        let code = match parsed {
            Ok(node) => evaluator.evaluate(node),
            Err(_) => 1,
        };
        Submission { code, time, record }
    }
}

} // verus!
