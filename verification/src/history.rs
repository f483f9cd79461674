//! The history of a session: what was run, and when.
//!
//! The history file holds one record on each line, the command and the
//! time with a comma between them. Reading and writing the file is the
//! caller's work; what a record's line is and which lines are records is
//! decided here.

use crate::text::{
    chars_of, find_char, first_at, lemma_first_at, lemma_first_at_is, line_end, string_of,
};
use vstd::prelude::*;

verus! {

/// A command that was run, and the time at which it was.
#[derive(Debug, PartialEq)]
pub struct History {
    command: String,
    time: String,
}

impl History {
    pub closed spec fn view(&self) -> (Seq<char>, Seq<char>) {
        (self.command@, self.time@)
    }

    pub fn new(command: String, time: String) -> (h: History)
        ensures
            h@ == (command@, time@),
    {
        Self { command, time }
    }

    pub fn get_command(&self) -> (command: &String)
        ensures
            command@ == self@.0,
    {
        &self.command
    }

    pub fn get_time(&self) -> (time: &String)
        ensures
            time@ == self@.1,
    {
        &self.time
    }

    /// A copy of the record.
    pub fn copy(&self) -> (h: History)
        ensures
            h@ == self@,
    {
        History { command: self.command.clone(), time: self.time.clone() }
    }
}

/// The records of `records`, in order.
pub open spec fn record_views(records: Seq<History>) -> Seq<(Seq<char>, Seq<char>)> {
    records.map_values(|h: History| h@)
}

/// The line of a record in the history file: the command, a comma, the
/// time and a line feed.
pub open spec fn csv_line(command: Seq<char>, time: Seq<char>) -> Seq<char> {
    command + seq![','] + time + seq!['\n']
}

/// The record that a line holds: a line with exactly one comma holds the
/// command before the comma and the time after it; any other line holds
/// no record.
pub open spec fn record_of(line: Seq<char>) -> Option<(Seq<char>, Seq<char>)> {
    let comma = first_at(line, 0, ',');
    if comma < line.len() && first_at(line, comma + 1, ',') == line.len() {
        Some((line.subrange(0, comma), line.subrange(comma + 1, line.len() as int)))
    } else {
        None
    }
}

/// The records of the lines of `s` from `pos` on, in order.
pub open spec fn records_from(s: Seq<char>, pos: int) -> Seq<(Seq<char>, Seq<char>)>
    decreases s.len() - pos,
{
    if 0 <= pos < s.len() {
        let feed = first_at(s, pos, '\n');
        let rest = if pos <= feed < s.len() {
            records_from(s, feed + 1)
        } else {
            Seq::empty()
        };
        match record_of(s.subrange(pos, line_end(s, pos))) {
            Some(record) => seq![record] + rest,
            None => rest,
        }
    } else {
        Seq::empty()
    }
}

/// Whether a text can be a field of a record: it holds no comma and no
/// line feed.
pub open spec fn is_field(text: Seq<char>) -> bool {
    forall|i: int| 0 <= i < text.len() ==> #[trigger] text[i] != ',' && text[i] != '\n'
}

/// What is written is what is read: the line of a record whose command
/// and time are fields, and whose time does not end with a carriage
/// return, holds that record and no other.
pub proof fn lemma_record_reads_back(command: Seq<char>, time: Seq<char>)
    requires
        is_field(command),
        is_field(time),
        time.len() > 0 ==> time.last() != '\r',
    ensures
        records_from(csv_line(command, time), 0) == seq![(command, time)],
{
    let s = csv_line(command, time);
    let comma = command.len() as int;
    let feed = comma + 1 + time.len();
    assert(s.len() == feed + 1);
    assert forall|i: int| 0 <= i < comma implies #[trigger] s[i] == command[i] by {}
    assert forall|i: int| comma < i < feed implies #[trigger] s[i] == time[i - comma - 1] by {}
    assert(s[comma] == ',');
    assert(s[feed] == '\n');
    assert forall|i: int| 0 <= i < feed implies #[trigger] s[i] != '\n' by {
        if i < comma {
            assert(s[i] == command[i]);
        } else if i > comma {
            assert(s[i] == time[i - comma - 1]);
        }
    }
    lemma_first_at_is(s, 0, feed, '\n');
    assert(s[feed - 1] != '\r') by {
        if time.len() > 0 {
            assert(s[feed - 1] == time[time.len() - 1]);
        }
    }
    assert(line_end(s, 0) == feed);
    let line = s.subrange(0, feed);
    assert forall|i: int| 0 <= i < comma implies #[trigger] line[i] != ',' by {
        assert(line[i] == command[i]);
    }
    lemma_first_at_is(line, 0, comma, ',');
    assert forall|i: int| comma + 1 <= i < feed implies #[trigger] line[i] != ',' by {
        assert(line[i] == time[i - comma - 1]);
    }
    lemma_first_at_is(line, comma + 1, feed, ',');
    assert(line.subrange(0, comma) =~= command);
    assert(line.subrange(comma + 1, line.len() as int) =~= time);
    assert(record_of(line) == Some((command, time)));
    assert(records_from(s, feed + 1) =~= Seq::<(Seq<char>, Seq<char>)>::empty());
    assert(seq![(command, time)] + Seq::<(Seq<char>, Seq<char>)>::empty() =~= seq![
        (command, time),
    ]);
}

/// The line to append to the history file for `command` run at `time`.
pub fn csv_writer(command: String, time: String) -> (line: String)
    ensures
        line@ == csv_line(command@, time@),
{
    let mut line = command;
    line.push(',');
    line.append(time.as_str());
    line.push('\n');
    assert(line@ =~= csv_line(command@, time@));
    line
}

/// The record that `chars[from..to]` holds, if it holds one.
fn read_record(chars: &Vec<char>, from: usize, to: usize) -> (found: Option<History>)
    requires
        from <= to <= chars.len(),
    ensures
        match record_of(chars@.subrange(from as int, to as int)) {
            Some(record) => found matches Some(h) && h@ == record,
            None => found is None,
        },
{
    let ghost line = chars@.subrange(from as int, to as int);
    let comma = find_char(chars, from, to, ',');
    proof {
        lemma_first_at(chars@, from as int, ',');
        assert forall|i: int| 0 <= i < comma - from implies #[trigger] line[i] != ',' by {
            assert(line[i] == chars@[from + i]);
        }
        lemma_first_at_is(line, 0, comma - from, ',');
    }
    if comma == to {
        return None;
    }
    let second = find_char(chars, comma + 1, to, ',');
    proof {
        lemma_first_at(chars@, comma + 1, ',');
        assert forall|i: int| comma + 1 - from <= i < second - from implies #[trigger] line[i]
            != ',' by {
            assert(line[i] == chars@[from + i]);
        }
        lemma_first_at_is(line, comma + 1 - from, second - from, ',');
    }
    if second != to {
        return None;
    }
    let command = string_of(chars, from, comma);
    let time = string_of(chars, comma + 1, to);
    assert(chars@.subrange(from as int, comma as int) =~= line.subrange(0, comma - from));
    assert(chars@.subrange(comma + 1, to as int) =~= line.subrange(
        comma + 1 - from,
        line.len() as int,
    ));
    Some(History::new(command, time))
}

/// The records that the text of a history file holds, in order. Lines that
/// hold no record are passed over.
pub fn csv_reader(contents: &str) -> (records: Vec<History>)
    ensures
        record_views(records@) == records_from(contents@, 0),
{
    let chars = chars_of(contents);
    let mut records: Vec<History> = Vec::new();
    let mut pos: usize = 0;
    assert(record_views(records@) + records_from(chars@, 0) =~= records_from(chars@, 0));
    while pos < chars.len()
        invariant
            pos <= chars.len(),
            chars@ == contents@,
            records_from(chars@, 0) == record_views(records@) + records_from(chars@, pos as int),
        decreases chars.len() - pos,
    {
        let feed = find_char(&chars, pos, chars.len(), '\n');
        proof {
            lemma_first_at(chars@, pos as int, '\n');
        }
        let end = if pos < feed && feed < chars.len() && chars[feed - 1] == '\r' {
            feed - 1
        } else {
            feed
        };
        let next = if feed < chars.len() {
            feed + 1
        } else {
            feed
        };
        let ghost rest = records_from(chars@, next as int);
        match read_record(&chars, pos, end) {
            Some(record) => {
                assert(record_views(records@.push(record)) + rest =~= record_views(records@) + (
                seq![record@] + rest));
                records.push(record);
            },
            None => {},
        }
        pos = next;
    }
    assert(record_views(records@) + Seq::<(Seq<char>, Seq<char>)>::empty() =~= record_views(
        records@,
    ));
    records
}

/// A copy of `records`.
pub fn clone_records(records: &Vec<History>) -> (copy: Vec<History>)
    ensures
        record_views(copy@) == record_views(records@),
{
    let mut copy: Vec<History> = Vec::new();
    let mut i: usize = 0;
    while i < records.len()
        invariant
            i <= records.len(),
            copy.len() == i,
            forall|j: int| 0 <= j < i ==> copy@[j]@ == records@[j]@,
        decreases records.len() - i,
    {
        copy.push(records[i].copy());
        i = i + 1;
    }
    assert(record_views(copy@) =~= record_views(records@));
    copy
}

} // verus!
