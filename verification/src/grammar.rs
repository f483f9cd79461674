//! The grammar of the shell language, as functions on sequences of
//! characters.
//!
//! Each rule takes the text and a position and gives, where the rule
//! matches there, the position after the match and the value of what was
//! matched. Alternatives are tried in the order written and the first that
//! matches wins; repetitions take as much as they can.

use crate::ast::Syntax;
use crate::lexeme::{at, run_end, CharClass};
use vstd::prelude::*;

verus! {

/// The five redirection operators.
#[derive(Debug, PartialEq, Eq, Structural, Clone, Copy)]
pub enum RedirectKind {
    /// `<`
    Input,
    /// `>`
    Output,
    /// `>>`
    OutputAppend,
    /// `2>`
    ErrorOutput,
    /// `2>>`
    ErrorOutputAppend,
}

impl RedirectKind {
    /// The redirection specifier of this kind with destination `destination`.
    pub open spec fn wrap(self, destination: Syntax) -> Syntax {
        match self {
            RedirectKind::Input => Syntax::RedirectInput(Box::new(destination)),
            RedirectKind::Output => Syntax::RedirectOutput(Box::new(destination)),
            RedirectKind::OutputAppend => Syntax::RedirectOutputAppend(Box::new(destination)),
            RedirectKind::ErrorOutput => Syntax::RedirectErrorOutput(Box::new(destination)),
            RedirectKind::ErrorOutputAppend => Syntax::RedirectErrorOutputAppend(
                Box::new(destination),
            ),
        }
    }
}

/// What a rule gives: the position after the match and the value matched.
pub type Match = Option<(int, Syntax)>;

/// What a repetition gives: the position after the last match and the
/// values matched, in order.
pub type Matches = (int, Seq<Syntax>);

/// A non-empty run of `class` from `pos`, as an identifier.
pub open spec fn token(s: Seq<char>, pos: int, class: CharClass) -> Match {
    let end = run_end(s, pos, class);
    if 0 <= pos < end {
        Some((end, Syntax::Identifier(s.subrange(pos, end))))
    } else {
        None
    }
}

/// A bareword: the longest run of bareword characters, which is not empty.
pub open spec fn constant(s: Seq<char>, pos: int) -> Match {
    token(s, pos, CharClass::Bareword)
}

/// A bareword that stops at `!` and `$` too.
pub open spec fn not_space(s: Seq<char>, pos: int) -> Match {
    token(s, pos, CharClass::NotSpace)
}

/// A non-empty run of dots, ASCII letters and ASCII digits.
pub open spec fn filename_with_dot(s: Seq<char>, pos: int) -> Match {
    token(s, pos, CharClass::Dotted)
}

/// A file name: a bareword without `!` and `$`, or else a dotted run.
pub open spec fn filename(s: Seq<char>, pos: int) -> Match {
    match not_space(s, pos) {
        Some(m) => Some(m),
        None => filename_with_dot(s, pos),
    }
}

/// A non-empty text between two `quote` characters, none of which it
/// holds; the quotes are stripped.
pub open spec fn quoted_by(s: Seq<char>, pos: int, quote: char, inside: CharClass) -> Match {
    let end = run_end(s, pos + 1, inside);
    if at(s, pos, quote) && pos + 1 < end && at(s, end, quote) {
        Some((end + 1, Syntax::Identifier(s.subrange(pos + 1, end))))
    } else {
        None
    }
}

/// A quoted string, in double or in single quotes.
pub open spec fn identifier(s: Seq<char>, pos: int) -> Match {
    match quoted_by(s, pos, '"', CharClass::NotDoubleQuote) {
        Some(m) => Some(m),
        None => quoted_by(s, pos, '\'', CharClass::NotSingleQuote),
    }
}

/// A comment: `#` and the rest of the line, which is its text.
pub open spec fn comment(s: Seq<char>, pos: int) -> Match {
    let end = run_end(s, pos + 1, CharClass::LineText);
    if at(s, pos, '#') {
        Some((end, Syntax::Comment(s.subrange(pos + 1, end))))
    } else {
        None
    }
}

/// A variable reference: `$` and a bareword, which is the variable's name.
pub open spec fn reference(s: Seq<char>, pos: int) -> Match {
    if at(s, pos, '$') {
        match constant(s, pos + 1) {
            Some((end, name)) => Some((end, Syntax::Reference(Box::new(name)))),
            None => None,
        }
    } else {
        None
    }
}

/// An argument of a command: a reference, a quoted string or a bareword.
pub open spec fn argument(s: Seq<char>, pos: int) -> Match {
    match reference(s, pos) {
        Some(m) => Some(m),
        None => match identifier(s, pos) {
            Some(m) => Some(m),
            None => constant(s, pos),
        },
    }
}

/// The arguments that follow a command's name from `pos` on: each is
/// preceded by at least one blank.
pub open spec fn arguments(s: Seq<char>, pos: int) -> Matches
    decreases s.len() - pos,
{
    let start = run_end(s, pos, CharClass::Blank);
    match argument(s, start) {
        Some((after, arg)) if 0 <= pos < start < after <= s.len() => {
            let (end, rest) = arguments(s, after);
            (end, seq![arg] + rest)
        },
        _ => (pos, Seq::empty()),
    }
}

/// A command: a bareword, then its arguments.
pub open spec fn command(s: Seq<char>, pos: int) -> Match {
    match constant(s, pos) {
        Some((after_name, name)) => {
            let (end, args) = arguments(s, after_name);
            Some((end, Syntax::Command(Box::new(name), args)))
        },
        None => None,
    }
}

/// Where a line continuation that starts at `pos` ends: a backslash, then
/// optionally two spaces, whitespace and a comment, then blanks, then
/// optionally a line feed. Where no backslash stands at `pos`, `pos`.
pub open spec fn continuation_end(s: Seq<char>, pos: int) -> int {
    if at(s, pos, '\\') {
        let after_note = match comment(s, run_end(s, pos + 3, CharClass::Space)) {
            Some((end, _)) if at(s, pos + 1, ' ') && at(s, pos + 2, ' ') => end,
            _ => pos + 1,
        };
        let line_end = run_end(s, after_note, CharClass::Blank);
        if at(s, line_end, '\n') {
            line_end + 1
        } else {
            line_end
        }
    } else {
        pos
    }
}

/// Where what separates two arguments of a continued command ends: blanks,
/// a line continuation if there is one, and blanks again.
pub open spec fn separator_end(s: Seq<char>, pos: int) -> int {
    run_end(s, continuation_end(s, run_end(s, pos, CharClass::Blank)), CharClass::Blank)
}

/// The arguments of a continued command from `pos` on: each is preceded by
/// a separator that is not empty.
pub open spec fn continued_arguments(s: Seq<char>, pos: int) -> Matches
    decreases s.len() - pos,
{
    let start = separator_end(s, pos);
    match argument(s, start) {
        Some((after, arg)) if 0 <= pos < start < after <= s.len() => {
            let (end, rest) = continued_arguments(s, after);
            (end, seq![arg] + rest)
        },
        _ => (pos, Seq::empty()),
    }
}

/// A command with at least one argument, whose arguments may go on after a
/// backslash at the end of a line.
pub open spec fn command_with_backslash(s: Seq<char>, pos: int) -> Match {
    match constant(s, pos) {
        Some((after_name, name)) => {
            let (end, args) = continued_arguments(s, after_name);
            if args.len() > 0 {
                Some((end, Syntax::Command(Box::new(name), args)))
            } else {
                None
            }
        },
        None => None,
    }
}

/// The redirection operator at `pos`: the position after it and its kind.
/// The longer operator wins over its beginning: `>>` over `>`, `2>>` over
/// `2>`. Since a command takes every bareword behind a blank, a `2` that
/// a blank precedes is an argument, and the `>` behind it an operator of
/// its own; `2>` is read where no blank stands before the `2`, or behind
/// another specifier.
pub open spec fn redirect_operator(s: Seq<char>, pos: int) -> Option<(int, RedirectKind)> {
    if at(s, pos, '<') {
        Some((pos + 1, RedirectKind::Input))
    } else if at(s, pos, '>') && at(s, pos + 1, '>') {
        Some((pos + 2, RedirectKind::OutputAppend))
    } else if at(s, pos, '>') {
        Some((pos + 1, RedirectKind::Output))
    } else if at(s, pos, '2') && at(s, pos + 1, '>') && at(s, pos + 2, '>') {
        Some((pos + 3, RedirectKind::ErrorOutputAppend))
    } else if at(s, pos, '2') && at(s, pos + 1, '>') {
        Some((pos + 2, RedirectKind::ErrorOutput))
    } else {
        None
    }
}

/// A redirection specifier: whitespace, an operator, whitespace and a file
/// name.
pub open spec fn redirect_specifier(s: Seq<char>, pos: int) -> Match {
    match redirect_operator(s, run_end(s, pos, CharClass::Space)) {
        Some((after_operator, kind)) => match filename(
            s,
            run_end(s, after_operator, CharClass::Space),
        ) {
            Some((end, name)) => Some((end, kind.wrap(name))),
            None => None,
        },
        None => None,
    }
}

/// The redirection specifiers from `pos` on.
pub open spec fn redirect_specifiers(s: Seq<char>, pos: int) -> Matches
    decreases s.len() - pos,
{
    match redirect_specifier(s, pos) {
        Some((after, tree)) if 0 <= pos < after <= s.len() => {
            let (end, rest) = redirect_specifiers(s, after);
            (end, seq![tree] + rest)
        },
        _ => (pos, Seq::empty()),
    }
}

/// A command with at least one redirection specifier.
pub open spec fn redirect(s: Seq<char>, pos: int) -> Match {
    match command(s, pos) {
        Some((after_command, cmd)) => {
            let (end, specifiers) = redirect_specifiers(s, after_command);
            if specifiers.len() > 0 {
                Some((end, Syntax::Redirect(Box::new(cmd), specifiers)))
            } else {
                None
            }
        },
        None => None,
    }
}

/// One stage of a pipeline: a redirected command, or else a command.
pub open spec fn stage(s: Seq<char>, pos: int) -> Match {
    match redirect(s, pos) {
        Some(m) => Some(m),
        None => command(s, pos),
    }
}

/// A `|` between whitespace, and the stage after it.
pub open spec fn piped_stage(s: Seq<char>, pos: int) -> Match {
    let bar = run_end(s, pos, CharClass::Space);
    if at(s, bar, '|') {
        stage(s, run_end(s, bar + 1, CharClass::Space))
    } else {
        None
    }
}

/// The stages that follow the first stage of a pipeline.
pub open spec fn piped_stages(s: Seq<char>, pos: int) -> Matches
    decreases s.len() - pos,
{
    match piped_stage(s, pos) {
        Some((after, tree)) if 0 <= pos < after <= s.len() => {
            let (end, rest) = piped_stages(s, after);
            (end, seq![tree] + rest)
        },
        _ => (pos, Seq::empty()),
    }
}

/// A pipeline: two or more stages with `|` between them.
pub open spec fn pipeline(s: Seq<char>, pos: int) -> Match {
    match stage(s, pos) {
        Some((after_first, first)) => {
            let (end, rest) = piped_stages(s, after_first);
            if rest.len() > 0 {
                Some((end, Syntax::Pipeline(seq![first] + rest)))
            } else {
                None
            }
        },
        None => None,
    }
}

/// A script to run: `./` and a file name.
pub open spec fn exec_script(s: Seq<char>, pos: int) -> Match {
    if at(s, pos, '.') && at(s, pos + 1, '/') {
        match filename(s, pos + 2) {
            Some((end, name)) => Some((end, Syntax::ExecScript(Box::new(name)))),
            None => None,
        }
    } else {
        None
    }
}

/// An assignment: whitespace, a bareword, `=` and a quoted string.
pub open spec fn define(s: Seq<char>, pos: int) -> Match {
    match constant(s, run_end(s, pos, CharClass::Space)) {
        Some((after_name, name)) => if at(s, after_name, '=') {
            match identifier(s, after_name + 1) {
                Some((end, data)) => Some((end, Syntax::Define(Box::new(name), Box::new(data)))),
                None => None,
            }
        } else {
            None
        },
        None => None,
    }
}

/// What a statement is, without the whitespace around it: the first of a
/// comment, a script, an assignment, a pipeline, a redirected command, a
/// continued command and a command that matches.
pub open spec fn statement_body(s: Seq<char>, pos: int) -> Match {
    if comment(s, pos) is Some {
        comment(s, pos)
    } else if exec_script(s, pos) is Some {
        exec_script(s, pos)
    } else if define(s, pos) is Some {
        define(s, pos)
    } else if pipeline(s, pos) is Some {
        pipeline(s, pos)
    } else if redirect(s, pos) is Some {
        redirect(s, pos)
    } else if command_with_backslash(s, pos) is Some {
        command_with_backslash(s, pos)
    } else {
        command(s, pos)
    }
}

/// A statement, with the whitespace before and after it.
pub open spec fn statement(s: Seq<char>, pos: int) -> Match {
    match statement_body(s, run_end(s, pos, CharClass::Space)) {
        Some((end, tree)) => Some((run_end(s, end, CharClass::Space), tree)),
        None => None,
    }
}

/// A statement and the `;` that may follow it.
pub open spec fn separated_statement(s: Seq<char>, pos: int) -> Match {
    match statement(s, pos) {
        Some((end, tree)) => Some((if at(s, end, ';') { end + 1 } else { end }, tree)),
        None => None,
    }
}

/// The statements from `pos` on.
pub open spec fn statements(s: Seq<char>, pos: int) -> Matches
    decreases s.len() - pos,
{
    match separated_statement(s, pos) {
        Some((after, tree)) if 0 <= pos < after <= s.len() => {
            let (end, rest) = statements(s, after);
            (end, seq![tree] + rest)
        },
        _ => (pos, Seq::empty()),
    }
}

/// Every statement from `pos` on and the whitespace after the last; it
/// matches everywhere, with no statement if need be.
pub open spec fn compound_statement(s: Seq<char>, pos: int) -> Match {
    let (end, items) = statements(s, pos);
    Some((run_end(s, end, CharClass::Space), Syntax::Compound(items)))
}

/// How far into `s` its statements reach: the position after the last
/// statement from the start and the whitespace behind it.
pub open spec fn reach(s: Seq<char>) -> int {
    run_end(s, statements(s, 0).0, CharClass::Space)
}

/// The program that the whole of `s` is, if it is one: its statements must
/// take up all of `s`.
pub open spec fn program(s: Seq<char>) -> Option<Syntax> {
    if reach(s) == s.len() {
        Some(Syntax::Compound(statements(s, 0).1))
    } else {
        None
    }
}

} // verus!
