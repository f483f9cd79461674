//! The parser: shell text in, syntax tree out.
//!
//! The `scan_*` functions apply one rule of the grammar to a vector of
//! characters at a position. [`Parse`] applies a rule to the start of a
//! string and hands back what is left of it, and [`Parse::parse_node`]
//! parses a whole program.

use crate::ast::{
    views, CommandStatement, Comment, CompoundStatement, Define, ExecScript, Identifier, Node,
    Pipeline, Redirect, RedirectErrorOutput, RedirectErrorOutputAppend, RedirectInput,
    RedirectOutput, RedirectOutputAppend, Reference, Syntax,
};
use crate::grammar::{
    argument, arguments, command, command_with_backslash, comment, compound_statement, constant,
    continuation_end, continued_arguments, define, exec_script, filename, filename_with_dot,
    identifier, not_space, pipeline, piped_stage, piped_stages, program, quoted_by, reach,
    redirect,
    redirect_operator, redirect_specifier, redirect_specifiers, reference, separated_statement,
    separator_end, stage, statement, statement_body, statements, token, Match, Matches,
    RedirectKind,
};
use crate::lexeme::{holds, scan_run, CharClass};
use crate::text::{chars_of, string_of};
use vstd::prelude::*;
use vstd::string::StrSliceExecFns;

verus! {

/// Why a text is no program: no rule matches at `position`, counted in
/// characters from the start of the text.
#[derive(Debug, PartialEq, Eq, Structural, Clone, Copy)]
pub struct ParseFailure {
    pub position: usize,
}

/// What a scanner found is what the grammar says.
pub open spec fn agrees(found: Option<(usize, Node)>, m: Match) -> bool {
    match m {
        Some((end, tree)) => found matches Some((e, node)) && e == end && node@ == tree,
        None => found is None,
    }
}

/// What a repeating scanner found is what the grammar says.
pub open spec fn all_agree(found: (usize, Vec<Node>), m: Matches) -> bool {
    found.0 == m.0 && views(found.1@) == m.1
}

/// A scanner that started at `pos` and found something went forward and
/// stayed within the text.
pub open spec fn forward(found: Option<(usize, Node)>, pos: usize, len: nat) -> bool {
    found matches Some((e, _)) ==> pos < e <= len
}

/// A non-empty run of `class` at `pos`, as an identifier.
pub fn scan_token(chars: &Vec<char>, pos: usize, class: CharClass) -> (found: Option<(usize, Node)>)
    requires
        pos <= chars.len(),
    ensures
        agrees(found, token(chars@, pos as int, class)),
        forward(found, pos, chars@.len()),
{
    let end = scan_run(chars, pos, class);
    if pos < end {
        Some((end, Node::Identifier(Identifier::new(string_of(chars, pos, end)))))
    } else {
        None
    }
}

/// A bareword at `pos`.
pub fn scan_constant(chars: &Vec<char>, pos: usize) -> (found: Option<(usize, Node)>)
    requires
        pos <= chars.len(),
    ensures
        agrees(found, constant(chars@, pos as int)),
        forward(found, pos, chars@.len()),
{
    scan_token(chars, pos, CharClass::Bareword)
}

/// A bareword at `pos` that stops at `!` and `$` too.
pub fn scan_not_space(chars: &Vec<char>, pos: usize) -> (found: Option<(usize, Node)>)
    requires
        pos <= chars.len(),
    ensures
        agrees(found, not_space(chars@, pos as int)),
        forward(found, pos, chars@.len()),
{
    scan_token(chars, pos, CharClass::NotSpace)
}

/// A run of dots, ASCII letters and ASCII digits at `pos`.
pub fn scan_filename_with_dot(chars: &Vec<char>, pos: usize) -> (found: Option<(usize, Node)>)
    requires
        pos <= chars.len(),
    ensures
        agrees(found, filename_with_dot(chars@, pos as int)),
        forward(found, pos, chars@.len()),
{
    scan_token(chars, pos, CharClass::Dotted)
}

/// A file name at `pos`.
pub fn scan_filename(chars: &Vec<char>, pos: usize) -> (found: Option<(usize, Node)>)
    requires
        pos <= chars.len(),
    ensures
        agrees(found, filename(chars@, pos as int)),
        forward(found, pos, chars@.len()),
{
    match scan_not_space(chars, pos) {
        Some(m) => Some(m),
        None => scan_filename_with_dot(chars, pos),
    }
}

/// A text between two `quote` characters at `pos`, without the quotes.
pub fn scan_quoted_by(chars: &Vec<char>, pos: usize, quote: char, inside: CharClass) -> (found:
    Option<(usize, Node)>)
    requires
        pos <= chars.len(),
    ensures
        agrees(found, quoted_by(chars@, pos as int, quote, inside)),
        forward(found, pos, chars@.len()),
{
    if !holds(chars, pos, quote) {
        return None;
    }
    let end = scan_run(chars, pos + 1, inside);
    if pos + 1 < end && holds(chars, end, quote) {
        Some((end + 1, Node::Identifier(Identifier::new(string_of(chars, pos + 1, end)))))
    } else {
        None
    }
}

/// A quoted string at `pos`, without its quotes.
pub fn scan_identifier(chars: &Vec<char>, pos: usize) -> (found: Option<(usize, Node)>)
    requires
        pos <= chars.len(),
    ensures
        agrees(found, identifier(chars@, pos as int)),
        forward(found, pos, chars@.len()),
{
    match scan_quoted_by(chars, pos, '"', CharClass::NotDoubleQuote) {
        Some(m) => Some(m),
        None => scan_quoted_by(chars, pos, '\'', CharClass::NotSingleQuote),
    }
}

/// A comment at `pos`: `#` and the rest of the line.
pub fn scan_comment(chars: &Vec<char>, pos: usize) -> (found: Option<(usize, Node)>)
    requires
        pos <= chars.len(),
    ensures
        agrees(found, comment(chars@, pos as int)),
        forward(found, pos, chars@.len()),
{
    if holds(chars, pos, '#') {
        let end = scan_run(chars, pos + 1, CharClass::LineText);
        Some((end, Node::Comment(Comment::new(string_of(chars, pos + 1, end)))))
    } else {
        None
    }
}

/// A variable reference at `pos`: `$` and a bareword.
pub fn scan_reference(chars: &Vec<char>, pos: usize) -> (found: Option<(usize, Node)>)
    requires
        pos <= chars.len(),
    ensures
        agrees(found, reference(chars@, pos as int)),
        forward(found, pos, chars@.len()),
{
    if holds(chars, pos, '$') {
        match scan_constant(chars, pos + 1) {
            Some((end, name)) => Some((end, Node::Reference(Box::new(Reference::new(name))))),
            None => None,
        }
    } else {
        None
    }
}

/// An argument of a command at `pos`: a reference, a quoted string or a
/// bareword.
pub fn scan_argument(chars: &Vec<char>, pos: usize) -> (found: Option<(usize, Node)>)
    requires
        pos <= chars.len(),
    ensures
        agrees(found, argument(chars@, pos as int)),
        forward(found, pos, chars@.len()),
{
    match scan_reference(chars, pos) {
        Some(m) => Some(m),
        None => match scan_identifier(chars, pos) {
            Some(m) => Some(m),
            None => scan_constant(chars, pos),
        },
    }
}

/// `items` with `item` after them has the values of `items` and then the
/// value of `item`, so a repetition that goes on carries what it has found
/// before what is still to come.
proof fn lemma_views_push(items: Seq<Node>, item: Node, rest: Seq<Syntax>)
    ensures
        views(items.push(item)) + rest == views(items) + (seq![item@] + rest),
{
    assert(views(items.push(item)) =~= views(items).push(item@));
    assert(views(items).push(item@) + rest =~= views(items) + (seq![item@] + rest));
}

/// The arguments of a command from `pos` on, and where they end.
pub fn scan_arguments(chars: &Vec<char>, pos: usize) -> (found: (usize, Vec<Node>))
    requires
        pos <= chars.len(),
    ensures
        all_agree(found, arguments(chars@, pos as int)),
        pos <= found.0 <= chars.len(),
{
    let mut cur: usize = pos;
    let mut args: Vec<Node> = Vec::new();
    assert(views(args@) + arguments(chars@, pos as int).1 =~= arguments(chars@, pos as int).1);
    loop
        invariant_except_break
            pos <= cur <= chars.len(),
            arguments(chars@, pos as int) == (
                arguments(chars@, cur as int).0,
                views(args@) + arguments(chars@, cur as int).1,
            ),
        ensures
            pos <= cur <= chars.len(),
            arguments(chars@, pos as int) == (cur as int, views(args@)),
        decreases chars.len() - cur,
    {
        let start = scan_run(chars, cur, CharClass::Blank);
        let next = if cur < start {
            scan_argument(chars, start)
        } else {
            None
        };
        match next {
            Some((after, arg)) => {
                proof {
                    lemma_views_push(args@, arg, arguments(chars@, after as int).1);
                }
                args.push(arg);
                cur = after;
            },
            None => {
                assert(views(args@) + Seq::<Syntax>::empty() =~= views(args@));
                break ;
            },
        }
    }
    (cur, args)
}

/// A command at `pos`: a bareword and its arguments.
pub fn scan_command(chars: &Vec<char>, pos: usize) -> (found: Option<(usize, Node)>)
    requires
        pos <= chars.len(),
    ensures
        agrees(found, command(chars@, pos as int)),
        forward(found, pos, chars@.len()),
{
    match scan_constant(chars, pos) {
        Some((after_name, name)) => {
            let (end, args) = scan_arguments(chars, after_name);
            Some((end, Node::CommandStatement(Box::new(CommandStatement::new(name, args)))))
        },
        None => None,
    }
}

/// Where the line continuation at `pos` ends; `pos` where there is none.
pub fn scan_continuation(chars: &Vec<char>, pos: usize) -> (end: usize)
    requires
        pos <= chars.len(),
    ensures
        end == continuation_end(chars@, pos as int),
        pos <= end <= chars.len(),
{
    if !holds(chars, pos, '\\') {
        return pos;
    }
    let mut after_note: usize = pos + 1;
    if holds(chars, pos + 1, ' ') && holds(chars, pos + 2, ' ') {
        let note = scan_run(chars, pos + 3, CharClass::Space);
        match scan_comment(chars, note) {
            Some((end, _)) => {
                after_note = end;
            },
            None => {},
        }
    }
    let line_end = scan_run(chars, after_note, CharClass::Blank);
    if holds(chars, line_end, '\n') {
        line_end + 1
    } else {
        line_end
    }
}

/// Where what separates two arguments of a continued command ends.
pub fn scan_separator(chars: &Vec<char>, pos: usize) -> (end: usize)
    requires
        pos <= chars.len(),
    ensures
        end == separator_end(chars@, pos as int),
        pos <= end <= chars.len(),
{
    let blanks = scan_run(chars, pos, CharClass::Blank);
    let continued = scan_continuation(chars, blanks);
    scan_run(chars, continued, CharClass::Blank)
}

/// The arguments of a continued command from `pos` on, and where they end.
pub fn scan_continued_arguments(chars: &Vec<char>, pos: usize) -> (found: (usize, Vec<Node>))
    requires
        pos <= chars.len(),
    ensures
        all_agree(found, continued_arguments(chars@, pos as int)),
        pos <= found.0 <= chars.len(),
{
    let mut cur: usize = pos;
    let mut args: Vec<Node> = Vec::new();
    assert(views(args@) + continued_arguments(chars@, pos as int).1 =~= continued_arguments(
        chars@,
        pos as int,
    ).1);
    loop
        invariant_except_break
            pos <= cur <= chars.len(),
            continued_arguments(chars@, pos as int) == (
                continued_arguments(chars@, cur as int).0,
                views(args@) + continued_arguments(chars@, cur as int).1,
            ),
        ensures
            pos <= cur <= chars.len(),
            continued_arguments(chars@, pos as int) == (cur as int, views(args@)),
        decreases chars.len() - cur,
    {
        let start = scan_separator(chars, cur);
        let next = if cur < start {
            scan_argument(chars, start)
        } else {
            None
        };
        match next {
            Some((after, arg)) => {
                proof {
                    lemma_views_push(args@, arg, continued_arguments(chars@, after as int).1);
                }
                args.push(arg);
                cur = after;
            },
            None => {
                assert(views(args@) + Seq::<Syntax>::empty() =~= views(args@));
                break ;
            },
        }
    }
    (cur, args)
}

/// A command at `pos` with at least one argument, whose arguments may go
/// on after a backslash at the end of a line.
pub fn scan_command_with_backslash(chars: &Vec<char>, pos: usize) -> (found: Option<(usize, Node)>)
    requires
        pos <= chars.len(),
    ensures
        agrees(found, command_with_backslash(chars@, pos as int)),
        forward(found, pos, chars@.len()),
{
    match scan_constant(chars, pos) {
        Some((after_name, name)) => {
            let (end, args) = scan_continued_arguments(chars, after_name);
            if args.len() > 0 {
                Some((end, Node::CommandStatement(Box::new(CommandStatement::new(name, args)))))
            } else {
                None
            }
        },
        None => None,
    }
}

/// The redirection operator at `pos`: the position after it and its kind.
pub fn scan_redirect_operator(chars: &Vec<char>, pos: usize) -> (found: Option<
    (usize, RedirectKind),
>)
    requires
        pos <= chars.len(),
    ensures
        match redirect_operator(chars@, pos as int) {
            Some((end, kind)) => found == Some((end as usize, kind)) && pos < end <= chars.len(),
            None => found is None,
        },
{
    if holds(chars, pos, '<') {
        Some((pos + 1, RedirectKind::Input))
    } else if holds(chars, pos, '>') && holds(chars, pos + 1, '>') {
        Some((pos + 2, RedirectKind::OutputAppend))
    } else if holds(chars, pos, '>') {
        Some((pos + 1, RedirectKind::Output))
    } else if holds(chars, pos, '2') && holds(chars, pos + 1, '>') && holds(chars, pos + 2, '>') {
        Some((pos + 3, RedirectKind::ErrorOutputAppend))
    } else if holds(chars, pos, '2') && holds(chars, pos + 1, '>') {
        Some((pos + 2, RedirectKind::ErrorOutput))
    } else {
        None
    }
}

/// The redirection specifier of `kind` with `destination` as the file.
pub fn redirect_node(kind: RedirectKind, destination: Node) -> (node: Node)
    ensures
        node@ == kind.wrap(destination@),
{
    match kind {
        RedirectKind::Input => Node::RedirectInput(Box::new(RedirectInput::new(destination))),
        RedirectKind::Output => Node::RedirectOutput(Box::new(RedirectOutput::new(destination))),
        RedirectKind::OutputAppend => Node::RedirectOutputAppend(
            Box::new(RedirectOutputAppend::new(destination)),
        ),
        RedirectKind::ErrorOutput => Node::RedirectErrorOutput(
            Box::new(RedirectErrorOutput::new(destination)),
        ),
        RedirectKind::ErrorOutputAppend => Node::RedirectErrorOutputAppend(
            Box::new(RedirectErrorOutputAppend::new(destination)),
        ),
    }
}

/// A redirection specifier at `pos`: an operator and a file name.
pub fn scan_redirect_specifier(chars: &Vec<char>, pos: usize) -> (found: Option<(usize, Node)>)
    requires
        pos <= chars.len(),
    ensures
        agrees(found, redirect_specifier(chars@, pos as int)),
        forward(found, pos, chars@.len()),
{
    let operator = scan_run(chars, pos, CharClass::Space);
    match scan_redirect_operator(chars, operator) {
        Some((after_operator, kind)) => {
            let name = scan_run(chars, after_operator, CharClass::Space);
            match scan_filename(chars, name) {
                Some((end, destination)) => Some((end, redirect_node(kind, destination))),
                None => None,
            }
        },
        None => None,
    }
}

/// The redirection specifiers from `pos` on, and where they end.
pub fn scan_redirect_specifiers(chars: &Vec<char>, pos: usize) -> (found: (usize, Vec<Node>))
    requires
        pos <= chars.len(),
    ensures
        all_agree(found, redirect_specifiers(chars@, pos as int)),
        pos <= found.0 <= chars.len(),
{
    let mut cur: usize = pos;
    let mut specifiers: Vec<Node> = Vec::new();
    assert(views(specifiers@) + redirect_specifiers(chars@, pos as int).1 =~= redirect_specifiers(
        chars@,
        pos as int,
    ).1);
    loop
        invariant_except_break
            pos <= cur <= chars.len(),
            redirect_specifiers(chars@, pos as int) == (
                redirect_specifiers(chars@, cur as int).0,
                views(specifiers@) + redirect_specifiers(chars@, cur as int).1,
            ),
        ensures
            pos <= cur <= chars.len(),
            redirect_specifiers(chars@, pos as int) == (cur as int, views(specifiers@)),
        decreases chars.len() - cur,
    {
        match scan_redirect_specifier(chars, cur) {
            Some((after, specifier)) => {
                proof {
                    lemma_views_push(
                        specifiers@,
                        specifier,
                        redirect_specifiers(chars@, after as int).1,
                    );
                }
                specifiers.push(specifier);
                cur = after;
            },
            None => {
                assert(views(specifiers@) + Seq::<Syntax>::empty() =~= views(specifiers@));
                break ;
            },
        }
    }
    (cur, specifiers)
}

/// A command with at least one redirection specifier at `pos`.
pub fn scan_redirect(chars: &Vec<char>, pos: usize) -> (found: Option<(usize, Node)>)
    requires
        pos <= chars.len(),
    ensures
        agrees(found, redirect(chars@, pos as int)),
        forward(found, pos, chars@.len()),
{
    match scan_command(chars, pos) {
        Some((after_command, cmd)) => {
            let (end, specifiers) = scan_redirect_specifiers(chars, after_command);
            if specifiers.len() > 0 {
                Some((end, Node::Redirect(Box::new(Redirect::new(cmd, specifiers)))))
            } else {
                None
            }
        },
        None => None,
    }
}

/// One stage of a pipeline at `pos`: a redirected command, or else a
/// command.
pub fn scan_stage(chars: &Vec<char>, pos: usize) -> (found: Option<(usize, Node)>)
    requires
        pos <= chars.len(),
    ensures
        agrees(found, stage(chars@, pos as int)),
        forward(found, pos, chars@.len()),
{
    match scan_redirect(chars, pos) {
        Some(m) => Some(m),
        None => scan_command(chars, pos),
    }
}

/// A `|` at `pos`, with whitespace around it, and the stage after it.
pub fn scan_piped_stage(chars: &Vec<char>, pos: usize) -> (found: Option<(usize, Node)>)
    requires
        pos <= chars.len(),
    ensures
        agrees(found, piped_stage(chars@, pos as int)),
        forward(found, pos, chars@.len()),
{
    let bar = scan_run(chars, pos, CharClass::Space);
    if holds(chars, bar, '|') {
        let next = scan_run(chars, bar + 1, CharClass::Space);
        scan_stage(chars, next)
    } else {
        None
    }
}

/// The stages that follow the first stage of a pipeline from `pos` on, and
/// where they end.
pub fn scan_piped_stages(chars: &Vec<char>, pos: usize) -> (found: (usize, Vec<Node>))
    requires
        pos <= chars.len(),
    ensures
        all_agree(found, piped_stages(chars@, pos as int)),
        pos <= found.0 <= chars.len(),
{
    let mut cur: usize = pos;
    let mut stages: Vec<Node> = Vec::new();
    assert(views(stages@) + piped_stages(chars@, pos as int).1 =~= piped_stages(
        chars@,
        pos as int,
    ).1);
    loop
        invariant_except_break
            pos <= cur <= chars.len(),
            piped_stages(chars@, pos as int) == (
                piped_stages(chars@, cur as int).0,
                views(stages@) + piped_stages(chars@, cur as int).1,
            ),
        ensures
            pos <= cur <= chars.len(),
            piped_stages(chars@, pos as int) == (cur as int, views(stages@)),
        decreases chars.len() - cur,
    {
        match scan_piped_stage(chars, cur) {
            Some((after, next)) => {
                proof {
                    lemma_views_push(stages@, next, piped_stages(chars@, after as int).1);
                }
                stages.push(next);
                cur = after;
            },
            None => {
                assert(views(stages@) + Seq::<Syntax>::empty() =~= views(stages@));
                break ;
            },
        }
    }
    (cur, stages)
}

/// A pipeline at `pos`: two or more stages with `|` between them.
pub fn scan_pipeline(chars: &Vec<char>, pos: usize) -> (found: Option<(usize, Node)>)
    requires
        pos <= chars.len(),
    ensures
        agrees(found, pipeline(chars@, pos as int)),
        forward(found, pos, chars@.len()),
{
    match scan_stage(chars, pos) {
        Some((after_first, first)) => {
            let (end, rest) = scan_piped_stages(chars, after_first);
            if rest.len() > 0 {
                let mut stages = rest;
                stages.insert(0, first);
                assert(views(stages@) =~= seq![first@] + views(rest@));
                Some((end, Node::Pipeline(Pipeline::new(stages))))
            } else {
                None
            }
        },
        None => None,
    }
}

/// A script to run at `pos`: `./` and a file name.
pub fn scan_exec_script(chars: &Vec<char>, pos: usize) -> (found: Option<(usize, Node)>)
    requires
        pos <= chars.len(),
    ensures
        agrees(found, exec_script(chars@, pos as int)),
        forward(found, pos, chars@.len()),
{
    if holds(chars, pos, '.') && holds(chars, pos + 1, '/') {
        match scan_filename(chars, pos + 2) {
            Some((end, name)) => Some((end, Node::ExecScript(Box::new(ExecScript::new(name))))),
            None => None,
        }
    } else {
        None
    }
}

/// An assignment at `pos`: a bareword, `=` and a quoted string.
pub fn scan_define(chars: &Vec<char>, pos: usize) -> (found: Option<(usize, Node)>)
    requires
        pos <= chars.len(),
    ensures
        agrees(found, define(chars@, pos as int)),
        forward(found, pos, chars@.len()),
{
    let start = scan_run(chars, pos, CharClass::Space);
    match scan_constant(chars, start) {
        Some((after_name, name)) => {
            if holds(chars, after_name, '=') {
                match scan_identifier(chars, after_name + 1) {
                    Some((end, data)) => Some(
                        (end, Node::Define(Box::new(Define::new(name, data)))),
                    ),
                    None => None,
                }
            } else {
                None
            }
        },
        None => None,
    }
}

/// What a statement is, at `pos`: the first of the kinds of statement that
/// matches.
pub fn scan_statement_body(chars: &Vec<char>, pos: usize) -> (found: Option<(usize, Node)>)
    requires
        pos <= chars.len(),
    ensures
        agrees(found, statement_body(chars@, pos as int)),
        forward(found, pos, chars@.len()),
{
    let found = scan_comment(chars, pos);
    if found.is_some() {
        return found;
    }
    let found = scan_exec_script(chars, pos);
    if found.is_some() {
        return found;
    }
    let found = scan_define(chars, pos);
    if found.is_some() {
        return found;
    }
    let found = scan_pipeline(chars, pos);
    if found.is_some() {
        return found;
    }
    let found = scan_redirect(chars, pos);
    if found.is_some() {
        return found;
    }
    let found = scan_command_with_backslash(chars, pos);
    if found.is_some() {
        return found;
    }
    scan_command(chars, pos)
}

/// A statement at `pos`, with the whitespace before and after it.
pub fn scan_statement(chars: &Vec<char>, pos: usize) -> (found: Option<(usize, Node)>)
    requires
        pos <= chars.len(),
    ensures
        agrees(found, statement(chars@, pos as int)),
        forward(found, pos, chars@.len()),
{
    let start = scan_run(chars, pos, CharClass::Space);
    match scan_statement_body(chars, start) {
        Some((end, node)) => Some((scan_run(chars, end, CharClass::Space), node)),
        None => None,
    }
}

/// A statement at `pos` and the `;` that may follow it.
pub fn scan_separated_statement(chars: &Vec<char>, pos: usize) -> (found: Option<(usize, Node)>)
    requires
        pos <= chars.len(),
    ensures
        agrees(found, separated_statement(chars@, pos as int)),
        forward(found, pos, chars@.len()),
{
    match scan_statement(chars, pos) {
        Some((end, node)) => {
            if holds(chars, end, ';') {
                Some((end + 1, node))
            } else {
                Some((end, node))
            }
        },
        None => None,
    }
}

/// The statements from `pos` on, and where they end.
pub fn scan_statements(chars: &Vec<char>, pos: usize) -> (found: (usize, Vec<Node>))
    requires
        pos <= chars.len(),
    ensures
        all_agree(found, statements(chars@, pos as int)),
        pos <= found.0 <= chars.len(),
{
    let mut cur: usize = pos;
    let mut items: Vec<Node> = Vec::new();
    assert(views(items@) + statements(chars@, pos as int).1 =~= statements(chars@, pos as int).1);
    loop
        invariant_except_break
            pos <= cur <= chars.len(),
            statements(chars@, pos as int) == (
                statements(chars@, cur as int).0,
                views(items@) + statements(chars@, cur as int).1,
            ),
        ensures
            pos <= cur <= chars.len(),
            statements(chars@, pos as int) == (cur as int, views(items@)),
        decreases chars.len() - cur,
    {
        match scan_separated_statement(chars, cur) {
            Some((after, item)) => {
                proof {
                    lemma_views_push(items@, item, statements(chars@, after as int).1);
                }
                items.push(item);
                cur = after;
            },
            None => {
                assert(views(items@) + Seq::<Syntax>::empty() =~= views(items@));
                break ;
            },
        }
    }
    (cur, items)
}

/// Every statement from `pos` on, as one compound statement, and the
/// whitespace after the last.
pub fn scan_compound_statement(chars: &Vec<char>, pos: usize) -> (found: Option<(usize, Node)>)
    requires
        pos <= chars.len(),
    ensures
        agrees(found, compound_statement(chars@, pos as int)),
        found matches Some((e, _)) && pos <= e <= chars.len(),
{
    let (end, items) = scan_statements(chars, pos);
    Some(
        (
            scan_run(chars, end, CharClass::Space),
            Node::CompoundStatement(CompoundStatement::new(items)),
        ),
    )
}

/// What applying a rule to the start of a text gives: where the rule
/// matches, what is left of the text and the node matched; where it does
/// not, a failure at position 0.
pub open spec fn delivered(res: Result<(&str, Node), ParseFailure>, s: Seq<char>, m: Match) -> bool {
    match m {
        Some((end, tree)) => res matches Ok((rest, node)) && rest@ == s.subrange(
            end,
            s.len() as int,
        ) && node@ == tree,
        None => res matches Err(failure) && failure.position == 0,
    }
}

/// The parser of the shell language.
pub struct Parse {}

impl Parse {
    fn deliver<'a>(input: &'a str, len: usize, found: Option<(usize, Node)>) -> (res: Result<
        (&'a str, Node),
        ParseFailure,
    >)
        requires
            len == input@.len(),
            found matches Some((e, _)) ==> e <= len,
        ensures
            match found {
                Some((e, node)) => res matches Ok((rest, out)) && rest@ == input@.subrange(
                    e as int,
                    len as int,
                ) && out == node,
                None => res matches Err(failure) && failure.position == 0,
            },
    {
        match found {
            Some((e, node)) => Ok((input.substring_char(e, len), node)),
            None => Err(ParseFailure { position: 0 }),
        }
    }

    /// Reads a comment from the start of `input`.
    pub fn parse_comment(input: &str) -> (res: Result<(&str, Node), ParseFailure>)
        ensures
            delivered(res, input@, comment(input@, 0)),
    {
        let chars = chars_of(input);
        Self::deliver(input, chars.len(), scan_comment(&chars, 0))
    }

    /// Reads a bareword from the start of `input`.
    pub fn parse_constant(input: &str) -> (res: Result<(&str, Node), ParseFailure>)
        ensures
            delivered(res, input@, constant(input@, 0)),
    {
        let chars = chars_of(input);
        Self::deliver(input, chars.len(), scan_constant(&chars, 0))
    }

    /// Reads a quoted string from the start of `input`.
    pub fn parse_identifier(input: &str) -> (res: Result<(&str, Node), ParseFailure>)
        ensures
            delivered(res, input@, identifier(input@, 0)),
    {
        let chars = chars_of(input);
        Self::deliver(input, chars.len(), scan_identifier(&chars, 0))
    }

    /// Reads a bareword that stops at `!` and `$` too from the start of `input`.
    pub fn parse_not_space(input: &str) -> (res: Result<(&str, Node), ParseFailure>)
        ensures
            delivered(res, input@, not_space(input@, 0)),
    {
        let chars = chars_of(input);
        Self::deliver(input, chars.len(), scan_not_space(&chars, 0))
    }

    /// Reads a run of dots, ASCII letters and ASCII digits from the start of `input`.
    pub fn parse_filename_with_dot(input: &str) -> (res: Result<(&str, Node), ParseFailure>)
        ensures
            delivered(res, input@, filename_with_dot(input@, 0)),
    {
        let chars = chars_of(input);
        Self::deliver(input, chars.len(), scan_filename_with_dot(&chars, 0))
    }

    /// Reads a file name from the start of `input`.
    pub fn parse_filename(input: &str) -> (res: Result<(&str, Node), ParseFailure>)
        ensures
            delivered(res, input@, filename(input@, 0)),
    {
        let chars = chars_of(input);
        Self::deliver(input, chars.len(), scan_filename(&chars, 0))
    }

    /// Reads a script to run from the start of `input`.
    pub fn parse_exec_script(input: &str) -> (res: Result<(&str, Node), ParseFailure>)
        ensures
            delivered(res, input@, exec_script(input@, 0)),
    {
        let chars = chars_of(input);
        Self::deliver(input, chars.len(), scan_exec_script(&chars, 0))
    }

    /// Reads a variable reference from the start of `input`.
    pub fn parse_reference(input: &str) -> (res: Result<(&str, Node), ParseFailure>)
        ensures
            delivered(res, input@, reference(input@, 0)),
    {
        let chars = chars_of(input);
        Self::deliver(input, chars.len(), scan_reference(&chars, 0))
    }

    /// Reads a command from the start of `input`.
    pub fn parse_command(input: &str) -> (res: Result<(&str, Node), ParseFailure>)
        ensures
            delivered(res, input@, command(input@, 0)),
    {
        let chars = chars_of(input);
        Self::deliver(input, chars.len(), scan_command(&chars, 0))
    }

    /// Reads a command that goes on after a backslash from the start of `input`.
    pub fn parse_command_with_backslash(input: &str) -> (res: Result<(&str, Node), ParseFailure>)
        ensures
            delivered(res, input@, command_with_backslash(input@, 0)),
    {
        let chars = chars_of(input);
        Self::deliver(input, chars.len(), scan_command_with_backslash(&chars, 0))
    }

    /// Reads an assignment from the start of `input`.
    pub fn parse_define(input: &str) -> (res: Result<(&str, Node), ParseFailure>)
        ensures
            delivered(res, input@, define(input@, 0)),
    {
        let chars = chars_of(input);
        Self::deliver(input, chars.len(), scan_define(&chars, 0))
    }

    /// Reads a redirection specifier from the start of `input`.
    pub fn parse_redirect_specifier(input: &str) -> (res: Result<(&str, Node), ParseFailure>)
        ensures
            delivered(res, input@, redirect_specifier(input@, 0)),
    {
        let chars = chars_of(input);
        Self::deliver(input, chars.len(), scan_redirect_specifier(&chars, 0))
    }

    /// Reads a redirected command from the start of `input`.
    pub fn parse_redirect(input: &str) -> (res: Result<(&str, Node), ParseFailure>)
        ensures
            delivered(res, input@, redirect(input@, 0)),
    {
        let chars = chars_of(input);
        Self::deliver(input, chars.len(), scan_redirect(&chars, 0))
    }

    /// Reads a pipeline from the start of `input`.
    pub fn parse_pipeline(input: &str) -> (res: Result<(&str, Node), ParseFailure>)
        ensures
            delivered(res, input@, pipeline(input@, 0)),
    {
        let chars = chars_of(input);
        Self::deliver(input, chars.len(), scan_pipeline(&chars, 0))
    }

    /// Reads a statement from the start of `input`.
    pub fn parse_statement(input: &str) -> (res: Result<(&str, Node), ParseFailure>)
        ensures
            delivered(res, input@, statement(input@, 0)),
    {
        let chars = chars_of(input);
        Self::deliver(input, chars.len(), scan_statement(&chars, 0))
    }

    /// Reads every statement it can from the start of `input`.
    pub fn parse_compound_statement(input: &str) -> (res: Result<(&str, Node), ParseFailure>)
        ensures
            delivered(res, input@, compound_statement(input@, 0)),
    {
        let chars = chars_of(input);
        Self::deliver(input, chars.len(), scan_compound_statement(&chars, 0))
    }

    /// Parses a whole program: the statements of `input` must take up all
    /// of it. Where they do not, the failure names the position that they
    /// reach.
    pub fn parse_node(input: &str) -> (res: Result<Node, ParseFailure>)
        ensures
            match program(input@) {
                Some(tree) => res matches Ok(node) && node@ == tree,
                None => res matches Err(failure) && failure.position == reach(input@),
            },
    {
        let chars = chars_of(input);
        let (end, items) = scan_statements(&chars, 0);
        let position = scan_run(&chars, end, CharClass::Space);
        if position == chars.len() {
            Ok(Node::CompoundStatement(CompoundStatement::new(items)))
        } else {
            Err(ParseFailure { position })
        }
    }
}

} // verus!
