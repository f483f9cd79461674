//! Facts about the grammar: what it makes of texts of a known shape.

use crate::ast::Syntax;
use crate::grammar::{
    argument, arguments, command, command_with_backslash, comment, compound_statement, constant,
    continued_arguments, define, exec_script, filename, filename_with_dot,
    identifier, not_space, pipeline, piped_stage, piped_stages, program, reach, redirect,
    redirect_operator, redirect_specifier, redirect_specifiers, reference, separated_statement,
    separator_end, stage, statement, statement_body, statements, token, Match, Matches,
};
use crate::lexeme::{
    at, is_bareword_char, is_blank, lemma_run_end, lemma_run_end_is, run_end, CharClass,
};
use vstd::prelude::*;

verus! {

/// A bareword stands in `s` from `from` to `to`: bareword characters only,
/// at least one, and none follows.
pub open spec fn word_at(s: Seq<char>, from: int, to: int) -> bool {
    &&& 0 <= from < to <= s.len()
    &&& forall|i: int| from <= i < to ==> is_bareword_char(#[trigger] s[i])
    &&& to < s.len() ==> !is_bareword_char(s[to])
}

/// The word from `from` to `to` is no variable reference: it is not a `$`
/// with more behind it.
pub open spec fn plain_at(s: Seq<char>, from: int, to: int) -> bool {
    word_at(s, from, to) && !(s[from] == '$' && from + 1 < to)
}

/// A bareword is read as an identifier with its text.
pub proof fn lemma_constant(s: Seq<char>, from: int, to: int)
    requires
        word_at(s, from, to),
    ensures
        constant(s, from) == Some((to, Syntax::Identifier(s.subrange(from, to)))),
{
    lemma_run_end_is(s, from, to, CharClass::Bareword);
}

/// A bareword that is no reference is read, as an argument, as an
/// identifier with its text.
pub proof fn lemma_plain_argument(s: Seq<char>, from: int, to: int)
    requires
        plain_at(s, from, to),
    ensures
        argument(s, from) == Some((to, Syntax::Identifier(s.subrange(from, to)))),
{
    lemma_constant(s, from, to);
    if s[from] == '$' {
        lemma_run_end_is(s, from + 1, from + 1, CharClass::Bareword);
    }
    assert(is_bareword_char(s[from]));
}

/// No argument starts where no bareword character, no quote and no `$`
/// stands, nor at the end of the text.
pub proof fn lemma_no_argument(s: Seq<char>, pos: int)
    requires
        0 <= pos <= s.len(),
        pos < s.len() ==> !is_bareword_char(s[pos]) && s[pos] != '"' && s[pos] != '\'',
    ensures
        argument(s, pos) is None,
        constant(s, pos) is None,
{
    lemma_run_end_is(s, pos, pos, CharClass::Bareword);
}

/// One more argument: after a single space and a plain word, the
/// arguments are that word and the arguments that follow it.
pub proof fn lemma_arguments_step(s: Seq<char>, pos: int, to: int)
    requires
        0 <= pos < s.len(),
        s[pos] == ' ',
        plain_at(s, pos + 1, to),
    ensures
        arguments(s, pos) == (
            arguments(s, to).0,
            seq![Syntax::Identifier(s.subrange(pos + 1, to))] + arguments(s, to).1,
        ),
{
    assert(is_bareword_char(s[pos + 1]));
    lemma_run_end_is(s, pos, pos + 1, CharClass::Blank);
    lemma_plain_argument(s, pos + 1, to);
}

/// The arguments end where the text ends, and before a space that no
/// argument follows.
pub proof fn lemma_arguments_end(s: Seq<char>, pos: int)
    requires
        0 <= pos <= s.len(),
        pos < s.len() ==> s[pos] == ' ' && pos + 1 < s.len() && !is_bareword_char(s[pos + 1])
            && !is_blank(s[pos + 1]) && s[pos + 1] != '"' && s[pos + 1] != '\'',
    ensures
        arguments(s, pos) == (pos, Seq::<Syntax>::empty()),
{
    if pos < s.len() {
        lemma_run_end_is(s, pos, pos + 1, CharClass::Blank);
        lemma_no_argument(s, pos + 1);
    } else {
        lemma_run_end_is(s, pos, pos, CharClass::Blank);
    }
}

/// No redirection specifier stands at the end of the text, nor before a
/// space and a `|`.
pub proof fn lemma_no_specifier(s: Seq<char>, pos: int)
    requires
        0 <= pos <= s.len(),
        pos < s.len() ==> s[pos] == ' ' && pos + 1 < s.len() && s[pos + 1] == '|',
    ensures
        redirect_specifiers(s, pos) == (pos, Seq::<Syntax>::empty()),
{
    if pos < s.len() {
        lemma_run_end_is(s, pos, pos + 1, CharClass::Space);
    } else {
        lemma_run_end_is(s, pos, pos, CharClass::Space);
    }
    assert(redirect_operator(s, run_end(s, pos, CharClass::Space)) is None);
    assert(redirect_specifier(s, pos) is None);
}

/// Nothing can be read at the end of a text: no statement starts there.
pub proof fn lemma_nothing_at_end(s: Seq<char>)
    ensures
        statements(s, s.len() as int) == (s.len() as int, Seq::<Syntax>::empty()),
        piped_stages(s, s.len() as int) == (s.len() as int, Seq::<Syntax>::empty()),
        reach(s) == run_end(s, statements(s, 0).0, CharClass::Space),
{
    let n = s.len() as int;
    lemma_run_end_is(s, n, n, CharClass::Space);
    lemma_run_end_is(s, n, n, CharClass::Bareword);
    assert(constant(s, n) is None);
    assert(command(s, n) is None);
    assert(redirect(s, n) is None);
    assert(stage(s, n) is None);
    assert(pipeline(s, n) is None);
    assert(command_with_backslash(s, n) is None);
    assert(comment(s, n) is None);
    assert(exec_script(s, n) is None);
    assert(define(s, n) is None);
    assert(statement_body(s, n) is None);
    assert(statement(s, n) is None);
    assert(separated_statement(s, n) is None);
    assert(piped_stage(s, n) is None);
}

/// Whether a word would be read as a script to run: `./` and a character
/// that a file name can start with.
pub open spec fn starts_script(word: Seq<char>) -> bool {
    word.len() >= 3 && word[0] == '.' && word[1] == '/' && word[2] != '!' && word[2] != '$'
}

/// A plain word: bareword characters only, at least one, and no `$` with
/// more behind it.
pub open spec fn is_plain_word(word: Seq<char>) -> bool {
    &&& word.len() > 0
    &&& forall|i: int| 0 <= i < word.len() ==> is_bareword_char(#[trigger] word[i])
    &&& !(word[0] == '$' && word.len() > 1)
}

/// A bareword: bareword characters only, at least one.
pub open spec fn is_word(word: Seq<char>) -> bool {
    &&& word.len() > 0
    &&& forall|i: int| 0 <= i < word.len() ==> is_bareword_char(#[trigger] word[i])
}

/// The text of the pipeline `c1 a1 a2 | c2 b1`.
#[verifier::opaque]
pub open spec fn two_stage_text(
    c1: Seq<char>,
    a1: Seq<char>,
    a2: Seq<char>,
    c2: Seq<char>,
    b1: Seq<char>,
) -> Seq<char> {
    c1 + seq![' '] + a1 + seq![' '] + a2 + seq![' ', '|', ' '] + c2 + seq![' '] + b1
}

/// The tree of the pipeline `c1 a1 a2 | c2 b1`.
pub open spec fn two_stage_tree(
    c1: Seq<char>,
    a1: Seq<char>,
    a2: Seq<char>,
    c2: Seq<char>,
    b1: Seq<char>,
) -> Syntax {
    Syntax::Pipeline(
        seq![
            Syntax::Command(
                Box::new(Syntax::Identifier(c1)),
                seq![Syntax::Identifier(a1), Syntax::Identifier(a2)],
            ),
            Syntax::Command(Box::new(Syntax::Identifier(c2)), seq![Syntax::Identifier(b1)]),
        ],
    )
}

/// Where the words of `c1 a1 a2 | c2 b1` stand in its text.
proof fn lemma_two_stage_layout(
    c1: Seq<char>,
    a1: Seq<char>,
    a2: Seq<char>,
    c2: Seq<char>,
    b1: Seq<char>,
)
    requires
        is_word(c1),
        is_plain_word(a1),
        is_plain_word(a2),
        is_word(c2),
        is_plain_word(b1),
    ensures
        ({
            let s = two_stage_text(c1, a1, a2, c2, b1);
            let e1 = c1.len() as int;
            let e2 = e1 + 1 + a1.len();
            let e3 = e2 + 1 + a2.len();
            let f0 = e3 + 3;
            let f1 = f0 + c2.len();
            let n = s.len() as int;
            &&& n == f1 + 1 + b1.len()
            &&& word_at(s, 0, e1)
            &&& plain_at(s, e1 + 1, e2)
            &&& plain_at(s, e2 + 1, e3)
            &&& word_at(s, f0, f1)
            &&& plain_at(s, f1 + 1, n)
            &&& s[e1] == ' '
            &&& s[e2] == ' '
            &&& s[e3] == ' '
            &&& s[e3 + 1] == '|'
            &&& s[e3 + 2] == ' '
            &&& s[f1] == ' '
            &&& s.subrange(0, e1) == c1
            &&& s.subrange(e1 + 1, e2) == a1
            &&& s.subrange(e2 + 1, e3) == a2
            &&& s.subrange(f0, f1) == c2
            &&& s.subrange(f1 + 1, n) == b1
        }),
{
    reveal(two_stage_text);
    let s = two_stage_text(c1, a1, a2, c2, b1);
    let n = s.len() as int;
    let e1 = c1.len() as int;
    let e2 = e1 + 1 + a1.len();
    let e3 = e2 + 1 + a2.len();
    let f0 = e3 + 3;
    let f1 = f0 + c2.len();
    assert(n == f1 + 1 + b1.len());
    assert forall|i: int| 0 <= i < e1 implies #[trigger] s[i] == c1[i] by {}
    assert forall|i: int| e1 + 1 <= i < e2 implies #[trigger] s[i] == a1[i - e1 - 1] by {}
    assert forall|i: int| e2 + 1 <= i < e3 implies #[trigger] s[i] == a2[i - e2 - 1] by {}
    assert forall|i: int| f0 <= i < f1 implies #[trigger] s[i] == c2[i - f0] by {}
    assert forall|i: int| f1 + 1 <= i < n implies #[trigger] s[i] == b1[i - f1 - 1] by {}
    assert(s[e1] == ' ');
    assert(s[e2] == ' ');
    assert(s[e3] == ' ');
    assert(s[e3 + 1] == '|');
    assert(s[e3 + 2] == ' ');
    assert(s[f1] == ' ');
    assert(s.subrange(0, e1) =~= c1);
    assert(s.subrange(e1 + 1, e2) =~= a1);
    assert(s.subrange(e2 + 1, e3) =~= a2);
    assert(s.subrange(f0, f1) =~= c2);
    assert(s.subrange(f1 + 1, n) =~= b1);
    assert(s[e1 + 1] == a1[0]);
    assert(s[e2 + 1] == a2[0]);
    assert(s[f1 + 1] == b1[0]);
}

/// A command with two plain arguments that nothing to read follows: a
/// bareword, and twice a space and a plain word.
proof fn lemma_command_two(s: Seq<char>, from: int, e1: int, e2: int, e3: int)
    requires
        word_at(s, from, e1),
        e1 < s.len() && s[e1] == ' ',
        plain_at(s, e1 + 1, e2),
        e2 < s.len() && s[e2] == ' ',
        plain_at(s, e2 + 1, e3),
        e3 < s.len() ==> s[e3] == ' ' && e3 + 1 < s.len() && s[e3 + 1] == '|',
    ensures
        stage(s, from) == Some(
            (
                e3,
                Syntax::Command(
                    Box::new(Syntax::Identifier(s.subrange(from, e1))),
                    seq![
                        Syntax::Identifier(s.subrange(e1 + 1, e2)),
                        Syntax::Identifier(s.subrange(e2 + 1, e3)),
                    ],
                ),
            ),
        ),
{
    lemma_constant(s, from, e1);
    lemma_arguments_step(s, e1, e2);
    lemma_arguments_step(s, e2, e3);
    lemma_arguments_end(s, e3);
    assert(arguments(s, e1).1 =~= seq![
        Syntax::Identifier(s.subrange(e1 + 1, e2)),
        Syntax::Identifier(s.subrange(e2 + 1, e3)),
    ]);
    lemma_no_specifier(s, e3);
    assert(redirect(s, from) is None);
}

/// A command with one plain argument that nothing to read follows.
proof fn lemma_command_one(s: Seq<char>, from: int, e1: int, e2: int)
    requires
        word_at(s, from, e1),
        e1 < s.len() && s[e1] == ' ',
        plain_at(s, e1 + 1, e2),
        e2 < s.len() ==> s[e2] == ' ' && e2 + 1 < s.len() && s[e2 + 1] == '|',
    ensures
        stage(s, from) == Some(
            (
                e2,
                Syntax::Command(
                    Box::new(Syntax::Identifier(s.subrange(from, e1))),
                    seq![Syntax::Identifier(s.subrange(e1 + 1, e2))],
                ),
            ),
        ),
{
    lemma_constant(s, from, e1);
    lemma_arguments_step(s, e1, e2);
    lemma_arguments_end(s, e2);
    assert(arguments(s, e1).1 =~= seq![Syntax::Identifier(s.subrange(e1 + 1, e2))]);
    lemma_no_specifier(s, e2);
    assert(redirect(s, from) is None);
}

/// A last stage: after a space, a `|` and a space, a stage that reaches
/// the end of the text.
proof fn lemma_last_stage(s: Seq<char>, pos: int, tree: Syntax)
    requires
        0 <= pos && pos + 3 < s.len(),
        s[pos] == ' ',
        s[pos + 1] == '|',
        s[pos + 2] == ' ',
        is_bareword_char(s[pos + 3]),
        stage(s, pos + 3) == Some((s.len() as int, tree)),
    ensures
        piped_stages(s, pos) == (s.len() as int, seq![tree]),
{
    lemma_run_end_is(s, pos, pos + 1, CharClass::Space);
    lemma_run_end_is(s, pos + 2, pos + 3, CharClass::Space);
    assert(piped_stage(s, pos) == Some((s.len() as int, tree)));
    lemma_nothing_at_end(s);
    assert(seq![tree] + Seq::<Syntax>::empty() =~= seq![tree]);
}

/// Two stages with a `|` between them, the second of which reaches the
/// end of the text, are a pipeline.
proof fn lemma_pipeline_of_two(s: Seq<char>, bar: int, first: Syntax, second: Syntax)
    requires
        0 <= bar && bar + 3 < s.len(),
        s[bar] == ' ',
        s[bar + 1] == '|',
        s[bar + 2] == ' ',
        is_bareword_char(s[bar + 3]),
        stage(s, 0) == Some((bar, first)),
        stage(s, bar + 3) == Some((s.len() as int, second)),
    ensures
        pipeline(s, 0) == Some((s.len() as int, Syntax::Pipeline(seq![first, second]))),
{
    lemma_last_stage(s, bar, second);
    assert(seq![first] + seq![second] =~= seq![first, second]);
}

/// The text `c1 a1 a2 | c2 b1`, where `c1` and `c2` are barewords and
/// `a1`, `a2` and `b1` plain words, is read by the pipeline rule, whole,
/// as the pipeline of the command `c1` with the arguments `a1` and `a2`
/// and the command `c2` with the argument `b1`.
pub proof fn lemma_two_stage_pipeline(
    c1: Seq<char>,
    a1: Seq<char>,
    a2: Seq<char>,
    c2: Seq<char>,
    b1: Seq<char>,
)
    requires
        is_word(c1),
        is_plain_word(a1),
        is_plain_word(a2),
        is_word(c2),
        is_plain_word(b1),
    ensures
        pipeline(two_stage_text(c1, a1, a2, c2, b1), 0) == Some(
            (
                two_stage_text(c1, a1, a2, c2, b1).len() as int,
                two_stage_tree(c1, a1, a2, c2, b1),
            ),
        ),
{
    let s = two_stage_text(c1, a1, a2, c2, b1);
    let n = s.len() as int;
    let e1 = c1.len() as int;
    let e2 = e1 + 1 + a1.len();
    let e3 = e2 + 1 + a2.len();
    let f0 = e3 + 3;
    let f1 = f0 + c2.len();
    lemma_two_stage_layout(c1, a1, a2, c2, b1);
    lemma_command_two(s, 0, e1, e2, e3);
    lemma_command_one(s, f0, f1, n);
    let first = Syntax::Command(
        Box::new(Syntax::Identifier(c1)),
        seq![Syntax::Identifier(a1), Syntax::Identifier(a2)],
    );
    let second = Syntax::Command(Box::new(Syntax::Identifier(c2)), seq![Syntax::Identifier(b1)]);
    assert(is_bareword_char(s[f0]));
    lemma_pipeline_of_two(s, e3, first, second);
}

/// The text `c1 a1 a2 | c2 b1` is, as a program, the one statement that
/// is its pipeline, unless `c1` would be read as a script to run.
pub proof fn lemma_two_stage_program(
    c1: Seq<char>,
    a1: Seq<char>,
    a2: Seq<char>,
    c2: Seq<char>,
    b1: Seq<char>,
)
    requires
        is_word(c1),
        is_plain_word(a1),
        is_plain_word(a2),
        is_word(c2),
        is_plain_word(b1),
        !starts_script(c1),
    ensures
        program(two_stage_text(c1, a1, a2, c2, b1)) == Some(
            Syntax::Compound(seq![two_stage_tree(c1, a1, a2, c2, b1)]),
        ),
{
    let s = two_stage_text(c1, a1, a2, c2, b1);
    let n = s.len() as int;
    let e1 = c1.len() as int;
    lemma_two_stage_pipeline(c1, a1, a2, c2, b1);
    lemma_two_stage_layout(c1, a1, a2, c2, b1);
    assert forall|i: int| 0 <= i < e1 implies s[i] == c1[i] by {
        assert(s.subrange(0, e1)[i] == s[i]);
    }
    assert(is_bareword_char(c1[0]));
    assert(s[0] == c1[0]);
    lemma_run_end_is(s, 0, 0, CharClass::Space);
    assert(comment(s, 0) is None);
    assert(exec_script(s, 0) is None) by {
        if s[0] == '.' && s[1] == '/' {
            assert(e1 >= 2) by {
                if e1 == 1 {
                    assert(s[1] == ' ');
                }
            }
            assert(s[1] == c1[1]);
            if e1 == 2 {
                lemma_run_end_is(s, 2, 2, CharClass::NotSpace);
                lemma_run_end_is(s, 2, 2, CharClass::Dotted);
            } else {
                assert(s[2] == c1[2]);
                lemma_run_end_is(s, 2, 2, CharClass::NotSpace);
                lemma_run_end_is(s, 2, 2, CharClass::Dotted);
            }
            assert(filename(s, 2) is None);
        }
    }
    lemma_constant(s, 0, e1);
    assert(define(s, 0) is None);
    let tree = two_stage_tree(c1, a1, a2, c2, b1);
    assert(statement_body(s, 0) == Some((n, tree)));
    lemma_run_end_is(s, n, n, CharClass::Space);
    assert(statement(s, 0) == Some((n, tree)));
    assert(separated_statement(s, 0) == Some((n, tree)));
    lemma_nothing_at_end(s);
    assert(statements(s, 0) == (n, seq![tree] + Seq::<Syntax>::empty()));
    assert(seq![tree] + Seq::<Syntax>::empty() =~= seq![tree]);
}

/// Whitespace inside quotes separates nothing: a text that holds no double
/// quote, put between double quotes, is read as one identifier, whatever
/// else it holds.
pub proof fn lemma_quoted_is_one_token(text: Seq<char>)
    requires
        text.len() > 0,
        forall|i: int| 0 <= i < text.len() ==> #[trigger] text[i] != '"',
    ensures
        identifier(seq!['"'] + text + seq!['"'], 0) == Some(
            ((text.len() + 2) as int, Syntax::Identifier(text)),
        ),
        argument(seq!['"'] + text + seq!['"'], 0) == Some(
            ((text.len() + 2) as int, Syntax::Identifier(text)),
        ),
{
    let s = seq!['"'] + text + seq!['"'];
    let end = text.len() + 1;
    assert forall|i: int| 1 <= i < end implies CharClass::NotDoubleQuote.contains(
        #[trigger] s[i],
    ) by {
        assert(s[i] == text[i - 1]);
    }
    assert(s[end as int] == '"');
    lemma_run_end_is(s, 1, end as int, CharClass::NotDoubleQuote);
    assert(s.subrange(1, end as int) =~= text);
    assert(s[0] == '"');
    assert(reference(s, 0) is None);
}

/// The text `var="value"`, where `var` is a bareword that would not be
/// read as a script and `value` holds no double quote and is not empty, is
/// the program of one statement: the assignment of the identifier `value`
/// to the identifier `var`.
pub proof fn lemma_define_program(var: Seq<char>, value: Seq<char>)
    requires
        is_word(var),
        !starts_script(var),
        value.len() > 0,
        forall|i: int| 0 <= i < value.len() ==> #[trigger] value[i] != '"',
    ensures
        program(var + seq!['=', '"'] + value + seq!['"']) == Some(
            Syntax::Compound(
                seq![
                    Syntax::Define(
                        Box::new(Syntax::Identifier(var)),
                        Box::new(Syntax::Identifier(value)),
                    ),
                ],
            ),
        ),
{
    let s = var + seq!['=', '"'] + value + seq!['"'];
    let n = s.len() as int;
    let e = var.len() as int;
    let q = e + 2;
    let close = q + value.len();
    assert(n == close + 1);
    assert forall|i: int| 0 <= i < e implies #[trigger] s[i] == var[i] by {}
    assert forall|i: int| q <= i < close implies #[trigger] s[i] == value[i - q] by {}
    assert(s[e] == '=');
    assert(s[e + 1] == '"');
    assert(s[close] == '"');
    assert(s.subrange(0, e) =~= var);
    assert(s.subrange(q, close) =~= value);
    assert(is_bareword_char(var[0]));
    assert(s[0] == var[0]);
    assert(word_at(s, 0, e)) by {
        assert forall|i: int| 0 <= i < e implies is_bareword_char(#[trigger] s[i]) by {
            assert(s[i] == var[i]);
        }
    }
    lemma_run_end_is(s, 0, 0, CharClass::Space);
    lemma_constant(s, 0, e);
    assert forall|i: int| q <= i < close implies CharClass::NotDoubleQuote.contains(
        #[trigger] s[i],
    ) by {
        assert(s[i] == value[i - q]);
    }
    lemma_run_end_is(s, q, close, CharClass::NotDoubleQuote);
    let tree = Syntax::Define(
        Box::new(Syntax::Identifier(var)),
        Box::new(Syntax::Identifier(value)),
    );
    assert(identifier(s, e + 1) == Some((n, Syntax::Identifier(value))));
    assert(define(s, 0) == Some((n, tree)));
    assert(comment(s, 0) is None);
    assert(exec_script(s, 0) is None) by {
        if s[0] == '.' && s[1] == '/' {
            assert(e >= 2);
            lemma_run_end_is(s, 2, 2, CharClass::NotSpace);
            lemma_run_end_is(s, 2, 2, CharClass::Dotted);
            assert(filename(s, 2) is None);
        }
    }
    assert(statement_body(s, 0) == Some((n, tree)));
    lemma_run_end_is(s, n, n, CharClass::Space);
    assert(statement(s, 0) == Some((n, tree)));
    assert(separated_statement(s, 0) == Some((n, tree)));
    lemma_nothing_at_end(s);
    assert(statements(s, 0) == (n, seq![tree] + Seq::<Syntax>::empty()));
    assert(seq![tree] + Seq::<Syntax>::empty() =~= seq![tree]);
}

/// A match that starts at `pos` takes something and stays within `s`.
pub open spec fn goes_forward(s: Seq<char>, pos: int, m: Match) -> bool {
    m matches Some((end, _)) ==> 0 <= pos < end <= s.len()
}

/// A repetition that starts at `pos` ends at or after `pos`, within `s`.
pub open spec fn stays_within(s: Seq<char>, pos: int, m: Matches) -> bool {
    pos <= m.0 <= s.len()
}

/// A token takes something and stays within the text.
pub proof fn lemma_token_goes_forward(s: Seq<char>, pos: int, class: CharClass)
    ensures
        goes_forward(s, pos, token(s, pos, class)),
        run_end(s, pos, class) >= pos,
        0 <= pos <= s.len() ==> run_end(s, pos, class) <= s.len(),
{
    if 0 <= pos <= s.len() {
        lemma_run_end(s, pos, class);
    } else {
        assert(run_end(s, pos, class) == pos);
    }
}

/// What is read as a quoted string, a comment, a reference, an argument,
/// a file name or a script takes something and stays within the text.
pub proof fn lemma_words_go_forward(s: Seq<char>, pos: int)
    ensures
        goes_forward(s, pos, constant(s, pos)),
        goes_forward(s, pos, not_space(s, pos)),
        goes_forward(s, pos, filename_with_dot(s, pos)),
        goes_forward(s, pos, filename(s, pos)),
        goes_forward(s, pos, identifier(s, pos)),
        goes_forward(s, pos, comment(s, pos)),
        goes_forward(s, pos, reference(s, pos)),
        goes_forward(s, pos, argument(s, pos)),
        goes_forward(s, pos, exec_script(s, pos)),
{
    lemma_token_goes_forward(s, pos, CharClass::Bareword);
    lemma_token_goes_forward(s, pos, CharClass::NotSpace);
    lemma_token_goes_forward(s, pos, CharClass::Dotted);
    lemma_token_goes_forward(s, pos + 1, CharClass::NotDoubleQuote);
    lemma_token_goes_forward(s, pos + 1, CharClass::NotSingleQuote);
    lemma_token_goes_forward(s, pos + 1, CharClass::LineText);
    lemma_token_goes_forward(s, pos + 1, CharClass::Bareword);
    lemma_token_goes_forward(s, pos + 2, CharClass::NotSpace);
    lemma_token_goes_forward(s, pos + 2, CharClass::Dotted);
}

/// The arguments of a command end within the text.
pub proof fn lemma_arguments_within(s: Seq<char>, pos: int)
    requires
        0 <= pos <= s.len(),
    ensures
        stays_within(s, pos, arguments(s, pos)),
        stays_within(s, pos, continued_arguments(s, pos)),
    decreases s.len() - pos,
{
    let start = run_end(s, pos, CharClass::Blank);
    match argument(s, start) {
        Some((after, _)) => {
            if 0 <= pos < start < after <= s.len() {
                lemma_arguments_within(s, after);
            }
        },
        None => {},
    }
    let start = separator_end(s, pos);
    match argument(s, start) {
        Some((after, _)) => {
            if 0 <= pos < start < after <= s.len() {
                lemma_arguments_within(s, after);
            }
        },
        None => {},
    }
}

/// A command and a continued command take something and stay within the
/// text.
pub proof fn lemma_commands_go_forward(s: Seq<char>, pos: int)
    ensures
        goes_forward(s, pos, command(s, pos)),
        goes_forward(s, pos, command_with_backslash(s, pos)),
{
    lemma_words_go_forward(s, pos);
    match constant(s, pos) {
        Some((after_name, _)) => {
            lemma_arguments_within(s, after_name);
        },
        None => {},
    }
}

/// A redirection specifier takes something and stays within the text.
pub proof fn lemma_specifier_goes_forward(s: Seq<char>, pos: int)
    requires
        0 <= pos <= s.len(),
    ensures
        goes_forward(s, pos, redirect_specifier(s, pos)),
{
    lemma_run_end(s, pos, CharClass::Space);
    match redirect_operator(s, run_end(s, pos, CharClass::Space)) {
        Some((after_operator, _)) => {
            lemma_run_end(s, after_operator, CharClass::Space);
            lemma_words_go_forward(s, run_end(s, after_operator, CharClass::Space));
        },
        None => {},
    }
}

/// The redirection specifiers end within the text.
pub proof fn lemma_specifiers_within(s: Seq<char>, pos: int)
    requires
        0 <= pos <= s.len(),
    ensures
        stays_within(s, pos, redirect_specifiers(s, pos)),
    decreases s.len() - pos,
{
    match redirect_specifier(s, pos) {
        Some((after, _)) => {
            if 0 <= pos < after <= s.len() {
                lemma_specifiers_within(s, after);
            }
        },
        None => {},
    }
}

/// A stage of a pipeline takes something and stays within the text.
pub proof fn lemma_stage_goes_forward(s: Seq<char>, pos: int)
    ensures
        goes_forward(s, pos, redirect(s, pos)),
        goes_forward(s, pos, stage(s, pos)),
{
    lemma_commands_go_forward(s, pos);
    match command(s, pos) {
        Some((after_command, _)) => {
            lemma_specifiers_within(s, after_command);
        },
        None => {},
    }
}

/// A `|` and the stage after it take something and stay within the text.
pub proof fn lemma_piped_stage_goes_forward(s: Seq<char>, pos: int)
    requires
        0 <= pos <= s.len(),
    ensures
        goes_forward(s, pos, piped_stage(s, pos)),
{
    lemma_run_end(s, pos, CharClass::Space);
    let bar = run_end(s, pos, CharClass::Space);
    if at(s, bar, '|') {
        lemma_run_end(s, bar + 1, CharClass::Space);
        lemma_stage_goes_forward(s, run_end(s, bar + 1, CharClass::Space));
    }
}

/// The stages that follow the first end within the text.
pub proof fn lemma_piped_stages_within(s: Seq<char>, pos: int)
    requires
        0 <= pos <= s.len(),
    ensures
        stays_within(s, pos, piped_stages(s, pos)),
    decreases s.len() - pos,
{
    match piped_stage(s, pos) {
        Some((after, _)) => {
            if 0 <= pos < after <= s.len() {
                lemma_piped_stages_within(s, after);
            }
        },
        None => {},
    }
}

/// A pipeline, an assignment and what a statement is take something and
/// stay within the text.
pub proof fn lemma_body_goes_forward(s: Seq<char>, pos: int)
    requires
        0 <= pos <= s.len(),
    ensures
        goes_forward(s, pos, pipeline(s, pos)),
        goes_forward(s, pos, define(s, pos)),
        goes_forward(s, pos, statement_body(s, pos)),
{
    lemma_stage_goes_forward(s, pos);
    match stage(s, pos) {
        Some((after_first, _)) => {
            lemma_piped_stages_within(s, after_first);
        },
        None => {},
    }
    lemma_run_end(s, pos, CharClass::Space);
    let start = run_end(s, pos, CharClass::Space);
    lemma_words_go_forward(s, start);
    match constant(s, start) {
        Some((after_name, _)) => {
            lemma_words_go_forward(s, after_name + 1);
        },
        None => {},
    }
    assert(goes_forward(s, pos, define(s, pos)));
    lemma_words_go_forward(s, pos);
    lemma_commands_go_forward(s, pos);
}

/// A statement takes something and stays within the text.
pub proof fn lemma_statement_goes_forward(s: Seq<char>, pos: int)
    requires
        0 <= pos <= s.len(),
    ensures
        goes_forward(s, pos, statement(s, pos)),
        goes_forward(s, pos, separated_statement(s, pos)),
{
    lemma_run_end(s, pos, CharClass::Space);
    let start = run_end(s, pos, CharClass::Space);
    lemma_body_goes_forward(s, start);
    match statement_body(s, start) {
        Some((end, _)) => {
            lemma_run_end(s, end, CharClass::Space);
        },
        None => {},
    }
}

/// The statements of a text end within it, and so does the whole of them.
pub proof fn lemma_statements_within(s: Seq<char>, pos: int)
    requires
        0 <= pos <= s.len(),
    ensures
        stays_within(s, pos, statements(s, pos)),
        compound_statement(s, pos) matches Some((end, _)) && pos <= end <= s.len(),
    decreases s.len() - pos,
{
    match separated_statement(s, pos) {
        Some((after, _)) => {
            if 0 <= pos < after <= s.len() {
                lemma_statements_within(s, after);
            }
        },
        None => {},
    }
    lemma_run_end(s, statements(s, pos).0, CharClass::Space);
}

/// No repetition stops at something that its rule matches: where a
/// statement can be read, the statements are that statement and those
/// after it, and likewise for the stages, the specifiers and the arguments.
pub proof fn lemma_repetitions_take_every_match(s: Seq<char>, pos: int)
    requires
        0 <= pos <= s.len(),
    ensures
        separated_statement(s, pos) matches Some((after, tree)) ==> statements(s, pos) == (
            statements(s, after).0,
            seq![tree] + statements(s, after).1,
        ),
        piped_stage(s, pos) matches Some((after, tree)) ==> piped_stages(s, pos) == (
            piped_stages(s, after).0,
            seq![tree] + piped_stages(s, after).1,
        ),
        redirect_specifier(s, pos) matches Some((after, tree)) ==> redirect_specifiers(s, pos) == (
            redirect_specifiers(s, after).0,
            seq![tree] + redirect_specifiers(s, after).1,
        ),
        pos < run_end(s, pos, CharClass::Blank) ==> (argument(
            s,
            run_end(s, pos, CharClass::Blank),
        ) matches Some((after, tree)) ==> arguments(s, pos) == (
            arguments(s, after).0,
            seq![tree] + arguments(s, after).1,
        )),
{
    lemma_statement_goes_forward(s, pos);
    lemma_piped_stage_goes_forward(s, pos);
    lemma_specifier_goes_forward(s, pos);
    lemma_run_end(s, pos, CharClass::Blank);
    lemma_words_go_forward(s, run_end(s, pos, CharClass::Blank));
}

} // verus!
