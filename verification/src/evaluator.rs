//! The evaluator: it walks a syntax tree, keeps the variable store, and
//! says what the shell has to launch, read or report.
//!
//! Launching processes and reading files is the caller's work. The
//! evaluator holds the statements that are still to be evaluated;
//! [`Evaluator::next`] evaluates them in order up to the first that needs
//! the caller, and [`Evaluator::source`] takes the text of a script that
//! the caller has read.

use crate::ast::{
    lemma_kinds, views, CommandStatement, CompoundStatement, Define, ExecScript, Identifier, Node,
    Pipeline, Redirect, Reference, Syntax,
};
use crate::grammar::{program, reach, RedirectKind};
use crate::memory::{Memory, Store, Variable};
use crate::parse::{Parse, ParseFailure};
use crate::redirect::{RedirectFD, Redirection};
use crate::semantics::{
    accumulate, accumulate_one, advance, after, define_value, evaluate_statement, resolve_arguments, resolve_command, resolve_reference, resolve_stage, resolve_stages, Effect,
    Fault,
};
use vstd::prelude::*;

verus! {

/// Why a statement was not evaluated.
#[derive(Debug, PartialEq)]
pub enum ResolutionError {
    /// A node is not of the kind that its place asks for.
    ArgumentResolutionFailure,
    /// A reference to a variable that is not defined; the variable's name.
    UndefinedVariable(String),
}

impl ResolutionError {
    pub open spec fn view(&self) -> Fault {
        match self {
            ResolutionError::ArgumentResolutionFailure => Fault::ArgumentResolutionFailure,
            ResolutionError::UndefinedVariable(name) => Fault::UndefinedVariable(name@),
        }
    }
}

/// The texts of `words`, in order.
pub open spec fn texts(words: Seq<String>) -> Seq<Seq<char>> {
    words.map_values(|w: String| w@)
}

/// The argument vectors of `stages`, in order.
pub open spec fn stage_texts(stages: Seq<Vec<String>>) -> Seq<Seq<Seq<char>>> {
    stages.map_values(|s: Vec<String>| texts(s@))
}

/// A pipeline to launch: the argument vector of each stage, the first word
/// of which is the program or built-in to run, and the redirections.
#[derive(Debug)]
pub struct PipelineRequest {
    pub stages: Vec<Vec<String>>,
    pub redirect: RedirectFD,
}

impl PipelineRequest {
    pub open spec fn view(&self) -> (Seq<Seq<Seq<char>>>, Redirection) {
        (stage_texts(self.stages@), self.redirect@)
    }
}

/// What the evaluator asks of its caller.
#[derive(Debug)]
pub enum Action {
    /// Nothing: every statement has been evaluated.
    Done,
    /// Launch the pipeline, wait for it, then call `next` again.
    Run(PipelineRequest),
    /// Read the named file and hand its text to `source`, then call `next`
    /// again.
    Source(String),
    /// Report the error, then call `next` again; the statement that had it
    /// was skipped.
    Report(ResolutionError),
}

impl Action {
    pub open spec fn view(&self) -> Effect {
        match self {
            Action::Done => Effect::Done,
            Action::Run(request) => Effect::Run(request@.0, request@.1),
            Action::Source(path) => Effect::Source(path@),
            Action::Report(error) => Effect::Report(error@),
        }
    }
}

/// A text that was resolved is the text that the semantics give, and an
/// error the fault that they give.
pub open spec fn text_agrees(found: Result<String, ResolutionError>, m: Result<Seq<char>, Fault>) -> bool {
    match m {
        Ok(text) => found matches Ok(s) && s@ == text,
        Err(fault) => found matches Err(e) && e@ == fault,
    }
}

/// The same, of an argument vector.
pub open spec fn argv_agrees(
    found: Result<Vec<String>, ResolutionError>,
    m: Result<Seq<Seq<char>>, Fault>,
) -> bool {
    match m {
        Ok(argv) => found matches Ok(v) && texts(v@) == argv,
        Err(fault) => found matches Err(e) && e@ == fault,
    }
}

/// The same, of redirections.
pub open spec fn redirect_agrees(
    found: Result<RedirectFD, ResolutionError>,
    m: Result<Redirection, Fault>,
) -> bool {
    match m {
        Ok(r) => found matches Ok(fd) && fd@ == r,
        Err(fault) => found matches Err(e) && e@ == fault,
    }
}

/// The same, of a pipeline to launch.
pub open spec fn request_agrees(
    found: Result<PipelineRequest, ResolutionError>,
    m: Result<(Seq<Seq<Seq<char>>>, Redirection), Fault>,
) -> bool {
    match m {
        Ok(request) => found matches Ok(p) && p@ == request,
        Err(fault) => found matches Err(e) && e@ == fault,
    }
}

/// The evaluator of one shell session.
pub struct Evaluator {
    memory: Memory,
    pending: Vec<Node>,
}

impl Evaluator {
    /// The variables of the session.
    pub closed spec fn memory(&self) -> Store {
        self.memory@
    }

    /// The statements that are still to be evaluated, the next one first.
    pub closed spec fn pending(&self) -> Seq<Syntax> {
        views(self.pending@)
    }

    /// The evaluator of a session that has just begun: no variable is
    /// defined and nothing is pending.
    pub fn new() -> (e: Evaluator)
        ensures
            e.memory() == Store::empty(),
            e.pending() == Seq::<Syntax>::empty(),
    {
        let e = Evaluator { memory: Memory::new(), pending: Vec::new() };
        assert(views(e.pending@) =~= Seq::<Syntax>::empty());
        e
    }

    /// The value of `name`, if it is defined.
    pub fn lookup(&self, name: &str) -> (value: Option<String>)
        ensures
            match value {
                Some(v) => self.memory().contains_key(name@) && v@ == self.memory()[name@],
                None => !self.memory().contains_key(name@),
            },
    {
        self.memory.lookup(name)
    }

    /// The text of an identifier.
    pub fn eval_identifier(&self, expr: Identifier) -> (text: String)
        ensures
            expr@ == Syntax::Identifier(text@),
    {
        expr.eval()
    }

    /// The value of the variable that a reference names.
    pub fn eval_reference(&self, expr: Reference) -> (found: Result<String, ResolutionError>)
        ensures
            expr@ matches Syntax::Reference(target) && text_agrees(
                found,
                resolve_reference(self.memory(), *target),
            ),
    {
        let target = expr.get_reference();
        proof {
            lemma_kinds(target);
        }
        let name = match target {
            Node::Identifier(identifier) => self.eval_identifier(identifier),
            _ => String::new(),
        };
        match self.memory.lookup(name.as_str()) {
            Some(value) => Ok(value),
            None => Err(ResolutionError::UndefinedVariable(name)),
        }
    }

    /// The argument vector of a command: its name, then its resolved
    /// arguments, in order.
    pub fn command_statement_to_vec(&self, expr: CommandStatement) -> (found: Result<
        Vec<String>,
        ResolutionError,
    >)
        ensures
            argv_agrees(found, resolve_command(self.memory(), expr@)),
    {
        let name = expr.get_command();
        proof {
            lemma_kinds(name);
        }
        let command = match name {
            Node::Identifier(identifier) => self.eval_identifier(identifier),
            _ => {
                return Err(ResolutionError::ArgumentResolutionFailure);
            },
        };
        let args = expr.get_sub_command();
        let ghost store = self.memory();
        let ghost values = views(args@);
        let mut full_command: Vec<String> = Vec::new();
        full_command.push(command);
        assert(texts(full_command@) =~= seq![command@]);
        assert(values.skip(0) =~= values);
        let mut i: usize = 0;
        while i < args.len()
            invariant
                i <= args.len(),
                store == self.memory(),
                values == views(args@),
                resolve_command(store, expr@) == after(
                    seq![command@],
                    resolve_arguments(store, values),
                ),
                after(texts(full_command@), resolve_arguments(store, values.skip(i as int)))
                    == after(seq![command@], resolve_arguments(store, values)),
            decreases args.len() - i,
        {
            let ghost rest = resolve_arguments(store, values.skip(i + 1));
            assert(values.skip(i as int).drop_first() =~= values.skip(i + 1));
            assert(values.skip(i as int)[0] == args@[i as int]@);
            proof {
                lemma_kinds(args@[i as int]);
            }
            match &args[i] {
                Node::Identifier(identifier) => {
                    let text = identifier.eval();
                    proof {
                        lemma_texts_push(full_command@, text, rest);
                    }
                    full_command.push(text);
                },
                Node::Reference(reference) => {
                    match self.eval_reference(Reference::new(reference.get_reference())) {
                        Ok(value) => {
                            proof {
                                lemma_texts_push(full_command@, value, rest);
                            }
                            full_command.push(value);
                        },
                        Err(error) => {
                            return Err(error);
                        },
                    }
                },
                _ => {},
            }
            i = i + 1;
        }
        assert(texts(full_command@) + Seq::<Seq<char>>::empty() =~= texts(full_command@));
        Ok(full_command)
    }

    /// Evaluates an assignment: defines the variable, unless the assignment
    /// has a fault, which leaves the store as it was.
    pub fn eval_define(&mut self, define: Define) -> (done: Result<(), ResolutionError>)
        ensures
            final(self).pending() == old(self).pending(),
            define@ matches Syntax::Define(var, data) && match define_value(
                old(self).memory(),
                *var,
                *data,
            ) {
                Ok((name, value)) => done is Ok && final(self).memory() == old(self).memory().insert(
                    name,
                    value,
                ),
                Err(fault) => done matches Err(e) && e@ == fault && final(self).memory() == old(self).memory(),
            },
    {
        let var_node = define.get_var();
        let data_node = define.get_data();
        proof {
            lemma_kinds(var_node);
            lemma_kinds(data_node);
        }
        let var = match var_node {
            Node::Identifier(identifier) => self.eval_identifier(identifier),
            _ => {
                return Err(ResolutionError::ArgumentResolutionFailure);
            },
        };
        let data = match data_node {
            Node::Reference(reference) => self.eval_reference(*reference),
            Node::Identifier(identifier) => Ok(self.eval_identifier(identifier)),
            _ => Err(ResolutionError::ArgumentResolutionFailure),
        };
        match data {
            Ok(value) => {
                self.memory.push(Variable::new(var, value));
                Ok(())
            },
            Err(error) => Err(error),
        }
    }

    /// The redirections after one more specifier.
    pub fn eval_redirect_specifier(&self, redirect: RedirectFD, specifier: &Node) -> (found: Result<
        RedirectFD,
        ResolutionError,
    >)
        ensures
            redirect_agrees(found, accumulate_one(redirect@, specifier@)),
    {
        proof {
            lemma_kinds(*specifier);
        }
        let (kind, destination) = match specifier {
            Node::RedirectInput(r) => (RedirectKind::Input, r.get_destination()),
            Node::RedirectOutput(r) => (RedirectKind::Output, r.get_destination()),
            Node::RedirectOutputAppend(r) => (RedirectKind::OutputAppend, r.get_destination()),
            Node::RedirectErrorOutput(r) => (RedirectKind::ErrorOutput, r.get_destination()),
            Node::RedirectErrorOutputAppend(r) => (
                RedirectKind::ErrorOutputAppend,
                r.get_destination(),
            ),
            _ => {
                return Err(ResolutionError::ArgumentResolutionFailure);
            },
        };
        proof {
            lemma_kinds(destination);
        }
        match destination {
            Node::Identifier(identifier) => {
                let mut next = redirect;
                next.apply(kind, self.eval_identifier(identifier));
                Ok(next)
            },
            _ => Err(ResolutionError::ArgumentResolutionFailure),
        }
    }

    /// The redirections after the specifiers `destinations`, applied in
    /// order.
    pub fn eval_redirect_branch(&self, redirect: RedirectFD, destinations: Vec<Node>) -> (found:
        Result<RedirectFD, ResolutionError>)
        ensures
            redirect_agrees(found, accumulate(redirect@, views(destinations@))),
    {
        let ghost specifiers = views(destinations@);
        let mut current = redirect;
        assert(specifiers.skip(0) =~= specifiers);
        let mut i: usize = 0;
        while i < destinations.len()
            invariant
                i <= destinations.len(),
                specifiers == views(destinations@),
                accumulate(current@, specifiers.skip(i as int)) == accumulate(
                    redirect@,
                    specifiers,
                ),
            decreases destinations.len() - i,
        {
            assert(specifiers.skip(i as int).drop_first() =~= specifiers.skip(i + 1));
            assert(specifiers.skip(i as int)[0] == destinations@[i as int]@);
            match self.eval_redirect_specifier(current, &destinations[i]) {
                Ok(next) => {
                    current = next;
                },
                Err(error) => {
                    return Err(error);
                },
            }
            i = i + 1;
        }
        Ok(current)
    }

    /// What one stage of a pipeline gives: its argument vector and the
    /// redirections after its own specifiers.
    pub fn eval_stage(&self, redirect: RedirectFD, stage: &Node) -> (found: Result<
        (Vec<String>, RedirectFD),
        ResolutionError,
    >)
        ensures
            match resolve_stage(self.memory(), redirect@, stage@) {
                Ok((argv, r)) => found matches Ok((v, fd)) && texts(v@) == argv && fd@ == r,
                Err(fault) => found matches Err(e) && e@ == fault,
            },
    {
        proof {
            lemma_kinds(*stage);
        }
        match stage {
            Node::CommandStatement(command) => {
                let copy = CommandStatement::new(command.get_command(), command.get_sub_command());
                match self.command_statement_to_vec(copy) {
                    Ok(argv) => Ok((argv, redirect)),
                    Err(error) => Err(error),
                }
            },
            Node::Redirect(redirected) => {
                match self.eval_redirect_branch(redirect, redirected.get_destination()) {
                    Ok(next) => {
                        let inner = redirected.get_command();
                        proof {
                            lemma_kinds(inner);
                        }
                        match inner {
                            Node::CommandStatement(command) => {
                                match self.command_statement_to_vec(*command) {
                                    Ok(argv) => Ok((argv, next)),
                                    Err(error) => Err(error),
                                }
                            },
                            _ => Err(ResolutionError::ArgumentResolutionFailure),
                        }
                    },
                    Err(error) => Err(error),
                }
            },
            _ => Err(ResolutionError::ArgumentResolutionFailure),
        }
    }

    /// The pipeline of one command, without redirections.
    pub fn eval_command(&self, expr: CommandStatement) -> (found: Result<
        PipelineRequest,
        ResolutionError,
    >)
        ensures
            request_agrees(
                found,
                match resolve_command(self.memory(), expr@) {
                    Ok(argv) => Ok((seq![argv], Redirection::none())),
                    Err(fault) => Err(fault),
                },
            ),
    {
        match self.command_statement_to_vec(expr) {
            Ok(argv) => Ok(single_stage(argv, RedirectFD::new())),
            Err(error) => Err(error),
        }
    }

    /// The pipeline of one redirected command.
    pub fn eval_redirect(&self, input: Redirect) -> (found: Result<
        PipelineRequest,
        ResolutionError,
    >)
        ensures
            input@ is Redirect,
            request_agrees(
                found,
                match resolve_stage(self.memory(), Redirection::none(), input@) {
                    Ok((argv, r)) => Ok((seq![argv], r)),
                    Err(fault) => Err(fault),
                },
            ),
    {
        let stage = Node::Redirect(Box::new(input));
        proof {
            lemma_kinds(stage);
        }
        match self.eval_stage(RedirectFD::new(), &stage) {
            Ok((argv, redirect)) => Ok(single_stage(argv, redirect)),
            Err(error) => Err(error),
        }
    }

    /// The pipeline to launch for `pipeline`: every stage resolved, in
    /// order, and the redirections of all of them.
    pub fn eval_pipeline(&self, pipeline: Pipeline) -> (found: Result<
        PipelineRequest,
        ResolutionError,
    >)
        ensures
            pipeline@ matches Syntax::Pipeline(stages) && request_agrees(
                found,
                resolve_stages(self.memory(), Redirection::none(), stages),
            ),
    {
        let nodes = pipeline.get_commands();
        let ghost store = self.memory();
        let ghost stages = views(nodes@);
        let mut commands: Vec<Vec<String>> = Vec::new();
        let mut redirect = RedirectFD::new();
        assert(stages.skip(0) =~= stages);
        assert(stage_texts(commands@) =~= Seq::<Seq<Seq<char>>>::empty());
        let mut i: usize = 0;
        while i < nodes.len()
            invariant
                i <= nodes.len(),
                store == self.memory(),
                stages == views(nodes@),
                pipeline@ == Syntax::Pipeline(stages),
                resolve_stages(store, Redirection::none(), stages) == (match resolve_stages(
                    store,
                    redirect@,
                    stages.skip(i as int),
                ) {
                    Ok((rest, last)) => Ok((stage_texts(commands@) + rest, last)),
                    Err(fault) => Err(fault),
                }),
            decreases nodes.len() - i,
        {
            assert(stages.skip(i as int).drop_first() =~= stages.skip(i + 1));
            assert(stages.skip(i as int)[0] == nodes@[i as int]@);
            match self.eval_stage(redirect, &nodes[i]) {
                Ok((argv, next)) => {
                    proof {
                        let rest = resolve_stages(store, next@, stages.skip(i + 1));
                        if let Ok((more, last)) = rest {
                            assert(stage_texts(commands@.push(argv)) + more =~= stage_texts(
                                commands@,
                            ) + (seq![texts(argv@)] + more));
                        }
                    }
                    commands.push(argv);
                    redirect = next;
                },
                Err(error) => {
                    return Err(error);
                },
            }
            i = i + 1;
        }
        assert(stage_texts(commands@) + Seq::<Seq<Seq<char>>>::empty() =~= stage_texts(commands@));
        Ok(PipelineRequest { stages: commands, redirect })
    }

    /// The name of the file that a script statement asks to run.
    pub fn eval_exec_script(&self, script: ExecScript) -> (found: Result<String, ResolutionError>)
        ensures
            script@ matches Syntax::ExecScript(filename) && match *filename {
                Syntax::Identifier(path) => found matches Ok(p) && p@ == path,
                _ => found matches Err(e) && e@ == Fault::ArgumentResolutionFailure,
            },
    {
        let filename = script.get_filename();
        proof {
            lemma_kinds(filename);
        }
        match filename {
            Node::Identifier(identifier) => Ok(self.eval_identifier(identifier)),
            _ => Err(ResolutionError::ArgumentResolutionFailure),
        }
    }

    /// Puts the statements of `expr` before the pending ones, in order.
    pub fn eval_compound_statement(&mut self, expr: CompoundStatement)
        ensures
            final(self).memory() == old(self).memory(),
            expr@ matches Syntax::Compound(items) && final(self).pending() == items + old(self).pending(),
    {
        let mut queue = expr.eval();
        let ghost items = views(queue@);
        queue.append(&mut self.pending);
        assert(views(queue@) =~= items + old(self).pending());
        self.pending = queue;
    }

    /// Takes a program for evaluation: its statements are put before the
    /// pending ones. The result is 0 for a compound statement and for an
    /// identifier, which holds nothing to evaluate, and 1 for any other
    /// node, which is not taken.
    pub fn evaluate(&mut self, ast: Node) -> (code: i32)
        ensures
            final(self).memory() == old(self).memory(),
            match ast@ {
                Syntax::Compound(items) => code == 0 && final(self).pending() == items + old(self).pending(),
                Syntax::Identifier(_) => code == 0 && final(self).pending() == old(self).pending(),
                _ => code == 1 && final(self).pending() == old(self).pending(),
            },
    {
        proof {
            lemma_kinds(ast);
        }
        match ast {
            Node::CompoundStatement(stmt) => {
                self.eval_compound_statement(stmt);
                0
            },
            Node::Identifier(identifier) => {
                let _ = self.eval_identifier(identifier);
                0
            },
            _ => 1,
        }
    }

    /// Evaluates one statement: what it asks of the caller, if anything.
    pub fn eval_statement(&mut self, statement: Node) -> (action: Option<Action>)
        ensures
            final(self).pending() == old(self).pending(),
            final(self).memory() == evaluate_statement(old(self).memory(), statement@).0,
            match evaluate_statement(old(self).memory(), statement@).1 {
                Some(effect) => action matches Some(a) && a@ == effect,
                None => action is None,
            },
    {
        proof {
            lemma_kinds(statement);
        }
        match statement {
            Node::CommandStatement(command) => Some(request_action(self.eval_command(*command))),
            Node::Redirect(redirect) => Some(request_action(self.eval_redirect(*redirect))),
            Node::Pipeline(pipeline) => Some(request_action(self.eval_pipeline(pipeline))),
            Node::Define(define) => match self.eval_define(*define) {
                Ok(()) => None,
                Err(error) => Some(Action::Report(error)),
            },
            Node::ExecScript(script) => match self.eval_exec_script(*script) {
                Ok(path) => Some(Action::Source(path)),
                Err(error) => Some(Action::Report(error)),
            },
            Node::Comment(_) => None,
            _ => Some(Action::Report(ResolutionError::ArgumentResolutionFailure)),
        }
    }

    /// Evaluates the pending statements in order, up to the first that asks
    /// something of the caller, and says what it asks; `Done` when nothing
    /// is pending any more.
    pub fn next(&mut self) -> (action: Action)
        ensures
            (final(self).memory(), final(self).pending(), action@) == advance(
                old(self).memory(),
                old(self).pending(),
            ),
    {
        loop
            invariant
                advance(self.memory(), self.pending()) == advance(
                    old(self).memory(),
                    old(self).pending(),
                ),
            decreases self.pending.len(),
        {
            if self.pending.len() == 0 {
                return Action::Done;
            }
            let ghost before = self.pending();
            let statement = self.pending.remove(0);
            assert(statement@ == before[0]);
            assert(self.pending() =~= before.drop_first());
            match self.eval_statement(statement) {
                Some(action) => {
                    return action;
                },
                None => {},
            }
        }
    }

    /// Takes the text of a script for evaluation: its statements are put
    /// before the pending ones, so that they run next, in this session.
    /// A text that is no program fails and leaves everything as it was.
    pub fn source(&mut self, text: &str) -> (done: Result<(), ParseFailure>)
        ensures
            final(self).memory() == old(self).memory(),
            match program(text@) {
                Some(tree) => tree matches Syntax::Compound(items) && done is Ok && final(self).pending() == items + old(self).pending(),
                None => done matches Err(failure) && failure.position == reach(text@) && final(self).pending() == old(self).pending(),
            },
    {
        match Parse::parse_node(text) {
            Ok(node) => {
                let _ = self.evaluate(node);
                Ok(())
            },
            Err(failure) => Err(failure),
        }
    }
}

/// `words` with `word` after them has the texts of `words` and then the
/// text of `word`.
proof fn lemma_texts_push(words: Seq<String>, word: String, rest: Result<Seq<Seq<char>>, Fault>)
    ensures
        after(texts(words.push(word)), rest) == after(texts(words), after(seq![word@], rest)),
{
    if let Ok(more) = rest {
        assert(texts(words.push(word)) + more =~= texts(words) + (seq![word@] + more));
    }
}

/// The pipeline of the one stage `argv` with the redirections `redirect`.
fn single_stage(argv: Vec<String>, redirect: RedirectFD) -> (request: PipelineRequest)
    ensures
        request@ == (seq![texts(argv@)], redirect@),
{
    let mut stages: Vec<Vec<String>> = Vec::new();
    stages.push(argv);
    assert(stage_texts(stages@) =~= seq![texts(argv@)]);
    PipelineRequest { stages, redirect }
}

/// The action that launches what was resolved, or reports why it was not.
fn request_action(found: Result<PipelineRequest, ResolutionError>) -> (action: Action)
    ensures
        match found {
            Ok(request) => action@ == Effect::Run(request@.0, request@.1),
            Err(error) => action@ == Effect::Report(error@),
        },
{
    match found {
        Ok(request) => Action::Run(request),
        Err(error) => Action::Report(error),
    }
}

} // verus!
