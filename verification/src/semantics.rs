//! What evaluating a syntax tree means, as functions on values: how
//! arguments are resolved against the variable store, how redirection
//! specifiers accumulate, and what each statement asks the shell to do.

use crate::ast::Syntax;
use crate::grammar::RedirectKind;
use crate::memory::Store;
use crate::redirect::Redirection;
use vstd::prelude::*;

verus! {

/// Why a statement cannot be evaluated.
pub enum Fault {
    /// A node is not of the kind that its place asks for: a command's name
    /// that is no identifier, a stage that is no command.
    ArgumentResolutionFailure,
    /// A reference to a variable that the store does not hold; the name.
    UndefinedVariable(Seq<char>),
}

/// What the shell is asked to do next.
pub enum Effect {
    /// Nothing: every statement has been evaluated.
    Done,
    /// Launch a pipeline: the argument vector of each stage, and the
    /// redirections.
    Run(Seq<Seq<Seq<char>>>, Redirection),
    /// Read the named file and evaluate its text in this session.
    Source(Seq<char>),
    /// Report a fault; the statement that had it was skipped.
    Report(Fault),
}

/// The name that a reference looks up: the text of its target, where that
/// is an identifier, and the empty name otherwise.
pub open spec fn reference_name(target: Syntax) -> Seq<char> {
    match target {
        Syntax::Identifier(text) => text,
        _ => Seq::empty(),
    }
}

/// The value of the variable that `target` names.
pub open spec fn resolve_reference(store: Store, target: Syntax) -> Result<Seq<char>, Fault> {
    let name = reference_name(target);
    if store.contains_key(name) {
        Ok(store[name])
    } else {
        Err(Fault::UndefinedVariable(name))
    }
}

/// What one argument node contributes to an argument vector: an identifier
/// its text, a reference the value of its variable, any other node nothing.
pub open spec fn resolve_argument(store: Store, arg: Syntax) -> Result<Option<Seq<char>>, Fault> {
    match arg {
        Syntax::Identifier(text) => Ok(Some(text)),
        Syntax::Reference(target) => match resolve_reference(store, *target) {
            Ok(value) => Ok(Some(value)),
            Err(fault) => Err(fault),
        },
        _ => Ok(None),
    }
}

/// `found` before what `rest` gives, or the fault that `rest` is.
pub open spec fn after<A>(found: Seq<A>, rest: Result<Seq<A>, Fault>) -> Result<Seq<A>, Fault> {
    match rest {
        Ok(more) => Ok(found + more),
        Err(fault) => Err(fault),
    }
}

/// The resolved arguments, in order; the fault of the first argument that
/// has one.
pub open spec fn resolve_arguments(store: Store, args: Seq<Syntax>) -> Result<
    Seq<Seq<char>>,
    Fault,
>
    decreases args.len(),
{
    if args.len() == 0 {
        Ok(Seq::empty())
    } else {
        match resolve_argument(store, args[0]) {
            Ok(Some(text)) => after(seq![text], resolve_arguments(store, args.drop_first())),
            Ok(None) => resolve_arguments(store, args.drop_first()),
            Err(fault) => Err(fault),
        }
    }
}

/// The argument vector of a command: its name, which must be an
/// identifier, then its resolved arguments.
pub open spec fn resolve_command(store: Store, cmd: Syntax) -> Result<Seq<Seq<char>>, Fault> {
    match cmd {
        Syntax::Command(name, args) => match *name {
            Syntax::Identifier(text) => after(seq![text], resolve_arguments(store, args)),
            _ => Err(Fault::ArgumentResolutionFailure),
        },
        _ => Err(Fault::ArgumentResolutionFailure),
    }
}

/// The name and the value that an assignment defines: the variable must be
/// an identifier, the data an identifier or a reference.
pub open spec fn define_value(store: Store, var: Syntax, data: Syntax) -> Result<
    (Seq<char>, Seq<char>),
    Fault,
> {
    match var {
        Syntax::Identifier(name) => match data {
            Syntax::Identifier(value) => Ok((name, value)),
            Syntax::Reference(target) => match resolve_reference(store, *target) {
                Ok(value) => Ok((name, value)),
                Err(fault) => Err(fault),
            },
            _ => Err(Fault::ArgumentResolutionFailure),
        },
        _ => Err(Fault::ArgumentResolutionFailure),
    }
}

/// The kind and the destination of a redirection specifier.
pub open spec fn specifier_parts(specifier: Syntax) -> Option<(RedirectKind, Syntax)> {
    match specifier {
        Syntax::RedirectInput(d) => Some((RedirectKind::Input, *d)),
        Syntax::RedirectOutput(d) => Some((RedirectKind::Output, *d)),
        Syntax::RedirectOutputAppend(d) => Some((RedirectKind::OutputAppend, *d)),
        Syntax::RedirectErrorOutput(d) => Some((RedirectKind::ErrorOutput, *d)),
        Syntax::RedirectErrorOutputAppend(d) => Some((RedirectKind::ErrorOutputAppend, *d)),
        _ => None,
    }
}

/// The redirections after one more specifier, whose destination must be an
/// identifier.
pub open spec fn accumulate_one(r: Redirection, specifier: Syntax) -> Result<Redirection, Fault> {
    match specifier_parts(specifier) {
        Some((kind, Syntax::Identifier(path))) => Ok(r.apply(kind, path)),
        _ => Err(Fault::ArgumentResolutionFailure),
    }
}

/// The redirections after the specifiers, applied in order.
pub open spec fn accumulate(r: Redirection, specifiers: Seq<Syntax>) -> Result<Redirection, Fault>
    decreases specifiers.len(),
{
    if specifiers.len() == 0 {
        Ok(r)
    } else {
        match accumulate_one(r, specifiers[0]) {
            Ok(next) => accumulate(next, specifiers.drop_first()),
            Err(fault) => Err(fault),
        }
    }
}

/// What one stage gives: its argument vector, and the redirections after
/// its own specifiers. A stage is a command or a redirected command.
pub open spec fn resolve_stage(store: Store, r: Redirection, stage: Syntax) -> Result<
    (Seq<Seq<char>>, Redirection),
    Fault,
> {
    match stage {
        Syntax::Command(_, _) => match resolve_command(store, stage) {
            Ok(argv) => Ok((argv, r)),
            Err(fault) => Err(fault),
        },
        Syntax::Redirect(cmd, specifiers) => match accumulate(r, specifiers) {
            Ok(next) => match resolve_command(store, *cmd) {
                Ok(argv) => Ok((argv, next)),
                Err(fault) => Err(fault),
            },
            Err(fault) => Err(fault),
        },
        _ => Err(Fault::ArgumentResolutionFailure),
    }
}

/// What the stages of a pipeline give: the argument vector of each, in
/// order, and the redirections after all their specifiers.
pub open spec fn resolve_stages(store: Store, r: Redirection, stages: Seq<Syntax>) -> Result<
    (Seq<Seq<Seq<char>>>, Redirection),
    Fault,
>
    decreases stages.len(),
{
    if stages.len() == 0 {
        Ok((Seq::empty(), r))
    } else {
        match resolve_stage(store, r, stages[0]) {
            Ok((argv, next)) => match resolve_stages(store, next, stages.drop_first()) {
                Ok((rest, last)) => Ok((seq![argv] + rest, last)),
                Err(fault) => Err(fault),
            },
            Err(fault) => Err(fault),
        }
    }
}

/// The effect of a request to launch, or of the fault in its place.
pub open spec fn launch(resolved: Result<(Seq<Seq<Seq<char>>>, Redirection), Fault>) -> Effect {
    match resolved {
        Ok((stages, r)) => Effect::Run(stages, r),
        Err(fault) => Effect::Report(fault),
    }
}

/// What evaluating one statement does: the store after it, and what the
/// shell is asked to do, if anything.
pub open spec fn evaluate_statement(store: Store, statement: Syntax) -> (Store, Option<Effect>) {
    match statement {
        Syntax::Command(_, _) | Syntax::Redirect(_, _) => (
            store,
            Some(
                launch(
                    match resolve_stage(store, Redirection::none(), statement) {
                        Ok((argv, r)) => Ok((seq![argv], r)),
                        Err(fault) => Err(fault),
                    },
                ),
            ),
        ),
        Syntax::Pipeline(stages) => (
            store,
            Some(launch(resolve_stages(store, Redirection::none(), stages))),
        ),
        Syntax::Define(var, data) => match define_value(store, *var, *data) {
            Ok((name, value)) => (store.insert(name, value), None),
            Err(fault) => (store, Some(Effect::Report(fault))),
        },
        Syntax::ExecScript(filename) => (
            store,
            Some(
                match *filename {
                    Syntax::Identifier(path) => Effect::Source(path),
                    _ => Effect::Report(Fault::ArgumentResolutionFailure),
                },
            ),
        ),
        Syntax::Comment(_) => (store, None),
        _ => (store, Some(Effect::Report(Fault::ArgumentResolutionFailure))),
    }
}

/// What evaluating the pending statements in order does, up to the first
/// that asks the shell for something: the store then, the statements still
/// pending, and what is asked.
pub open spec fn advance(store: Store, pending: Seq<Syntax>) -> (Store, Seq<Syntax>, Effect)
    decreases pending.len(),
{
    if pending.len() == 0 {
        (store, pending, Effect::Done)
    } else {
        match evaluate_statement(store, pending[0]) {
            (next, Some(effect)) => (next, pending.drop_first(), effect),
            (next, None) => advance(next, pending.drop_first()),
        }
    }
}

/// An assignment of a literal defines its variable and asks nothing of the
/// shell, and a reference to the variable then resolves to the literal.
pub proof fn lemma_define_then_reference(store: Store, name: Seq<char>, value: Seq<char>)
    ensures
        evaluate_statement(
            store,
            Syntax::Define(
                Box::new(Syntax::Identifier(name)),
                Box::new(Syntax::Identifier(value)),
            ),
        ) == (store.insert(name, value), None::<Effect>),
        resolve_reference(store.insert(name, value), Syntax::Identifier(name)) == Ok::<
            Seq<char>,
            Fault,
        >(value),
{
}

/// What an assignment defines is there for every statement that is
/// evaluated after it, wherever the assignment came from: a line that was
/// typed, or a script that was read.
pub proof fn lemma_define_is_shared(
    store: Store,
    name: Seq<char>,
    value: Seq<char>,
    pending: Seq<Syntax>,
)
    ensures
        advance(
            store,
            seq![
                Syntax::Define(
                    Box::new(Syntax::Identifier(name)),
                    Box::new(Syntax::Identifier(value)),
                ),
            ] + pending,
        ) == advance(store.insert(name, value), pending),
{
    let define = Syntax::Define(
        Box::new(Syntax::Identifier(name)),
        Box::new(Syntax::Identifier(value)),
    );
    let all = seq![define] + pending;
    assert(all[0] == define);
    assert(all.drop_first() =~= pending);
}

/// A comment does nothing: it asks nothing of the shell and leaves the
/// store as it is.
pub proof fn lemma_comment_is_inert(store: Store, text: Seq<char>, pending: Seq<Syntax>)
    ensures
        evaluate_statement(store, Syntax::Comment(text)) == (store, None::<Effect>),
        advance(store, seq![Syntax::Comment(text)] + pending) == advance(store, pending),
{
    let all = seq![Syntax::Comment(text)] + pending;
    assert(all[0] == Syntax::Comment(text));
    assert(all.drop_first() =~= pending);
}

/// A command that refers to a variable that is not defined is skipped: the
/// shell is asked to report the variable's name, nothing is launched, the
/// store is left as it is, and the statements after it are still pending.
pub proof fn lemma_undefined_reference_is_skipped(
    store: Store,
    command: Seq<char>,
    before: Seq<Seq<char>>,
    name: Seq<char>,
    behind: Seq<Syntax>,
    pending: Seq<Syntax>,
)
    requires
        !store.contains_key(name),
    ensures
        ({
            let args = before.map_values(|text: Seq<char>| Syntax::Identifier(text)) + seq![
                Syntax::Reference(Box::new(Syntax::Identifier(name))),
            ] + behind;
            let statement = Syntax::Command(Box::new(Syntax::Identifier(command)), args);
            advance(store, seq![statement] + pending) == (
                store,
                pending,
                Effect::Report(Fault::UndefinedVariable(name)),
            )
        }),
{
    let literals = before.map_values(|text: Seq<char>| Syntax::Identifier(text));
    let reference = Syntax::Reference(Box::new(Syntax::Identifier(name)));
    let args = literals + seq![reference] + behind;
    let statement = Syntax::Command(Box::new(Syntax::Identifier(command)), args);
    lemma_first_fault(store, literals, reference, behind, Fault::UndefinedVariable(name));
    let all = seq![statement] + pending;
    assert(all[0] == statement);
    assert(all.drop_first() =~= pending);
}

/// The arguments have the fault of the first argument that has one.
pub proof fn lemma_first_fault(
    store: Store,
    before: Seq<Syntax>,
    faulty: Syntax,
    behind: Seq<Syntax>,
    fault: Fault,
)
    requires
        forall|i: int| 0 <= i < before.len() ==> resolve_argument(store, #[trigger] before[i]) is Ok,
        resolve_argument(store, faulty) == Err::<Option<Seq<char>>, Fault>(fault),
    ensures
        resolve_arguments(store, before + seq![faulty] + behind) == Err::<Seq<Seq<char>>, Fault>(
            fault,
        ),
    decreases before.len(),
{
    let all = before + seq![faulty] + behind;
    if before.len() == 0 {
        assert(all[0] == faulty);
    } else {
        assert(all[0] == before[0]);
        assert(all.drop_first() =~= before.drop_first() + seq![faulty] + behind);
        assert forall|i: int| 0 <= i < before.drop_first().len() implies resolve_argument(
            store,
            #[trigger] before.drop_first()[i],
        ) is Ok by {
            assert(before.drop_first()[i] == before[i + 1]);
        }
        lemma_first_fault(store, before.drop_first(), faulty, behind, fault);
    }
}

/// A command whose name is an identifier and whose arguments are all
/// identifiers resolves to its name and the texts of its arguments, in
/// order, whatever the store holds.
pub proof fn lemma_literal_command(store: Store, command: Seq<char>, args: Seq<Seq<char>>)
    ensures
        resolve_command(
            store,
            Syntax::Command(
                Box::new(Syntax::Identifier(command)),
                args.map_values(|text: Seq<char>| Syntax::Identifier(text)),
            ),
        ) == Ok::<Seq<Seq<char>>, Fault>(seq![command] + args),
{
    lemma_literal_arguments(store, args);
}

/// Arguments that are all identifiers resolve to their texts, in order.
pub proof fn lemma_literal_arguments(store: Store, args: Seq<Seq<char>>)
    ensures
        resolve_arguments(store, args.map_values(|text: Seq<char>| Syntax::Identifier(text)))
            == Ok::<Seq<Seq<char>>, Fault>(args),
    decreases args.len(),
{
    let nodes = args.map_values(|text: Seq<char>| Syntax::Identifier(text));
    if args.len() == 0 {
        assert(args =~= Seq::<Seq<char>>::empty());
    } else {
        lemma_literal_arguments(store, args.drop_first());
        assert(nodes.drop_first() =~= args.drop_first().map_values(
            |text: Seq<char>| Syntax::Identifier(text),
        ));
        assert(seq![args[0]] + args.drop_first() =~= args);
    }
}

/// The last specifier wins: after any specifiers, one more specifier of a
/// kind, with an identifier as its destination, sets the file of the
/// kind's stream to that destination, whatever the earlier ones said of
/// it, and leaves the other streams as the earlier ones left them.
pub proof fn lemma_last_specifier_wins(
    r: Redirection,
    specifiers: Seq<Syntax>,
    kind: RedirectKind,
    path: Seq<char>,
)
    ensures
        accumulate(r, specifiers.push(kind.wrap(Syntax::Identifier(path)))) == match accumulate(
            r,
            specifiers,
        ) {
            Ok(before) => Ok::<Redirection, Fault>(before.apply(kind, path)),
            Err(fault) => Err::<Redirection, Fault>(fault),
        },
    decreases specifiers.len(),
{
    let last = kind.wrap(Syntax::Identifier(path));
    let all = specifiers.push(last);
    assert(specifier_parts(last) == Some((kind, Syntax::Identifier(path))));
    if specifiers.len() == 0 {
        assert(all[0] == last);
        assert(all.drop_first() =~= Seq::<Syntax>::empty());
        assert(accumulate_one(r, last) == Ok::<Redirection, Fault>(r.apply(kind, path)));
        assert(accumulate(r.apply(kind, path), all.drop_first()) == Ok::<Redirection, Fault>(
            r.apply(kind, path),
        ));
        assert(accumulate(r, specifiers) == Ok::<Redirection, Fault>(r));
    } else {
        assert(all[0] == specifiers[0]);
        assert(all.drop_first() =~= specifiers.drop_first().push(last));
        match accumulate_one(r, specifiers[0]) {
            Ok(next) => {
                lemma_last_specifier_wins(next, specifiers.drop_first(), kind, path);
            },
            Err(_) => {},
        }
    }
}

} // verus!
