use rsh::ast::{
    CommandStatement, Comment, CompoundStatement, Define, ExecScript, Identifier, Node, Pipeline,
    Redirect, RedirectInput, RedirectOutput, RedirectOutputAppend, Reference,
};
use rsh::evaluator::{Action, Evaluator, ResolutionError};
use rsh::memory::{Memory, Variable};
use rsh::parse::{Parse, ParseFailure};
use rsh::redirect::{FileMode, FileRequest};

fn id(text: &str) -> Node {
    Node::Identifier(Identifier::new(text.to_string()))
}

fn reference(name: &str) -> Node {
    Node::Reference(Box::new(Reference::new(id(name))))
}

fn words(list: &[&str]) -> Vec<String> {
    list.iter().map(|w| w.to_string()).collect()
}

fn submit(evaluator: &mut Evaluator, text: &str) {
    let ast = Parse::parse_node(text).unwrap();
    assert_eq!(evaluator.evaluate(ast), 0);
}

fn expect_run(action: Action) -> rsh::evaluator::PipelineRequest {
    match action {
        Action::Run(request) => request,
        other => panic!("expected a pipeline to run, got {:?}", other),
    }
}

#[test]
fn store_defines_and_overwrites() {
    let mut memory = Memory::new();
    assert_eq!(memory.lookup("x"), None);
    memory.define("x".to_string(), "1".to_string());
    memory.push(Variable::new("y".to_string(), "2".to_string()));
    assert_eq!(memory.lookup("x"), Some("1".to_string()));
    assert_eq!(memory.lookup("y"), Some("2".to_string()));
    memory.define("x".to_string(), "3".to_string());
    assert_eq!(memory.lookup("x"), Some("3".to_string()));
    assert_eq!(memory.lookup("X"), None);
    assert_eq!(memory.lookup("y"), Some("2".to_string()));
}

#[test]
fn define_then_reference_yields_the_value() {
    let mut evaluator = Evaluator::new();
    submit(&mut evaluator, "var=\"value\"");
    assert!(matches!(evaluator.next(), Action::Done));
    assert_eq!(evaluator.lookup("var"), Some("value".to_string()));
    assert_eq!(
        evaluator.eval_reference(Reference::new(id("var"))),
        Ok("value".to_string())
    );
}

#[test]
fn reference_to_nothing_is_an_error() {
    let evaluator = Evaluator::new();
    assert_eq!(
        evaluator.eval_reference(Reference::new(id("missing"))),
        Err(ResolutionError::UndefinedVariable("missing".to_string()))
    );
    assert_eq!(
        evaluator.eval_reference(Reference::new(Node::Comment(Comment::new("c".to_string())))),
        Err(ResolutionError::UndefinedVariable(String::new()))
    );
}

#[test]
fn command_resolves_to_its_words_in_order() {
    let mut evaluator = Evaluator::new();
    submit(&mut evaluator, "x=\"1\"; y=\"two words\"");
    assert!(matches!(evaluator.next(), Action::Done));
    let command = CommandStatement::new(
        id("echo"),
        vec![
            id("a"),
            reference("y"),
            Node::Comment(Comment::new("dropped".to_string())),
            reference("x"),
            id("b"),
        ],
    );
    assert_eq!(
        evaluator.command_statement_to_vec(command),
        Ok(words(&["echo", "a", "two words", "1", "b"]))
    );
}

#[test]
fn command_name_must_be_an_identifier() {
    let evaluator = Evaluator::new();
    let command = CommandStatement::new(reference("missing"), vec![reference("other")]);
    assert_eq!(
        evaluator.command_statement_to_vec(command),
        Err(ResolutionError::ArgumentResolutionFailure)
    );
}

#[test]
fn first_undefined_variable_is_reported() {
    let evaluator = Evaluator::new();
    let command =
        CommandStatement::new(id("echo"), vec![id("a"), reference("m1"), reference("m2")]);
    assert_eq!(
        evaluator.command_statement_to_vec(command),
        Err(ResolutionError::UndefinedVariable("m1".to_string()))
    );
}

#[test]
fn comment_produces_nothing() {
    let mut evaluator = Evaluator::new();
    submit(&mut evaluator, "# note\necho ok");
    let request = expect_run(evaluator.next());
    assert_eq!(request.stages, vec![words(&["echo", "ok"])]);
    assert_eq!(request.redirect.input(), None);
    assert_eq!(request.redirect.output(), None);
    assert_eq!(request.redirect.error(), None);
    assert!(matches!(evaluator.next(), Action::Done));
}

#[test]
fn undefined_variable_skips_only_its_statement() {
    let mut evaluator = Evaluator::new();
    submit(&mut evaluator, "echo $missing; a=\"1\"; echo $a | cat $missing; echo $a");
    match evaluator.next() {
        Action::Report(error) => {
            assert_eq!(error, ResolutionError::UndefinedVariable("missing".to_string()))
        }
        other => panic!("{:?}", other),
    }
    match evaluator.next() {
        Action::Report(error) => {
            assert_eq!(error, ResolutionError::UndefinedVariable("missing".to_string()))
        }
        other => panic!("{:?}", other),
    }
    let request = expect_run(evaluator.next());
    assert_eq!(request.stages, vec![words(&["echo", "1"])]);
    assert!(matches!(evaluator.next(), Action::Done));
    assert!(matches!(evaluator.next(), Action::Done));
}

#[test]
fn pipeline_resolves_every_stage() {
    let mut evaluator = Evaluator::new();
    submit(&mut evaluator, "n=\"3\"\ncat < in.txt | head $n | sort > a.txt >> b.txt 2> e.log");
    let request = expect_run(evaluator.next());
    assert_eq!(
        request.stages,
        vec![words(&["cat"]), words(&["head", "3"]), words(&["sort"])]
    );
    assert_eq!(
        request.redirect.input(),
        Some(FileRequest { path: "in.txt".to_string(), mode: FileMode::Read })
    );
    assert_eq!(
        request.redirect.output(),
        Some(FileRequest { path: "b.txt".to_string(), mode: FileMode::Append })
    );
    assert_eq!(
        request.redirect.error(),
        Some(FileRequest { path: "e.log".to_string(), mode: FileMode::Overwrite })
    );
}

#[test]
fn later_redirect_wins() {
    let mut evaluator = Evaluator::new();
    submit(&mut evaluator, "cmd > a.txt > b.txt");
    let request = expect_run(evaluator.next());
    assert_eq!(request.stages, vec![words(&["cmd"])]);
    assert_eq!(
        request.redirect.output(),
        Some(FileRequest { path: "b.txt".to_string(), mode: FileMode::Overwrite })
    );
    submit(&mut evaluator, "cmd >> a.txt < i1 > b.txt < i2");
    let request = expect_run(evaluator.next());
    assert_eq!(
        request.redirect.output(),
        Some(FileRequest { path: "b.txt".to_string(), mode: FileMode::Overwrite })
    );
    assert_eq!(
        request.redirect.input(),
        Some(FileRequest { path: "i2".to_string(), mode: FileMode::Read })
    );
}

#[test]
fn redirections_do_not_outlive_their_statement() {
    let mut evaluator = Evaluator::new();
    submit(&mut evaluator, "a > out.txt; b");
    let first = expect_run(evaluator.next());
    assert!(first.redirect.output().is_some());
    let second = expect_run(evaluator.next());
    assert_eq!(second.stages, vec![words(&["b"])]);
    assert_eq!(second.redirect.output(), None);
}

#[test]
fn redirect_destination_must_be_an_identifier() {
    let mut evaluator = Evaluator::new();
    let bad = Node::Redirect(Box::new(Redirect::new(
        Node::CommandStatement(Box::new(CommandStatement::new(id("cmd"), vec![]))),
        vec![Node::RedirectOutput(Box::new(RedirectOutput::new(reference("x"))))],
    )));
    assert_eq!(evaluator.evaluate(Node::CompoundStatement(CompoundStatement::new(vec![bad]))), 0);
    match evaluator.next() {
        Action::Report(error) => assert_eq!(error, ResolutionError::ArgumentResolutionFailure),
        other => panic!("{:?}", other),
    }
    let specifiers = vec![
        Node::RedirectInput(Box::new(RedirectInput::new(id("i")))),
        Node::RedirectOutputAppend(Box::new(RedirectOutputAppend::new(id("o")))),
    ];
    let found = evaluator.eval_redirect_branch(rsh::redirect::RedirectFD::new(), specifiers).unwrap();
    assert_eq!(found.input().unwrap().path, "i");
    assert_eq!(found.output().unwrap().mode, FileMode::Append);
    assert!(evaluator
        .eval_redirect_branch(rsh::redirect::RedirectFD::new(), vec![id("x")])
        .is_err());
}

#[test]
fn script_is_sourced_into_the_same_session() {
    let mut evaluator = Evaluator::new();
    submit(&mut evaluator, "./set.rsh; echo $x");
    match evaluator.next() {
        Action::Source(path) => assert_eq!(path, "set.rsh"),
        other => panic!("{:?}", other),
    }
    assert_eq!(evaluator.source("x=\"1\"\necho in-script"), Ok(()));
    let request = expect_run(evaluator.next());
    assert_eq!(request.stages, vec![words(&["echo", "in-script"])]);
    assert_eq!(evaluator.lookup("x"), Some("1".to_string()));
    let request = expect_run(evaluator.next());
    assert_eq!(request.stages, vec![words(&["echo", "1"])]);
    assert!(matches!(evaluator.next(), Action::Done));
    assert_eq!(evaluator.lookup("x"), Some("1".to_string()));
}

#[test]
fn script_that_is_no_program_changes_nothing() {
    let mut evaluator = Evaluator::new();
    submit(&mut evaluator, "./bad.rsh; echo after");
    assert!(matches!(evaluator.next(), Action::Source(_)));
    assert_eq!(evaluator.source("x=\"1\" ;; y"), Err(ParseFailure { position: 7 }));
    let request = expect_run(evaluator.next());
    assert_eq!(request.stages, vec![words(&["echo", "after"])]);
    assert_eq!(evaluator.lookup("x"), None);
}

#[test]
fn script_name_must_be_an_identifier() {
    let evaluator = Evaluator::new();
    assert_eq!(
        evaluator.eval_exec_script(ExecScript::new(id("run.sh"))),
        Ok("run.sh".to_string())
    );
    assert_eq!(
        evaluator.eval_exec_script(ExecScript::new(reference("x"))),
        Err(ResolutionError::ArgumentResolutionFailure)
    );
}

#[test]
fn define_takes_a_reference_as_data() {
    let mut evaluator = Evaluator::new();
    assert_eq!(evaluator.eval_define(Define::new(id("a"), id("1"))), Ok(()));
    assert_eq!(evaluator.eval_define(Define::new(id("b"), reference("a"))), Ok(()));
    assert_eq!(evaluator.lookup("b"), Some("1".to_string()));
    assert_eq!(
        evaluator.eval_define(Define::new(id("c"), reference("nope"))),
        Err(ResolutionError::UndefinedVariable("nope".to_string()))
    );
    assert_eq!(evaluator.lookup("c"), None);
    assert_eq!(
        evaluator.eval_define(Define::new(reference("a"), id("1"))),
        Err(ResolutionError::ArgumentResolutionFailure)
    );
    assert_eq!(
        evaluator.eval_define(Define::new(id("d"), Node::Comment(Comment::new("x".to_string())))),
        Err(ResolutionError::ArgumentResolutionFailure)
    );
}

#[test]
fn evaluate_takes_compound_statements_only() {
    let mut evaluator = Evaluator::new();
    assert_eq!(evaluator.evaluate(id("x")), 0);
    assert!(matches!(evaluator.next(), Action::Done));
    let pipeline = Node::Pipeline(Pipeline::new(vec![]));
    assert_eq!(evaluator.evaluate(pipeline), 1);
    assert!(matches!(evaluator.next(), Action::Done));
    assert_eq!(evaluator.evaluate(Node::Comment(Comment::new("c".to_string()))), 1);
}

#[test]
fn statements_of_unknown_kind_are_reported() {
    let mut evaluator = Evaluator::new();
    let program = Node::CompoundStatement(CompoundStatement::new(vec![id("stray"), id("x")]));
    assert_eq!(evaluator.evaluate(program), 0);
    assert!(matches!(
        evaluator.next(),
        Action::Report(ResolutionError::ArgumentResolutionFailure)
    ));
    assert!(matches!(
        evaluator.next(),
        Action::Report(ResolutionError::ArgumentResolutionFailure)
    ));
    assert!(matches!(evaluator.next(), Action::Done));
}

#[test]
fn empty_pipeline_resolves_to_no_stage() {
    let evaluator = Evaluator::new();
    let request = evaluator.eval_pipeline(Pipeline::new(vec![])).unwrap();
    assert!(request.stages.is_empty());
}

#[test]
fn pipeline_stage_must_be_a_command() {
    let evaluator = Evaluator::new();
    let pipeline = Pipeline::new(vec![
        Node::CommandStatement(Box::new(CommandStatement::new(id("a"), vec![]))),
        id("b"),
    ]);
    assert_eq!(
        evaluator.eval_pipeline(pipeline).unwrap_err(),
        ResolutionError::ArgumentResolutionFailure
    );
}

#[test]
fn identifier_text() {
    let evaluator = Evaluator::new();
    assert_eq!(evaluator.eval_identifier(Identifier::new("a b".to_string())), "a b");
}
