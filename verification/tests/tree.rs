use rsh::ast::{
    clone_nodes, CommandStatement, Comment, CompoundStatement, Define, ExecScript, Identifier, Node,
    Pipeline, Redirect, RedirectErrorOutput, RedirectErrorOutputAppend, RedirectInput,
    RedirectOutput, RedirectOutputAppend, Reference,
};

fn id(text: &str) -> Node {
    Node::Identifier(Identifier::new(text.to_string()))
}

fn cmd(name: &str, args: Vec<Node>) -> Node {
    Node::CommandStatement(Box::new(CommandStatement::new(id(name), args)))
}

fn sample() -> Node {
    Node::CompoundStatement(CompoundStatement::new(vec![
        Node::Define(Box::new(Define::new(id("x"), id("1")))),
        Node::Comment(Comment::new(" c".to_string())),
        Node::Pipeline(Pipeline::new(vec![
            cmd("a", vec![Node::Reference(Box::new(Reference::new(id("x"))))]),
            Node::Redirect(Box::new(Redirect::new(
                cmd("b", vec![]),
                vec![
                    Node::RedirectInput(Box::new(RedirectInput::new(id("i")))),
                    Node::RedirectOutput(Box::new(RedirectOutput::new(id("o")))),
                    Node::RedirectOutputAppend(Box::new(RedirectOutputAppend::new(id("oa")))),
                    Node::RedirectErrorOutput(Box::new(RedirectErrorOutput::new(id("e")))),
                    Node::RedirectErrorOutputAppend(Box::new(RedirectErrorOutputAppend::new(
                        id("ea"),
                    ))),
                ],
            ))),
        ])),
        Node::ExecScript(Box::new(ExecScript::new(id("s.rsh")))),
    ]))
}

#[test]
fn copy_is_equal_and_independent() {
    let tree = sample();
    let copy = tree.get_node();
    assert_eq!(copy, tree);
    assert_eq!(tree.clone(), tree);
    drop(tree);
    assert_eq!(copy, sample());
    let nodes = vec![id("a"), cmd("b", vec![id("c")])];
    assert_eq!(clone_nodes(&nodes), nodes);
    assert!(clone_nodes(&Vec::new()).is_empty());
}

#[test]
fn default_node_is_the_empty_identifier() {
    assert_eq!(Node::default(), id(""));
}

#[test]
fn eval_gives_what_a_node_holds() {
    let statements = vec![cmd("a", vec![]), id("b")];
    let compound = Node::CompoundStatement(CompoundStatement::new(clone_nodes(&statements)));
    assert_eq!(compound.eval(), statements);
    let pipeline = Node::Pipeline(Pipeline::new(clone_nodes(&statements)));
    assert_eq!(pipeline.eval(), statements);
    assert!(cmd("a", vec![id("x")]).eval().is_empty());
    let nested =
        Node::CommandStatement(Box::new(CommandStatement::new(compound.get_node(), vec![])));
    assert_eq!(nested.eval(), statements);
    assert!(id("x").eval().is_empty());
    assert!(Node::Comment(Comment::new("c".to_string())).eval().is_empty());
}

#[test]
fn sides_of_a_command() {
    let command = cmd("name", vec![id("a"), id("b")]);
    assert_eq!(command.get_lhs(), id("name"));
    assert_eq!(command.get_rhs(), vec![id("a"), id("b")]);
    assert_eq!(id("x").get_lhs(), id(""));
    assert!(id("x").get_rhs().is_empty());
    assert_eq!(sample().get_lhs(), Node::default());
}

#[test]
fn compound_statement_builders() {
    assert_eq!(CompoundStatement::from(id("a")), CompoundStatement::new(vec![id("a")]));
    assert_eq!(
        CompoundStatement::start_node(id("a"), vec![id("b"), id("c")]),
        CompoundStatement::new(vec![id("a"), id("b"), id("c")])
    );
    assert_eq!(CompoundStatement::start_node(id("a"), vec![]).eval(), vec![id("a")]);
    assert_eq!(Pipeline::from(id("a")), Pipeline::new(vec![id("a")]));
    assert_eq!(Pipeline::from(id("a")).get_commands(), vec![id("a")]);
}

#[test]
fn getters_give_the_parts() {
    let define = Define::new(id("v"), id("d"));
    assert_eq!(define.get_var(), id("v"));
    assert_eq!(define.get_data(), id("d"));
    let command = CommandStatement::new(id("c"), vec![id("1"), id("2")]);
    assert_eq!(command.get_command(), id("c"));
    assert_eq!(command.get_sub_command(), vec![id("1"), id("2")]);
    let redirect = Redirect::new(cmd("c", vec![]), vec![id("x")]);
    assert_eq!(redirect.get_command(), cmd("c", vec![]));
    assert_eq!(redirect.get_destination(), vec![id("x")]);
    assert_eq!(RedirectInput::new(id("f")).get_destination(), id("f"));
    assert_eq!(RedirectOutput::new(id("f")).get_destination(), id("f"));
    assert_eq!(RedirectOutputAppend::new(id("f")).get_destination(), id("f"));
    assert_eq!(RedirectErrorOutput::new(id("f")).get_destination(), id("f"));
    assert_eq!(RedirectErrorOutputAppend::new(id("f")).get_destination(), id("f"));
    assert_eq!(ExecScript::new(id("f")).get_filename(), id("f"));
    assert_eq!(Reference::new(id("n")).get_reference(), id("n"));
    assert_eq!(Identifier::new("t".to_string()).eval(), "t");
    assert_eq!(Comment::new(" c".to_string()).get_comment(), " c");
}

#[test]
fn different_kinds_are_different() {
    assert_ne!(
        Node::RedirectOutput(Box::new(RedirectOutput::new(id("f")))),
        Node::RedirectOutputAppend(Box::new(RedirectOutputAppend::new(id("f"))))
    );
    assert_ne!(id("f"), Node::Comment(Comment::new("f".to_string())));
    assert_ne!(id("f"), Node::Reference(Box::new(Reference::new(id("f")))));
}
