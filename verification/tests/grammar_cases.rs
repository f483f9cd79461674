use rsh::ast::{
    CommandStatement, Comment, CompoundStatement, Define, ExecScript, Identifier, Node, Pipeline,
    Redirect, RedirectErrorOutput, RedirectErrorOutputAppend, RedirectInput, RedirectOutput,
    RedirectOutputAppend, Reference,
};
use rsh::parse::{Parse, ParseFailure};

fn id(text: &str) -> Node {
    Node::Identifier(Identifier::new(text.to_string()))
}

fn cmd(name: &str, args: Vec<Node>) -> Node {
    Node::CommandStatement(Box::new(CommandStatement::new(id(name), args)))
}

fn program(items: Vec<Node>) -> Node {
    Node::CompoundStatement(CompoundStatement::new(items))
}

#[test]
fn pipeline_of_two_commands_with_arguments() {
    let expected = program(vec![Node::Pipeline(Pipeline::new(vec![
        cmd("c1", vec![id("a1"), id("a2")]),
        cmd("c2", vec![id("b1")]),
    ]))]);
    assert_eq!(Parse::parse_node("c1 a1 a2 | c2 b1").unwrap(), expected);
    let (rest, node) = Parse::parse_pipeline("c1 a1 a2 | c2 b1").unwrap();
    assert_eq!(rest, "");
    assert_eq!(
        node,
        Node::Pipeline(Pipeline::new(vec![
            cmd("c1", vec![id("a1"), id("a2")]),
            cmd("c2", vec![id("b1")]),
        ]))
    );
}

#[test]
fn pipeline_needs_two_stages() {
    assert_eq!(Parse::parse_pipeline("alone arg"), Err(ParseFailure { position: 0 }));
    assert_eq!(Parse::parse_pipeline("alone |"), Err(ParseFailure { position: 0 }));
}

#[test]
fn define_parses_to_identifiers() {
    let expected = program(vec![Node::Define(Box::new(Define::new(id("var"), id("value"))))]);
    assert_eq!(Parse::parse_node("var=\"value\"").unwrap(), expected);
}

#[test]
fn define_needs_a_quoted_value() {
    assert!(Parse::parse_define("var=value").is_err());
    assert!(Parse::parse_define("var=\"\"").is_err());
    assert!(Parse::parse_define("=\"v\"").is_err());
}

#[test]
fn quoted_argument_keeps_its_whitespace() {
    let expected = program(vec![cmd("echo", vec![id("a b")])]);
    assert_eq!(Parse::parse_node("echo \"a b\"").unwrap(), expected);
    let expected = program(vec![cmd("echo", vec![id("a\tb  c")])]);
    assert_eq!(Parse::parse_node("echo 'a\tb  c'").unwrap(), expected);
}

#[test]
fn quotes_are_not_processed_inside() {
    let (rest, node) = Parse::parse_identifier("\"a\\n'b'\" tail").unwrap();
    assert_eq!(node, id("a\\n'b'"));
    assert_eq!(rest, " tail");
    assert!(Parse::parse_identifier("\"open").is_err());
    assert!(Parse::parse_identifier("\"\"").is_err());
    assert!(Parse::parse_identifier("plain").is_err());
}

#[test]
fn comment_then_command() {
    let expected = program(vec![
        Node::Comment(Comment::new(" note".to_string())),
        cmd("echo", vec![id("ok")]),
    ]);
    assert_eq!(Parse::parse_node("# note\necho ok").unwrap(), expected);
}

#[test]
fn comment_stops_at_the_line_end() {
    let (rest, node) = Parse::parse_comment("#a b\r\nnext").unwrap();
    assert_eq!(node, Node::Comment(Comment::new("a b".to_string())));
    assert_eq!(rest, "\r\nnext");
    let (rest, node) = Parse::parse_comment("#").unwrap();
    assert_eq!(node, Node::Comment(Comment::new(String::new())));
    assert_eq!(rest, "");
    assert!(Parse::parse_comment("a#b").is_err());
}

#[test]
fn command_without_arguments() {
    let (rest, node) = Parse::parse_command("ls").unwrap();
    assert_eq!(node, cmd("ls", vec![]));
    assert_eq!(rest, "");
    assert_eq!(Parse::parse_node("ls").unwrap(), program(vec![cmd("ls", vec![])]));
}

#[test]
fn command_arguments_need_a_blank_before_them() {
    let (rest, node) = Parse::parse_command("echo\"a\"").unwrap();
    assert_eq!(node, cmd("echo", vec![]));
    assert_eq!(rest, "\"a\"");
    let (rest, node) = Parse::parse_command("echo \t a\tb").unwrap();
    assert_eq!(node, cmd("echo", vec![id("a"), id("b")]));
    assert_eq!(rest, "");
}

#[test]
fn bareword_stops_at_every_excluded_character() {
    for stop in [' ', '\t', '\n', '\r', '\\', '<', '>', ';', '|', '=', '#', '"', '\''] {
        let input = format!("ab{}cd", stop);
        let (rest, node) = Parse::parse_constant(&input).unwrap();
        assert_eq!(node, id("ab"));
        assert_eq!(rest, format!("{}cd", stop));
        let input = format!("{}cd", stop);
        assert_eq!(Parse::parse_constant(&input), Err(ParseFailure { position: 0 }));
    }
    let (rest, node) = Parse::parse_constant("a$b!c.d-e/f").unwrap();
    assert_eq!(node, id("a$b!c.d-e/f"));
    assert_eq!(rest, "");
    assert!(Parse::parse_constant("").is_err());
}

#[test]
fn not_space_stops_at_bang_and_dollar_too() {
    let (rest, node) = Parse::parse_not_space("ab!c").unwrap();
    assert_eq!(node, id("ab"));
    assert_eq!(rest, "!c");
    let (rest, node) = Parse::parse_not_space("ab$c").unwrap();
    assert_eq!(node, id("ab"));
    assert_eq!(rest, "$c");
    assert!(Parse::parse_not_space("$c").is_err());
}

#[test]
fn dotted_run_takes_dots_letters_and_digits() {
    let (rest, node) = Parse::parse_filename_with_dot("a.B.9_x").unwrap();
    assert_eq!(node, id("a.B.9"));
    assert_eq!(rest, "_x");
    assert!(Parse::parse_filename_with_dot("_x").is_err());
    assert!(Parse::parse_filename_with_dot("é").is_err());
}

#[test]
fn filename_takes_the_whole_bareword() {
    let (rest, node) = Parse::parse_filename("my_file-1.txt rest").unwrap();
    assert_eq!(node, id("my_file-1.txt"));
    assert_eq!(rest, " rest");
    assert!(Parse::parse_filename("!x").is_err());
}

#[test]
fn reference_is_dollar_and_a_bareword() {
    let (rest, node) = Parse::parse_reference("$name rest").unwrap();
    assert_eq!(node, Node::Reference(Box::new(Reference::new(id("name")))));
    assert_eq!(rest, " rest");
    assert!(Parse::parse_reference("$").is_err());
    assert!(Parse::parse_reference("$ x").is_err());
    assert!(Parse::parse_reference("name").is_err());
}

#[test]
fn reference_as_an_argument() {
    let expected = program(vec![cmd(
        "echo",
        vec![
            Node::Reference(Box::new(Reference::new(id("missing")))),
            id("$"),
            id("a$b"),
        ],
    )]);
    assert_eq!(Parse::parse_node("echo $missing $ a$b").unwrap(), expected);
}

#[test]
fn every_redirection_operator() {
    let cases: Vec<(&str, Node)> = vec![
        ("< f", Node::RedirectInput(Box::new(RedirectInput::new(id("f"))))),
        ("> f", Node::RedirectOutput(Box::new(RedirectOutput::new(id("f"))))),
        (">> f", Node::RedirectOutputAppend(Box::new(RedirectOutputAppend::new(id("f"))))),
        ("2> f", Node::RedirectErrorOutput(Box::new(RedirectErrorOutput::new(id("f"))))),
        (
            "2>> f",
            Node::RedirectErrorOutputAppend(Box::new(RedirectErrorOutputAppend::new(id("f")))),
        ),
        (" \n >f", Node::RedirectOutput(Box::new(RedirectOutput::new(id("f"))))),
    ];
    for (input, expected) in cases {
        let (rest, node) = Parse::parse_redirect_specifier(input).unwrap();
        assert_eq!(node, expected, "{}", input);
        assert_eq!(rest, "");
    }
    assert!(Parse::parse_redirect_specifier("2 > f").is_err());
    assert!(Parse::parse_redirect_specifier("> ").is_err());
    assert!(Parse::parse_redirect_specifier("| f").is_err());
}

#[test]
fn redirect_keeps_every_specifier_in_order() {
    let expected = program(vec![Node::Redirect(Box::new(Redirect::new(
        cmd("cmd", vec![id("x")]),
        vec![
            Node::RedirectOutput(Box::new(RedirectOutput::new(id("a.txt")))),
            Node::RedirectOutputAppend(Box::new(RedirectOutputAppend::new(id("b.txt")))),
            Node::RedirectErrorOutput(Box::new(RedirectErrorOutput::new(id("e.log")))),
            Node::RedirectInput(Box::new(RedirectInput::new(id("in")))),
        ],
    )))]);
    assert_eq!(Parse::parse_node("cmd x > a.txt >> b.txt 2> e.log < in").unwrap(), expected);
}

#[test]
fn a_two_after_a_blank_is_an_argument() {
    let expected = program(vec![Node::Redirect(Box::new(Redirect::new(
        cmd("cmd", vec![id("2")]),
        vec![Node::RedirectOutput(Box::new(RedirectOutput::new(id("err.txt"))))],
    )))]);
    assert_eq!(Parse::parse_node("cmd 2> err.txt").unwrap(), expected);
}

#[test]
fn redirect_needs_a_specifier() {
    assert_eq!(Parse::parse_redirect("cmd arg"), Err(ParseFailure { position: 0 }));
}

#[test]
fn script_statement() {
    let expected = program(vec![Node::ExecScript(Box::new(ExecScript::new(id("set.rsh"))))]);
    assert_eq!(Parse::parse_node("./set.rsh").unwrap(), expected);
    let expected = program(vec![Node::ExecScript(Box::new(ExecScript::new(id(
        "my-script_2.sh",
    ))))]);
    assert_eq!(Parse::parse_node("./my-script_2.sh\n").unwrap(), expected);
    assert!(Parse::parse_exec_script("script.sh").is_err());
    assert!(Parse::parse_exec_script("./").is_err());
}

#[test]
fn statement_alternatives_in_priority_order() {
    let (_, node) = Parse::parse_statement("  #./x=\"1\" | y\n").unwrap();
    assert_eq!(node, Node::Comment(Comment::new("./x=\"1\" | y".to_string())));
    let (rest, node) = Parse::parse_statement("./x=\"1\"").unwrap();
    assert_eq!(node, Node::ExecScript(Box::new(ExecScript::new(id("x")))));
    assert_eq!(rest, "=\"1\"");
    let (_, node) = Parse::parse_statement("x=\"1\" | y").unwrap();
    assert_eq!(node, Node::Define(Box::new(Define::new(id("x"), id("1")))));
    let (_, node) = Parse::parse_statement("x > f | y").unwrap();
    assert_eq!(
        node,
        Node::Pipeline(Pipeline::new(vec![
            Node::Redirect(Box::new(Redirect::new(
                cmd("x", vec![]),
                vec![Node::RedirectOutput(Box::new(RedirectOutput::new(id("f"))))],
            ))),
            cmd("y", vec![]),
        ]))
    );
}

#[test]
fn continued_command_goes_over_lines() {
    let expected = program(vec![cmd("echo", vec![id("a"), id("b"), id("c")])]);
    assert_eq!(Parse::parse_node("echo a \\\n   b \\  # why\n c\n").unwrap(), expected);
    assert!(Parse::parse_command_with_backslash("echo").is_err());
}

#[test]
fn statements_separated_by_semicolons_and_lines() {
    let expected = program(vec![cmd("a", vec![]), cmd("b", vec![id("x")]), cmd("c", vec![])]);
    assert_eq!(Parse::parse_node("a; b x\n\n c ;\n").unwrap(), expected);
    assert_eq!(Parse::parse_node("a; ").unwrap(), program(vec![cmd("a", vec![])]));
}

#[test]
fn empty_and_blank_texts_are_empty_programs() {
    assert_eq!(Parse::parse_node("").unwrap(), program(vec![]));
    assert_eq!(Parse::parse_node(" \n\t\r\n").unwrap(), program(vec![]));
    let (rest, node) = Parse::parse_compound_statement("").unwrap();
    assert_eq!(node, program(vec![]));
    assert_eq!(rest, "");
}

#[test]
fn failure_names_the_position_reached() {
    assert_eq!(Parse::parse_node("a;;b"), Err(ParseFailure { position: 2 }));
    assert_eq!(Parse::parse_node("a | "), Err(ParseFailure { position: 2 }));
    assert_eq!(Parse::parse_node("=x"), Err(ParseFailure { position: 0 }));
    assert_eq!(Parse::parse_node("é \"unclosed"), Err(ParseFailure { position: 2 }));
    let (rest, node) = Parse::parse_compound_statement("a;;b").unwrap();
    assert_eq!(node, program(vec![cmd("a", vec![])]));
    assert_eq!(rest, ";b");
}

#[test]
fn positions_count_characters() {
    let (rest, node) = Parse::parse_command("日本 語 | x").unwrap();
    assert_eq!(node, cmd("日本", vec![id("語")]));
    assert_eq!(rest, " | x");
}

#[test]
fn complex_line() {
    let expected = program(vec![
        Node::Pipeline(Pipeline::new(vec![
            cmd(
                "echo",
                vec![Node::Reference(Box::new(Reference::new(id("x")))), id("a b")],
            ),
            Node::Redirect(Box::new(Redirect::new(
                cmd("cat", vec![]),
                vec![
                    Node::RedirectOutput(Box::new(RedirectOutput::new(id("out.txt")))),
                    Node::RedirectErrorOutputAppend(Box::new(RedirectErrorOutputAppend::new(id(
                        "e.log",
                    )))),
                ],
            ))),
        ])),
        Node::ExecScript(Box::new(ExecScript::new(id("run.sh")))),
        Node::Comment(Comment::new(" done".to_string())),
    ]);
    let text = "echo $x \"a b\" | cat > out.txt 2>> e.log ; ./run.sh\n# done\n";
    assert_eq!(Parse::parse_node(text).unwrap(), expected);
}
