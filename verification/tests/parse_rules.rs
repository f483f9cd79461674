use rsh::ast::{
    CommandStatement, Comment, CompoundStatement, Define, ExecScript, Identifier, Node, Pipeline,
    Redirect, RedirectInput, RedirectOutput,
};
use rsh::parse::Parse;

#[test]
fn test_parse_pipeline() {
    let input = "command1 | command2";
    let expected = Node::Pipeline(Pipeline::new(vec![
        Node::CommandStatement(Box::new(CommandStatement::new(
            Node::Identifier(Identifier::new("command1".to_string())),
            vec![],
        ))),
        Node::CommandStatement(Box::new(CommandStatement::new(
            Node::Identifier(Identifier::new("command2".to_string())),
            vec![],
        ))),
    ]));
    let result = Parse::parse_pipeline(input).unwrap().1;
    assert_eq!(result, expected);

    let input = "command1 arg1 | command2 arg2";
    let expected = Node::Pipeline(Pipeline::new(vec![
        Node::CommandStatement(Box::new(CommandStatement::new(
            Node::Identifier(Identifier::new("command1".to_string())),
            vec![Node::Identifier(Identifier::new("arg1".to_string()))],
        ))),
        Node::CommandStatement(Box::new(CommandStatement::new(
            Node::Identifier(Identifier::new("command2".to_string())),
            vec![Node::Identifier(Identifier::new("arg2".to_string()))],
        ))),
    ]));
    let result = Parse::parse_pipeline(input).unwrap().1;
    assert_eq!(result, expected);
}

#[test]
fn test_parse_filename() {
    let input = "filename";
    let expected = Node::Identifier(Identifier::new("filename".to_string()));
    let result = Parse::parse_filename(input).unwrap().1;
    assert_eq!(result, expected);

    let input = "file.name";
    let expected = Node::Identifier(Identifier::new("file.name".to_string()));
    let result = Parse::parse_filename(input).unwrap().1;
    assert_eq!(result, expected);

    let input = ".configfile";
    let expected = Node::Identifier(Identifier::new(".configfile".to_string()));
    let result = Parse::parse_filename(input).unwrap().1;
    assert_eq!(result, expected);

    let input = "特殊な文字列のファイル名.txt";
    let expected =
        Node::Identifier(Identifier::new("特殊な文字列のファイル名.txt".to_string()));
    let result = Parse::parse_filename(input).unwrap().1;
    assert_eq!(result, expected);
}

#[test]
fn test_parse_constant() {
    let input = "constant";
    let expected = Node::Identifier(Identifier::new("constant".to_string()));
    let result = Parse::parse_constant(input).unwrap().1;
    assert_eq!(result, expected);
}

#[test]
fn test_parse_identifier() {
    let input = "\"identifier\"";
    let expected = Node::Identifier(Identifier::new("identifier".to_string()));
    let result = Parse::parse_identifier(input).unwrap().1;
    assert_eq!(result, expected);

    let input = "'identifier'";
    let expected = Node::Identifier(Identifier::new("identifier".to_string()));
    let result = Parse::parse_identifier(input).unwrap().1;
    assert_eq!(result, expected);

    let input = "'identi fier'";
    let expected = Node::Identifier(Identifier::new("identi fier".to_string()));
    let result = Parse::parse_identifier(input).unwrap().1;
    assert_eq!(result, expected);
}

#[test]
fn test_parse_not_space() {
    let input = "not_space";
    let expected = Node::Identifier(Identifier::new("not_space".to_string()));
    let result = Parse::parse_not_space(input).unwrap().1;
    assert_eq!(result, expected);
}

#[test]
fn test_parse_filename_with_dot() {
    let input = "file.name";
    let expected = Node::Identifier(Identifier::new("file.name".to_string()));
    let result = Parse::parse_filename_with_dot(input).unwrap().1;
    assert_eq!(result, expected);
}

#[test]
fn test_parse_exec_script() {
    let input = "./script.sh";
    let expected = Node::ExecScript(Box::new(ExecScript::new(Node::Identifier(
        Identifier::new("script.sh".to_string()),
    ))));
    let result = Parse::parse_exec_script(input).unwrap().1;
    assert_eq!(result, expected);
}

#[test]
fn test_parse_command() {
    let input = "command arg1 arg2\n";
    let expected = Node::CommandStatement(Box::new(CommandStatement::new(
        Node::Identifier(Identifier::new("command".to_string())),
        vec![
            Node::Identifier(Identifier::new("arg1".to_string())),
            Node::Identifier(Identifier::new("arg2".to_string())),
        ],
    )));
    let result = Parse::parse_command(input).unwrap().1;
    assert_eq!(result, expected);

    let input = "echo arg1";
    let expected = Node::CommandStatement(Box::new(CommandStatement::new(
        Node::Identifier(Identifier::new("echo".to_string())),
        vec![Node::Identifier(Identifier::new("arg1".to_string()))],
    )));
    let result = Parse::parse_command(input).unwrap().1;
    assert_eq!(result, expected);
}

#[test]
fn test_parse_command_with_backslash() {
    let input = "echo arg1 \\\narg2";
    let expected = Node::CommandStatement(Box::new(CommandStatement::new(
        Node::Identifier(Identifier::new("echo".to_string())),
        vec![
            Node::Identifier(Identifier::new("arg1".to_string())),
            Node::Identifier(Identifier::new("arg2".to_string())),
        ],
    )));
    let result = Parse::parse_command_with_backslash(input).unwrap().1;
    assert_eq!(result, expected);

    let input = "echo arg1 \\ arg2 \\ arg3\n";
    let expected = Node::CommandStatement(Box::new(CommandStatement::new(
        Node::Identifier(Identifier::new("echo".to_string())),
        vec![
            Node::Identifier(Identifier::new("arg1".to_string())),
            Node::Identifier(Identifier::new("arg2".to_string())),
            Node::Identifier(Identifier::new("arg3".to_string())),
        ],
    )));
    let result = Parse::parse_command_with_backslash(input).unwrap().1;
    assert_eq!(result, expected);

    let input = "echo arg1 \\\n     arg2 \\\n         arg3\n";
    let expected = Node::CommandStatement(Box::new(CommandStatement::new(
        Node::Identifier(Identifier::new("echo".to_string())),
        vec![
            Node::Identifier(Identifier::new("arg1".to_string())),
            Node::Identifier(Identifier::new("arg2".to_string())),
            Node::Identifier(Identifier::new("arg3".to_string())),
        ],
    )));
    let result = Parse::parse_command_with_backslash(input).unwrap().1;
    assert_eq!(result, expected);

    let input = "echo arg1 \\  #comment\n     arg2 \\\n         arg3\n";
    let expected = Node::CommandStatement(Box::new(CommandStatement::new(
        Node::Identifier(Identifier::new("echo".to_string())),
        vec![
            Node::Identifier(Identifier::new("arg1".to_string())),
            Node::Identifier(Identifier::new("arg2".to_string())),
            Node::Identifier(Identifier::new("arg3".to_string())),
        ],
    )));
    let result = Parse::parse_command_with_backslash(input).unwrap().1;
    assert_eq!(result, expected);
}

#[test]
fn test_parse_define() {
    let input = "var=\"value\"";
    let expected = Node::Define(Box::new(Define::new(
        Node::Identifier(Identifier::new("var".to_string())),
        Node::Identifier(Identifier::new("value".to_string())),
    )));
    let result = Parse::parse_define(input).unwrap().1;
    assert_eq!(result, expected);
}

#[test]
fn test_parse_comment() {
    let input = "# comment";
    let expected = Node::Comment(Comment::new(" comment".to_string()));
    let result = Parse::parse_comment(input).unwrap().1;
    assert_eq!(result, expected);
    let input = "# comment\necho ok\n";
    let expected = Node::CompoundStatement(CompoundStatement::new(vec![
        Node::Comment(Comment::new(" comment".to_string())),
        Node::CommandStatement(Box::new(CommandStatement::new(
            Node::Identifier(Identifier::new("echo".to_string())),
            vec![Node::Identifier(Identifier::new("ok".to_string()))],
        ))),
    ]));
    let result = Parse::parse_compound_statement(input).unwrap().1;
    assert_eq!(result, expected);
}
#[test]
fn parse_pipeline() {
    let input = "cmd1 | cmd2 | cmd3";
    let expected = Node::Pipeline(Pipeline::new(vec![
        Node::CommandStatement(Box::new(CommandStatement::new(
            Node::Identifier(Identifier::new("cmd1".to_string())),
            vec![],
        ))),
        Node::CommandStatement(Box::new(CommandStatement::new(
            Node::Identifier(Identifier::new("cmd2".to_string())),
            vec![],
        ))),
        Node::CommandStatement(Box::new(CommandStatement::new(
            Node::Identifier(Identifier::new("cmd3".to_string())),
            vec![],
        ))),
    ]));
    let result = Parse::parse_pipeline(input).unwrap().1;
    assert_eq!(result, expected);

    let input = "cmd1 arg1 | cmd2 arg2 | cmd3 arg3";
    let expected = Node::Pipeline(Pipeline::new(vec![
        Node::CommandStatement(Box::new(CommandStatement::new(
            Node::Identifier(Identifier::new("cmd1".to_string())),
            vec![Node::Identifier(Identifier::new("arg1".to_string()))],
        ))),
        Node::CommandStatement(Box::new(CommandStatement::new(
            Node::Identifier(Identifier::new("cmd2".to_string())),
            vec![Node::Identifier(Identifier::new("arg2".to_string()))],
        ))),
        Node::CommandStatement(Box::new(CommandStatement::new(
            Node::Identifier(Identifier::new("cmd3".to_string())),
            vec![Node::Identifier(Identifier::new("arg3".to_string()))],
        ))),
    ]));
    let result = Parse::parse_pipeline(input).unwrap().1;
    assert_eq!(result, expected);
}

#[test]
fn parse_redirect_input() {
    let input = " < file";
    let expected = Node::RedirectInput(Box::new(RedirectInput::new(Node::Identifier(
        Identifier::new("file".to_string()),
    ))));
    let result = Parse::parse_redirect_specifier(input).unwrap().1;
    assert_eq!(result, expected);

    let input = "cmd < file1 < file2";
    let expected = Node::Redirect(Box::new(Redirect::new(
        Node::CommandStatement(Box::new(CommandStatement::new(
            Node::Identifier(Identifier::new("cmd".to_string())),
            vec![],
        ))),
        vec![
            Node::RedirectInput(Box::new(RedirectInput::new(Node::Identifier(
                Identifier::new("file1".to_string()),
            )))),
            Node::RedirectInput(Box::new(RedirectInput::new(Node::Identifier(
                Identifier::new("file2".to_string()),
            )))),
        ],
    )));
    let result = Parse::parse_redirect(input).unwrap().1;
    assert_eq!(result, expected);
}

#[test]
fn parse_redirect_output() {
    let input = " > file";
    let expected = Node::RedirectOutput(Box::new(RedirectOutput::new(Node::Identifier(
        Identifier::new("file".to_string()),
    ))));
    let result = Parse::parse_redirect_specifier(input).unwrap().1;
    assert_eq!(result, expected);

    let input = "cmd > file1 > file2";
    let expected = Node::Redirect(Box::new(Redirect::new(
        Node::CommandStatement(Box::new(CommandStatement::new(
            Node::Identifier(Identifier::new("cmd".to_string())),
            vec![],
        ))),
        vec![
            Node::RedirectOutput(Box::new(RedirectOutput::new(Node::Identifier(
                Identifier::new("file1".to_string()),
            )))),
            Node::RedirectOutput(Box::new(RedirectOutput::new(Node::Identifier(
                Identifier::new("file2".to_string()),
            )))),
        ],
    )));
    let result = Parse::parse_redirect(input).unwrap().1;
    assert_eq!(result, expected);
}

#[test]
fn parse_redirect_combined() {
    let input = "cmd < input > output";
    let expected = Node::Redirect(Box::new(Redirect::new(
        Node::CommandStatement(Box::new(CommandStatement::new(
            Node::Identifier(Identifier::new("cmd".to_string())),
            vec![],
        ))),
        vec![
            Node::RedirectInput(Box::new(RedirectInput::new(Node::Identifier(
                Identifier::new("input".to_string()),
            )))),
            Node::RedirectOutput(Box::new(RedirectOutput::new(Node::Identifier(
                Identifier::new("output".to_string()),
            )))),
        ],
    )));
    let result = Parse::parse_redirect(input).unwrap().1;
    assert_eq!(result, expected);
}
#[test]
fn test_parse_complex_command() {
    let input = "echo \"Hello, World!\" > sorted.txt | cat sorted.txt";
    let expected = Node::CompoundStatement(CompoundStatement::new(vec![Node::Pipeline(
        Pipeline::new(vec![
            Node::Redirect(Box::new(Redirect::new(
                Node::CommandStatement(Box::new(CommandStatement::new(
                    Node::Identifier(Identifier::new("echo".to_string())),
                    vec![Node::Identifier(Identifier::new(
                        "Hello, World!".to_string(),
                    ))],
                ))),
                vec![Node::RedirectOutput(Box::new(RedirectOutput::new(
                    Node::Identifier(Identifier::new("sorted.txt".to_string())),
                )))],
            ))),
            Node::CommandStatement(Box::new(CommandStatement::new(
                Node::Identifier(Identifier::new("cat".to_string())),
                vec![Node::Identifier(Identifier::new("sorted.txt".to_string()))],
            ))),
        ]),
    )]));
    let result = Parse::parse_compound_statement(input).unwrap().1;
    assert_eq!(result, expected);
}

#[test]
fn test_parse_statement() {
    let input = "var=\"value\"";
    let expected = Node::Define(Box::new(Define::new(
        Node::Identifier(Identifier::new("var".to_string())),
        Node::Identifier(Identifier::new("value".to_string())),
    )));
    let result = Parse::parse_statement(input).unwrap().1;
    assert_eq!(result, expected);
}

#[test]
fn test_parse_compound_statement() {
    let input = "echo\ncommand";
    let expected = Node::CompoundStatement(CompoundStatement::new(vec![
        Node::CommandStatement(Box::new(CommandStatement::new(
            Node::Identifier(Identifier::new("echo".to_string())),
            vec![],
        ))),
        Node::CommandStatement(Box::new(CommandStatement::new(
            Node::Identifier(Identifier::new("command".to_string())),
            vec![],
        ))),
    ]));
    let result = Parse::parse_compound_statement(input).unwrap().1;
    assert_eq!(result, expected);

    let input = "echo arg1\ncommand arg1 arg2\n";
    let expected = Node::CompoundStatement(CompoundStatement::new(vec![
        Node::CommandStatement(Box::new(CommandStatement::new(
            Node::Identifier(Identifier::new("echo".to_string())),
            vec![Node::Identifier(Identifier::new("arg1".to_string()))],
        ))),
        Node::CommandStatement(Box::new(CommandStatement::new(
            Node::Identifier(Identifier::new("command".to_string())),
            vec![
                Node::Identifier(Identifier::new("arg1".to_string())),
                Node::Identifier(Identifier::new("arg2".to_string())),
            ],
        ))),
    ]));
    let result = Parse::parse_compound_statement(input).unwrap().1;
    assert_eq!(result, expected);

    let input = "echo arg1;command arg1 arg2;";
    let expected = Node::CompoundStatement(CompoundStatement::new(vec![
        Node::CommandStatement(Box::new(CommandStatement::new(
            Node::Identifier(Identifier::new("echo".to_string())),
            vec![Node::Identifier(Identifier::new("arg1".to_string()))],
        ))),
        Node::CommandStatement(Box::new(CommandStatement::new(
            Node::Identifier(Identifier::new("command".to_string())),
            vec![
                Node::Identifier(Identifier::new("arg1".to_string())),
                Node::Identifier(Identifier::new("arg2".to_string())),
            ],
        ))),
    ]));
    let result = Parse::parse_compound_statement(input).unwrap().1;
    assert_eq!(result, expected);

    let input = "var=\"value\"\ncommand arg1 arg2\n";
    let expected = Node::CompoundStatement(CompoundStatement::new(vec![
        Node::Define(Box::new(Define::new(
            Node::Identifier(Identifier::new("var".to_string())),
            Node::Identifier(Identifier::new("value".to_string())),
        ))),
        Node::CommandStatement(Box::new(CommandStatement::new(
            Node::Identifier(Identifier::new("command".to_string())),
            vec![
                Node::Identifier(Identifier::new("arg1".to_string())),
                Node::Identifier(Identifier::new("arg2".to_string())),
            ],
        ))),
    ]));
    let result = Parse::parse_compound_statement(input).unwrap().1;
    assert_eq!(result, expected);
}
