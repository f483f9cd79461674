use rsh::evaluator::{Action, Evaluator};
use rsh::history::History;
use rsh::rsh::{has_prefix, mode_string, Buffer, Direction, Mode, Prompt, Rsh};

fn words(list: &[&str]) -> Vec<String> {
    list.iter().map(|w| w.to_string()).collect()
}

fn session() -> Rsh {
    let mut rsh = Rsh::new();
    rsh.history_database = vec![
        History::new("git status".to_string(), "t1".to_string()),
        History::new("ls".to_string(), "t2".to_string()),
        History::new("git push".to_string(), "t3".to_string()),
    ];
    rsh.command_database = words(&["gcc", "git", "grep", "ls"]);
    rsh
}

#[test]
fn new_session_is_empty() {
    let rsh = Rsh::new();
    assert_eq!(rsh.buffer.buffer, "");
    assert!(rsh.env_database.is_empty());
    assert!(rsh.history_database.is_empty());
    assert!(rsh.command_database.is_empty());
    assert_eq!(rsh.return_code, 0);
    assert!(!rsh.exists_rshenv);
    assert_eq!(rsh.now_mode, Mode::Nomal);
    assert_eq!(rsh.cursor_x, 0);
    assert_eq!(rsh.char_count, 0);
    assert_eq!(rsh.prompt.get_pwd(), "/");
    assert_eq!(rsh.prompt.get_utils(), " [0: N] > ");
    assert!(rsh.prompt.get_username().ends_with(' '));
    assert_eq!(Buffer::new().buffer, "");
}

#[test]
fn prompt_parts() {
    let prompt = Prompt::new("me".to_string(), words(&["a", "b", "c"]), -3, Mode::Visual);
    assert_eq!(prompt.get_username(), "me ");
    assert_eq!(prompt.get_pwd(), "cba///");
    assert_eq!(prompt.get_utils(), " [-3: V] > ");
    assert_eq!(prompt.len(), 3 + 6 + 11);
    let prompt = Prompt::new("é".to_string(), Vec::new(), 12, Mode::Input);
    assert_eq!(prompt.get_username(), "é ");
    assert_eq!(prompt.get_pwd(), "");
    assert_eq!(prompt.get_utils(), " [12: I] > ");
    assert_eq!(prompt.len(), 3 + 0 + 11);
}

#[test]
fn mode_letters() {
    assert_eq!(mode_string(Mode::Nomal), "N");
    assert_eq!(mode_string(Mode::Input), "I");
    assert_eq!(mode_string(Mode::Visual), "V");
    let mut rsh = Rsh::new();
    assert_eq!(rsh.get_mode_string(), "N");
    rsh.set_mode(Mode::Input);
    assert_eq!(rsh.get_mode_string(), "I");
    assert_eq!(rsh.now_mode, Mode::Input);
    rsh.return_code = 2;
    rsh.refresh_prompt(words(&["x"]));
    assert_eq!(rsh.prompt.get_pwd(), "x/");
    assert_eq!(rsh.prompt.get_utils(), " [2: I] > ");
}

#[test]
fn line_splits_at_spaces_outside_quotes() {
    let rsh = Rsh::new();
    assert_eq!(rsh.rsh_split_line("echo a b".to_string()), words(&["echo", "a", "b"]));
    assert_eq!(
        rsh.rsh_split_line("git commit -m \"fix: a b\" now".to_string()),
        words(&["git", "commit", "-m", "\"fix: a b\"", "now"])
    );
    assert_eq!(rsh.rsh_split_line(String::new()), words(&[""]));
    assert_eq!(rsh.rsh_split_line(" ".to_string()), words(&["", ""]));
    assert_eq!(rsh.rsh_split_line("a  b ".to_string()), words(&["a", "", "b", ""]));
    assert_eq!(rsh.rsh_split_line("a \"b c".to_string()), words(&["a", "\"b c"]));
    assert_eq!(rsh.rsh_split_line("\"a b\"c d".to_string()), words(&["\"a b\"c", "d"]));
}

#[test]
fn prefix_test() {
    let word: Vec<char> = "git".chars().collect();
    assert!(has_prefix(&word, &"gi".chars().collect()));
    assert!(has_prefix(&word, &"git".chars().collect()));
    assert!(has_prefix(&word, &Vec::new()));
    assert!(!has_prefix(&word, &"gitx".chars().collect()));
    assert!(!has_prefix(&word, &"gx".chars().collect()));
}

#[test]
fn completions_history_first() {
    let rsh = session();
    assert_eq!(
        rsh.rsh_get_command_database("gi".to_string()),
        words(&["git status", "git push", "git"])
    );
    assert_eq!(
        rsh.rsh_get_command_database(String::new()),
        words(&["git status", "ls", "git push", "gcc", "git", "grep", "ls"])
    );
    assert!(rsh.rsh_get_command_database("zz".to_string()).is_empty());
}

#[test]
fn filtered_commands_latest_history_first() {
    let rsh = session();
    assert_eq!(
        rsh.get_filterd_commands("g".to_string()),
        words(&["git push", "git status", "gcc", "git", "grep"])
    );
    assert_eq!(rsh.get_filterd_commands("l".to_string()), words(&["ls", "ls"]));
}

#[test]
fn search_walks_the_completions() {
    let rsh = session();
    let mut counter = 0;
    assert_eq!(rsh.rsh_char_search("gi".to_string(), &mut counter).unwrap(), "git status");
    assert_eq!(counter, 0);
    counter = 2;
    assert_eq!(rsh.rsh_char_search("gi".to_string(), &mut counter).unwrap(), "git");
    assert_eq!(counter, 2);
    counter = 3;
    assert_eq!(rsh.rsh_char_search("gi".to_string(), &mut counter).unwrap(), "git");
    assert_eq!(counter, 2);
    counter = 40;
    assert_eq!(rsh.rsh_char_search("gi".to_string(), &mut counter).unwrap(), "git");
    assert_eq!(counter, 2);
    counter = 5;
    assert_eq!(
        rsh.rsh_char_search("zz".to_string(), &mut counter).unwrap_err().message,
        "No command found"
    );
    assert_eq!(counter, 5);
}

#[test]
fn selection_is_cut_out() {
    let mut rsh = Rsh::new();
    rsh.buffer.buffer = "abcdéfg".to_string();
    rsh.char_count = 4;
    assert_eq!(rsh.get_string_at_cursor(2), "abfg");
    assert_eq!(rsh.get_string_at_cursor(4), "abcdfg");
    assert_eq!(rsh.get_string_at_cursor(6), "abcd");
    assert_eq!(rsh.get_string_at_cursor(0), "fg");
    assert_eq!(rsh.get_string_at_cursor(usize::MAX), "abcd");
    rsh.char_count = 10;
    assert_eq!(rsh.get_string_at_cursor(12), "abcdéfg");
    assert_eq!(rsh.get_string_at_cursor(3), "abc");
}

#[test]
fn cursor_column_counts_wide_characters_twice() {
    let mut rsh = Rsh::new();
    let base = rsh.prompt.len();
    rsh.buffer.buffer = "a日b".to_string();
    rsh.char_count = 0;
    assert_eq!(rsh.cursor_column(), base);
    rsh.char_count = 1;
    assert_eq!(rsh.cursor_column(), base + 1);
    rsh.char_count = 2;
    assert_eq!(rsh.cursor_column(), base + 3);
    rsh.char_count = 3;
    assert_eq!(rsh.cursor_column(), base + 4);
    rsh.char_count = 9;
    assert_eq!(rsh.cursor_column(), base + 4);
}

#[test]
fn profile_path() {
    let rsh = Rsh::new();
    assert_eq!(rsh.open_profile("/home/me", ".rsh_history"), "/home/me/.rsh_history");
}

#[test]
fn shown_directory_components() {
    let rsh = Rsh::new();
    assert_eq!(
        rsh.get_current_dir_as_vec(words(&["/", "home", "me", "src", "rsh"])),
        words(&["src", "rsh"])
    );
    assert!(rsh.get_current_dir_as_vec(words(&["/", "home", "me"])).is_empty());
    assert_eq!(rsh.get_current_dir_as_vec(words(&["/", "tmp"])), words(&["/", "tmp"]));
}

#[test]
fn history_file_is_taken_over() {
    let mut rsh = Rsh::new();
    rsh.get_rshhistory_contents("ls,t1\nbad line\necho x,t2\n");
    let records = rsh.get_history_database();
    assert_eq!(
        records,
        vec![
            History::new("ls".to_string(), "t1".to_string()),
            History::new("echo x".to_string(), "t2".to_string()),
        ]
    );
}

#[test]
fn submitted_line_is_recorded_and_queued() {
    let mut rsh = Rsh::new();
    let mut evaluator = Evaluator::new();
    let mut line = "echo hi".to_string();
    let done = rsh.execute_commands(&mut evaluator, &mut line);
    assert_eq!(done.code, 0);
    assert_eq!(line, "");
    assert_eq!(done.record, format!("echo hi,{}\n", done.time));
    assert_eq!(done.time.len(), 19);
    match evaluator.next() {
        Action::Run(request) => assert_eq!(request.stages, vec![words(&["echo", "hi"])]),
        other => panic!("{:?}", other),
    }
    let mut line = "| nothing".to_string();
    let done = rsh.execute_commands(&mut evaluator, &mut line);
    assert_eq!(done.code, 1);
    assert_eq!(line, "");
    assert!(done.record.starts_with("| nothing,"));
    assert!(matches!(evaluator.next(), Action::Done));
}

#[test]
fn colour_codes() {
    let rsh = Rsh::new();
    assert_eq!(rsh.set_prompt_color("#AC6683".to_string()).unwrap(), (0xAC, 0x66, 0x83));
    assert_eq!(rsh.set_prompt_color("#000000".to_string()).unwrap(), (0, 0, 0));
    assert_eq!(rsh.set_prompt_color("#ffFFfF".to_string()).unwrap(), (255, 255, 255));
    assert_eq!(rsh.set_prompt_color("#+a+0+F".to_string()).unwrap(), (10, 0, 15));
    for (code, message) in [
        ("", "Invalid color code"),
        ("#12345", "Invalid color code"),
        ("#1234567", "Invalid color code"),
        ("1234567", "Invalid color code"),
        ("#éé12", "Invalid red value"),
        ("#g00000", "Invalid red value"),
        ("#-10000", "Invalid red value"),
        ("#0+0000", "Invalid red value"),
        ("#00 000", "Invalid green value"),
        ("#00++00", "Invalid green value"),
        ("#0000x0", "Invalid blue value"),
        ("#00000é", "Invalid color code"),
    ] {
        assert_eq!(
            rsh.set_prompt_color(code.to_string()).unwrap_err().message,
            message,
            "{:?}",
            code
        );
    }
    for n in 0..=255u8 {
        let code = format!("#{:02x}{:02X}00", n, n);
        assert_eq!(rsh.set_prompt_color(code).unwrap(), (n, n, 0));
    }
}

#[test]
fn environment_file_is_taken_over_line_by_line() {
    let mut rsh = Rsh::new();
    rsh.get_rshenv_contents("/usr/bin\r\n/bin\n\n/opt/x");
    assert_eq!(rsh.env_database, words(&["/usr/bin", "/bin", "", "/opt/x"]));
    assert!(rsh.exists_rshenv);
    rsh.get_rshenv_contents("");
    assert!(rsh.env_database.is_empty());
    for text in ["a\nb\n", "\n", "a\r", "\r\n\r\n", "x\ny", "é\n\n\nz\r\n"] {
        rsh.get_rshenv_contents(text);
        let expected: Vec<String> = text.lines().map(|l| l.to_string()).collect();
        assert_eq!(rsh.env_database, expected, "{:?}", text);
    }
}

fn line(rsh: &Rsh) -> (String, usize, usize) {
    (rsh.buffer.buffer.clone(), rsh.char_count, rsh.cursor_x)
}

#[test]
fn line_is_set_with_the_cursor_behind_it() {
    let mut rsh = Rsh::new();
    rsh.set_buffer("a日b".to_string());
    assert_eq!(line(&rsh), ("a日b".to_string(), 3, 5));
    rsh.set_buffer(String::new());
    assert_eq!(line(&rsh), (String::new(), 0, 0));
}

#[test]
fn typing_puts_characters_at_the_cursor() {
    let mut rsh = Rsh::new();
    rsh.insert('a');
    rsh.insert('日');
    rsh.insert('c');
    assert_eq!(line(&rsh), ("a日c".to_string(), 3, 5));
    rsh.char_count = 1;
    rsh.cursor_x = 1;
    rsh.insert('é');
    assert_eq!(line(&rsh), ("aé日c".to_string(), 2, 3));
    rsh.char_count = 0;
    rsh.insert(' ');
    assert_eq!(line(&rsh), (" aé日c".to_string(), 1, 1));
    rsh.char_count = 99;
    rsh.insert('!');
    assert_eq!(line(&rsh), (" aé日c!".to_string(), 6, 9));
}

#[test]
fn rubbing_out_takes_the_character_before_the_cursor() {
    let mut rsh = Rsh::new();
    rsh.set_buffer("ab日c".to_string());
    rsh.backspace();
    assert_eq!(line(&rsh), ("ab日".to_string(), 3, 5));
    rsh.backspace();
    assert_eq!(line(&rsh), ("ab".to_string(), 2, 2));
    rsh.char_count = 1;
    rsh.cursor_x = 1;
    rsh.backspace();
    assert_eq!(line(&rsh), ("b".to_string(), 0, 0));
    rsh.backspace();
    assert_eq!(line(&rsh), ("b".to_string(), 0, 0));
    rsh.char_count = 5;
    rsh.cursor_x = 1;
    rsh.backspace();
    assert_eq!(line(&rsh), ("b".to_string(), 5, 1));
}

#[test]
fn rubbing_out_goes_by_the_clusters_it_is_given() {
    let mut rsh = Rsh::new();
    rsh.set_buffer("xé日".to_string());
    rsh.backspace_with(words(&["x", "é", "日"]));
    assert_eq!(line(&rsh), ("xé".to_string(), 2, 3));
    rsh.set_buffer("xé日".to_string());
    rsh.backspace_with(words(&["xé", "日"]));
    assert_eq!(line(&rsh), ("xé日".to_string(), 2, 3));
    rsh.set_buffer("xé日".to_string());
    rsh.backspace_with(words(&["p", "q", "r", "s"]));
    assert_eq!(line(&rsh), ("pqs".to_string(), 2, 2));
    rsh.set_buffer("日a".to_string());
    rsh.backspace_with(Vec::new());
    assert_eq!(line(&rsh), ("日".to_string(), 1, 3));
}

#[test]
fn rubbing_out_a_cluster_of_several_characters() {
    let mut rsh = Rsh::new();
    rsh.set_buffer("e\u{301}x日".to_string());
    rsh.char_count = 2;
    rsh.backspace();
    assert_eq!(line(&rsh), ("e\u{301}日".to_string(), 1, 1));
    rsh.set_buffer("e\u{301}x日".to_string());
    rsh.backspace();
    assert_eq!(line(&rsh), ("e\u{301}x日".to_string(), 3, 4));
}

#[test]
fn cursor_goes_left_over_the_line() {
    let mut rsh = Rsh::new();
    rsh.set_buffer("a日".to_string());
    let mut range = String::new();
    assert_eq!(rsh.move_cursor_left(Direction::Left, &mut range), 2);
    assert_eq!(line(&rsh), ("a日".to_string(), 1, 1));
    assert_eq!(range, "日");
    assert_eq!(rsh.move_cursor_left(Direction::Left, &mut range), 0);
    assert_eq!(line(&rsh), ("a日".to_string(), 0, 0));
    assert_eq!(range, "日a");
    assert_eq!(rsh.move_cursor_left(Direction::Left, &mut range), 0);
    assert_eq!(line(&rsh), ("a日".to_string(), 0, 0));
    assert_eq!(range, "日a");
    rsh.set_buffer("ab".to_string());
    assert_eq!(rsh.move_cursor_left(Direction::Right, &mut range), 0);
    assert_eq!(range, "日");
    assert_eq!(rsh.move_cursor_left(Direction::Unset, &mut range), 0);
    assert_eq!(range, "日");
    assert_eq!(line(&rsh), ("ab".to_string(), 0, 0));
    let mut empty = String::new();
    rsh.set_buffer("ab".to_string());
    assert_eq!(rsh.move_cursor_left(Direction::Right, &mut empty), 0);
    assert_eq!(empty, "");
}

#[test]
fn cursor_goes_right_over_the_line() {
    let mut rsh = Rsh::new();
    rsh.set_buffer("a日".to_string());
    rsh.char_count = 0;
    rsh.cursor_x = 0;
    let mut range = String::new();
    assert_eq!(rsh.move_cursor_right(Direction::Right, &mut range), 1);
    assert_eq!(line(&rsh), ("a日".to_string(), 1, 1));
    assert_eq!(range, "");
    rsh.now_mode = Mode::Visual;
    assert_eq!(rsh.move_cursor_right(Direction::Right, &mut range), 3);
    assert_eq!(line(&rsh), ("a日".to_string(), 2, 4));
    assert_eq!(range, "日");
    assert_eq!(rsh.move_cursor_right(Direction::Right, &mut range), 0);
    assert_eq!(line(&rsh), ("a日".to_string(), 2, 4));
    rsh.char_count = 0;
    rsh.cursor_x = 0;
    assert_eq!(rsh.move_cursor_right(Direction::Left, &mut range), 1);
    assert_eq!(range, "");
    assert_eq!(rsh.move_cursor_right(Direction::Unset, &mut range), 3);
    assert_eq!(range, "");
}

#[test]
fn walking_through_the_history() {
    let mut rsh = session();
    rsh.history_database.push(History::new("make".to_string(), "t4".to_string()));
    rsh.set_buffer("typed".to_string());
    let mut cursor = rsh.history_cursor();
    assert_eq!((cursor.index, cursor.referenced), (4, false));
    rsh.history_up(&mut cursor);
    assert_eq!(line(&rsh), ("make".to_string(), 4, 4));
    assert_eq!((cursor.index, cursor.referenced, cursor.saved.as_str()), (3, true, "typed"));
    rsh.history_up(&mut cursor);
    assert_eq!(rsh.buffer.buffer, "git push");
    rsh.history_up(&mut cursor);
    assert_eq!(rsh.buffer.buffer, "ls");
    assert_eq!(cursor.index, 1);
    rsh.history_down(&mut cursor);
    assert_eq!(rsh.buffer.buffer, "ls");
    assert_eq!(cursor.index, 1);
    rsh.history_up(&mut cursor);
    assert_eq!(rsh.buffer.buffer, "git status");
    rsh.history_up(&mut cursor);
    assert_eq!(rsh.buffer.buffer, "git status");
    assert_eq!((cursor.index, cursor.saved.as_str()), (0, "typed"));
    cursor.index = 2;
    rsh.history_down(&mut cursor);
    assert_eq!(rsh.buffer.buffer, "make");
    assert_eq!((cursor.index, cursor.referenced), (3, true));
    rsh.history_down(&mut cursor);
    assert_eq!(line(&rsh), ("typed".to_string(), 5, 5));
    assert_eq!((cursor.index, cursor.referenced), (3, false));
}

#[test]
fn walking_through_an_empty_history() {
    let mut rsh = Rsh::new();
    rsh.set_buffer("x".to_string());
    let mut cursor = rsh.history_cursor();
    rsh.history_up(&mut cursor);
    rsh.history_down(&mut cursor);
    assert_eq!(line(&rsh), ("x".to_string(), 1, 1));
    assert_eq!((cursor.index, cursor.referenced, cursor.saved.as_str()), (0, false, "x"));
}

#[test]
fn tab_walks_the_completions() {
    let mut rsh = session();
    rsh.set_buffer("gi".to_string());
    let typed = "gi".to_string();
    let mut counter = 0;
    rsh.complete(&typed, &mut counter);
    assert_eq!(line(&rsh), ("git status".to_string(), 10, 10));
    assert_eq!(counter, 1);
    rsh.complete(&typed, &mut counter);
    assert_eq!(rsh.buffer.buffer, "git push");
    rsh.complete(&typed, &mut counter);
    assert_eq!(rsh.buffer.buffer, "git");
    assert_eq!(counter, 3);
    rsh.complete(&typed, &mut counter);
    assert_eq!(rsh.buffer.buffer, "git");
    assert_eq!(counter, 3);
    let nothing = "zz".to_string();
    rsh.set_buffer("zz".to_string());
    rsh.char_count = 0;
    rsh.cursor_x = 0;
    rsh.complete(&nothing, &mut counter);
    assert_eq!(line(&rsh), ("zz".to_string(), 2, 2));
    assert_eq!(counter, 4);
    counter = usize::MAX;
    rsh.complete(&nothing, &mut counter);
    assert_eq!(counter, usize::MAX);
}

#[test]
fn completions_fall_back_on_the_environment_file() {
    let mut rsh = session();
    rsh.set_buffer("g".to_string());
    assert_eq!(
        rsh.completions(),
        words(&["git push", "git status", "gcc", "git", "grep"])
    );
    rsh.set_buffer("zz".to_string());
    assert!(rsh.completions().is_empty());
    rsh.env_database = words(&["/usr/bin", "zz"]);
    assert_eq!(rsh.completions(), words(&["gcc", "git", "grep", "ls"]));
    rsh.env_database = words(&["zz", "/usr/bin"]);
    assert!(rsh.completions().is_empty());
    rsh.set_buffer("/".to_string());
    rsh.env_database = words(&["x", ""]);
    assert_eq!(rsh.completions(), words(&["gcc", "git", "grep", "ls"]));
}

#[test]
fn suffix_of_a_completion() {
    let mut rsh = Rsh::new();
    rsh.set_buffer("gi".to_string());
    assert_eq!(rsh.completion_suffix(&"git status".to_string()), "t status");
    assert_eq!(rsh.completion_suffix(&"gi".to_string()), "");
    assert_eq!(rsh.completion_suffix(&"g".to_string()), "");
    rsh.set_buffer("日".to_string());
    assert_eq!(rsh.completion_suffix(&"日本語".to_string()), "本語");
}
