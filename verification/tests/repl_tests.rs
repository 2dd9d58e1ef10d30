use agda_mode::cmd::{Cmd, GoalInput};
use agda_mode::repl::{
    definition_lines, help, parse_input, plan, prompt, repl, trim, Input, Operation, ReadEvent,
    Turn,
};

#[test]
fn the_words_that_stand_alone() {
    assert_eq!(parse_input("help"), Input::Help);
    assert_eq!(parse_input("reload"), Input::Reload);
    assert_eq!(parse_input("exit"), Input::Exit);
    assert_eq!(parse_input("  reload \n"), Input::Reload);
    assert_eq!(parse_input("\texit\r\n"), Input::Exit);
}

#[test]
fn define_takes_one_name() {
    assert_eq!(parse_input("define f"), Input::Define("f".to_owned()));
    assert_eq!(parse_input("  define \t my-lemma\u{2081}  "), Input::Define("my-lemma\u{2081}".to_owned()));
    assert_eq!(parse_input("define"), Input::Unknown("define".to_owned()));
    assert_eq!(parse_input("define f g"), Input::Unknown("define f g".to_owned()));
}

#[test]
fn give_takes_a_goal_and_a_text() {
    assert_eq!(parse_input("give 0 zero"), Input::Give(0, "zero".to_owned()));
    assert_eq!(
        parse_input(" give  12   suc  (suc zero) \n"),
        Input::Give(12, "suc  (suc zero)".to_owned())
    );
    assert_eq!(parse_input("give 4294967295 x"), Input::Give(4294967295, "x".to_owned()));
    assert_eq!(parse_input("give 007 x"), Input::Give(7, "x".to_owned()));
}

#[test]
fn a_give_of_another_form_is_unknown() {
    assert_eq!(parse_input("give 4294967296 x"), Input::Unknown("give 4294967296 x".to_owned()));
    assert_eq!(parse_input("give"), Input::Unknown("give".to_owned()));
    assert_eq!(parse_input("give 1"), Input::Unknown("give 1".to_owned()));
    assert_eq!(parse_input("give 1 "), Input::Unknown("give 1".to_owned()));
    assert_eq!(parse_input("give x y"), Input::Unknown("give x y".to_owned()));
    assert_eq!(parse_input("give -1 y"), Input::Unknown("give -1 y".to_owned()));
    assert_eq!(parse_input("give ?1 y"), Input::Unknown("give ?1 y".to_owned()));
}

#[test]
fn anything_else_is_unknown() {
    assert_eq!(parse_input(""), Input::Unknown("".to_owned()));
    assert_eq!(parse_input("   "), Input::Unknown("".to_owned()));
    assert_eq!(parse_input("Help"), Input::Unknown("Help".to_owned()));
    assert_eq!(parse_input("help me"), Input::Unknown("help me".to_owned()));
    assert_eq!(parse_input("reload now"), Input::Unknown("reload now".to_owned()));
    assert_eq!(parse_input("exit 1"), Input::Unknown("exit 1".to_owned()));
    assert_eq!(parse_input("  load  Main.agda "), Input::Unknown("load  Main.agda".to_owned()));
    assert_eq!(parse_input("IOTCM \"x\" None Direct Cmd_abort"), Input::Unknown("IOTCM \"x\" None Direct Cmd_abort".to_owned()));
    assert_eq!(parse_input("ex\u{a0}it"), Input::Unknown("ex\u{a0}it".to_owned()));
}

#[test]
fn white_space_at_the_ends_is_left_off() {
    assert_eq!(trim(" \t a b \r\n"), vec!['a', ' ', 'b']);
    assert_eq!(trim("a"), vec!['a']);
    assert_eq!(trim(" \n"), Vec::<char>::new());
    assert_eq!(trim(""), Vec::<char>::new());
    assert_eq!(trim("\u{c}\u{b}a\u{a0}b\u{85}\u{3000}"), vec!['a', '\u{a0}', 'b']);
    assert_eq!(trim("\u{2028}\u{2029}\u{1680}\u{202f}\u{205f}"), Vec::<char>::new());
    assert_eq!(trim("\u{200b}"), vec!['\u{200b}']);
    assert_eq!(trim("\u{feff}x"), vec!['\u{feff}', 'x']);
}

fn as_trim_leaves_it(text: &str) {
    let ours: String = trim(text).into_iter().collect();
    assert_eq!(ours, text.trim(), "{:?}", text);
}

#[test]
fn a_line_is_trimmed_as_std_trims_it() {
    for text in [
        "",
        " ",
        "help",
        "  help \n",
        "help\u{c}",
        "\u{a0}reload",
        "\u{2003}give 1 a\u{2009}b\u{2003}",
        "\u{1c}x\u{1f}",
        "\u{180e}x",
        "a \u{3000} b",
        "\r\n\t \u{b}\u{c}\u{85}",
    ] {
        as_trim_leaves_it(text);
    }
}

#[test]
fn white_space_is_what_std_takes_for_it() {
    let mut count = 0;
    for code in 0u32..=0x10ffff {
        if let Some(c) = char::from_u32(code) {
            let alone = c.to_string();
            assert_eq!(trim(&alone).is_empty(), c.is_whitespace(), "U+{:04X}", code);
            if c.is_whitespace() {
                count += 1;
                let text = format!("{}a{}b{}", c, c, c);
                assert_eq!(trim(&text), vec!['a', c, 'b'], "U+{:04X}", code);
            }
        }
    }
    assert_eq!(count, 25);
}

#[test]
fn white_space_of_any_kind_around_a_command() {
    assert_eq!(parse_input("help\u{c}"), Input::Help);
    assert_eq!(parse_input("help\u{a0}"), Input::Help);
    assert_eq!(parse_input("\u{c}reload"), Input::Reload);
    assert_eq!(parse_input("\u{a0}reload\u{2028}"), Input::Reload);
    assert_eq!(parse_input("exit\u{a0}"), Input::Exit);
    assert_eq!(parse_input("\u{3000}define f\u{85}"), Input::Define("f".to_owned()));
    assert_eq!(parse_input("\u{b}give 3 x y\u{2009}"), Input::Give(3, "x y".to_owned()));
    assert_eq!(
        parse_input("\u{a0}what\u{a0}now\u{a0}"),
        Input::Unknown("what\u{a0}now".to_owned())
    );
}

#[test]
fn help_after_trimming_shows_the_help() {
    for text in ["help", "  help \n", "help\u{c}", "\u{a0}help\u{a0}", "\thelp\r\n"] {
        match repl(ReadEvent::Line(text.to_owned())) {
            Turn::Run(p) => {
                assert_eq!(p.operations, vec![Operation::ShowHelp], "{:?}", text);
                assert!(!p.leave);
            }
            other => panic!("{:?}", other),
        }
    }
}

#[test]
fn what_is_done_for_each_input() {
    let p = plan(Input::Help);
    assert_eq!(p.operations, vec![Operation::ShowHelp]);
    assert!(!p.leave);
    let p = plan(Input::Define("f".to_owned()));
    assert_eq!(
        p.operations,
        vec![Operation::AppendDefinition("f".to_owned()), Operation::Reload]
    );
    assert!(!p.leave);
    let p = plan(Input::Give(3, "x".to_owned()));
    assert_eq!(
        p.operations,
        vec![
            Operation::Send(Cmd::give(GoalInput::no_range(3, "x".to_owned()))),
            Operation::Reload,
        ]
    );
    assert!(!p.leave);
    let p = plan(Input::Reload);
    assert_eq!(p.operations, vec![Operation::Reload]);
    assert!(!p.leave);
    let p = plan(Input::Exit);
    assert_eq!(p.operations, vec![Operation::Send(Cmd::Abort), Operation::Shutdown]);
    assert!(p.leave);
    let p = plan(Input::Unknown("what".to_owned()));
    assert_eq!(p.operations, vec![Operation::Report("what".to_owned())]);
    assert!(!p.leave);
}

#[test]
fn a_line_is_read_and_planned() {
    let p = agda_mode::repl::line(" give 233 a ");
    match &p.operations[0] {
        Operation::Send(command) => {
            assert_eq!(command.encode(), "( Cmd_give WithoutForce (233 noRange \"a\") )")
        }
        other => panic!("{:?}", other),
    }
    assert_eq!(p.operations[1], Operation::Reload);
    assert_eq!(p.operations.len(), 2);
    assert!(!p.leave);
    let p = agda_mode::repl::line("exit");
    assert!(p.leave);
    let p = agda_mode::repl::line("Cmd_abort");
    assert_eq!(p.operations, vec![Operation::Report("Cmd_abort".to_owned())]);
}

#[test]
fn unknown_input_is_never_sent() {
    for text in ["", "abort", "give", "give x 1", "define a b", "( Cmd_load \"x\" [] )"] {
        let p = agda_mode::repl::line(text);
        assert!(!p.leave);
        assert_eq!(p.operations.len(), 1);
        assert!(matches!(p.operations[0], Operation::Report(_)));
    }
}

#[test]
fn what_the_loop_does_after_reading() {
    assert_eq!(repl(ReadEvent::Interrupted), Turn::Again);
    assert_eq!(repl(ReadEvent::Eof), Turn::Leave("Interrupted by Ctrl-d".to_owned()));
    assert_eq!(
        repl(ReadEvent::Failed("Io(broken pipe)".to_owned())),
        Turn::Leave("Error: Io(broken pipe)".to_owned())
    );
    match repl(ReadEvent::Line(" help ".to_owned())) {
        Turn::Run(p) => {
            assert_eq!(p.operations, vec![Operation::ShowHelp]);
            assert!(!p.leave);
        }
        other => panic!("{:?}", other),
    }
    match repl(ReadEvent::Line("exit".to_owned())) {
        Turn::Run(p) => assert!(p.leave),
        other => panic!("{:?}", other),
    }
}

#[test]
fn a_definition_is_two_lines() {
    assert_eq!(definition_lines("f"), vec!["f : ?".to_owned(), "f = ?".to_owned()]);
    assert_eq!(definition_lines(""), vec![" : ?".to_owned(), " = ?".to_owned()]);
}

#[test]
fn prompts_and_help() {
    assert_eq!(prompt(true), "> ");
    assert_eq!(prompt(false), "\u{3bb}> ");
    assert_eq!(help(true), "You're in the plain REPL (with `--plain` flag).");
    assert!(help(false).starts_with("You're in the normal REPL, where there's completion"));
    assert!(help(false).ends_with("(restart agda-tac with `--plain` flag)."));
    assert_eq!(help(false).lines().count(), 3);
}
