use agda_mode::base::{ComputeMode, Remove, Rewrite, UseForce};
use agda_mode::cmd::{
    Cmd, GoalInput, HighlightingLevel, HighlightingMethod, Position, Range, IOTCM,
};

fn goal(id: u32, code: &str) -> GoalInput {
    GoalInput::no_range(id, code.to_owned())
}

#[test]
fn give_renders_as_documented() {
    let command = Cmd::give(GoalInput::no_range(233, "a".to_owned()));
    assert_eq!(command.encode(), "( Cmd_give WithoutForce (233 noRange \"a\") )");
    let command = Cmd::give(GoalInput::no_range(233, "term".to_owned()));
    assert_eq!(command.encode(), "( Cmd_give WithoutForce (233 noRange \"term\") )");
}

#[test]
fn load_renders_as_documented() {
    let command = Cmd::load_simple("path.agda".to_owned());
    assert_eq!(command.encode(), "( Cmd_load \"path.agda\" [] )");
}

#[test]
fn abort_renders_as_documented() {
    assert_eq!(Cmd::Abort.encode(), "Cmd_abort");
}

#[test]
fn encoding_twice_gives_the_same_text() {
    let command = Cmd::Compile {
        backend: "GHC".to_owned(),
        path: "Main.agda".to_owned(),
        flags: vec!["--safe".to_owned(), "-v".to_owned()],
    };
    let again = command.clone();
    assert_eq!(command.encode(), again.encode());
    assert_eq!(command.encode(), command.encode());
}

#[test]
fn flags_are_a_list_of_literals() {
    let command = Cmd::Load {
        path: "Main.agda".to_owned(),
        flags: vec!["--safe".to_owned()],
    };
    assert_eq!(command.encode(), "( Cmd_load \"Main.agda\" [\"--safe\"] )");
    let command = Cmd::Compile {
        backend: "GHC".to_owned(),
        path: "Main.agda".to_owned(),
        flags: vec!["--safe".to_owned(), "-v".to_owned(), "".to_owned()],
    };
    assert_eq!(
        command.encode(),
        "( Cmd_compile \"GHC\" \"Main.agda\" [\"--safe\", \"-v\", \"\"] )"
    );
}

#[test]
fn commands_without_arguments_are_bare_words() {
    assert_eq!(Cmd::Constraints.encode(), "Cmd_constraints");
    assert_eq!(Cmd::Metas.encode(), "Cmd_metas");
    assert_eq!(Cmd::AutoAll.encode(), "Cmd_autoAll");
}

#[test]
fn toplevel_commands() {
    let command = Cmd::ShowModuleContentsToplevel {
        rewrite: Rewrite::Normalised,
        search: "Data.Nat".to_owned(),
    };
    assert_eq!(
        command.encode(),
        "( Cmd_show_module_contents_toplevel Normalised \"Data.Nat\" )"
    );
    let command = Cmd::SolveAll { rewrite: Rewrite::AsIs };
    assert_eq!(command.encode(), "( Cmd_solveAll AsIs )");
    let command = Cmd::InferToplevel { rewrite: Rewrite::HeadNormal, code: "suc zero".to_owned() };
    assert_eq!(command.encode(), "( Cmd_infer_toplevel HeadNormal \"suc zero\" )");
    let command = Cmd::ComputeToplevel {
        rewrite: ComputeMode::UseShowInstance,
        code: "1 + 1".to_owned(),
    };
    assert_eq!(command.encode(), "( Cmd_compute_toplevel UseShowInstance \"1 + 1\" )");
    let command = Cmd::TokenHighlighting { path: "/tmp/hl".to_owned(), remove: Remove::Keep };
    assert_eq!(command.encode(), "( Cmd_tokenHighlighting \"/tmp/hl\" Keep )");
    let command = Cmd::TokenHighlighting { path: "/tmp/hl".to_owned(), remove: Remove::Remove };
    assert_eq!(command.encode(), "( Cmd_tokenHighlighting \"/tmp/hl\" Remove )");
}

#[test]
fn goal_commands() {
    let command = Cmd::SolveOne { rewrite: Rewrite::Simplified, input: goal(1, "") };
    assert_eq!(command.encode(), "( Cmd_solveOne Simplified (1 noRange \"\") )");
    let command = Cmd::AutoOne { input: goal(2, "-l") };
    assert_eq!(command.encode(), "( Cmd_autoOne (2 noRange \"-l\") )");
    let command = Cmd::Give { force: UseForce::WithForce, input: goal(3, "x") };
    assert_eq!(command.encode(), "( Cmd_give WithForce (3 noRange \"x\") )");
    let command = Cmd::Refine { input: goal(4, "f") };
    assert_eq!(command.encode(), "( Cmd_refine (4 noRange \"f\") )");
    let command = Cmd::Intro { pattern_matching: true, input: goal(5, "") };
    assert_eq!(command.encode(), "( Cmd_intro True (5 noRange \"\") )");
    let command = Cmd::Intro { pattern_matching: false, input: goal(5, "") };
    assert_eq!(command.encode(), "( Cmd_intro False (5 noRange \"\") )");
    let command = Cmd::Context { rewrite: Rewrite::Normalised, input: goal(6, "") };
    assert_eq!(command.encode(), "( Cmd_context Normalised (6 noRange \"\") )");
    let command = Cmd::Infer { rewrite: Rewrite::AsIs, input: goal(7, "x") };
    assert_eq!(command.encode(), "( Cmd_infer AsIs (7 noRange \"x\") )");
    let command = Cmd::Compute { mode: ComputeMode::IgnoreAbstract, input: goal(8, "x") };
    assert_eq!(command.encode(), "( Cmd_compute IgnoreAbstract (8 noRange \"x\") )");
    let command = Cmd::Compute { mode: ComputeMode::DefaultCompute, input: goal(8, "x") };
    assert_eq!(command.encode(), "( Cmd_compute DefaultCompute (8 noRange \"x\") )");
}

#[test]
fn goal_queries_take_the_default_rewrite() {
    let command = Cmd::goal_type(GoalInput::simple(0));
    assert_eq!(command.encode(), "( Cmd_goal_type Instantiated (0 noRange \"\") )");
    let command = Cmd::context(GoalInput::simple(4294967295));
    assert_eq!(command.encode(), "( Cmd_context Instantiated (4294967295 noRange \"\") )");
    assert_eq!(
        Cmd::goal_type(GoalInput::simple(9)),
        Cmd::GoalType { rewrite: Rewrite::Instantiated, input: goal(9, "") }
    );
    assert_eq!(
        Cmd::give(goal(9, "x")),
        Cmd::Give { force: UseForce::WithoutForce, input: goal(9, "x") }
    );
}

#[test]
fn strings_are_quoted_and_escaped() {
    let input = goal(0, "say \"hi\"\\\n\tdone\r");
    assert_eq!(input.encode(), "(0 noRange \"say \\\"hi\\\"\\\\\\n\\tdone\\r\")");
}

#[test]
fn characters_outside_ascii_stay_as_they_are() {
    let input = goal(12, "\u{03bb} x \u{2192} x");
    assert_eq!(input.encode(), "(12 noRange \"\u{03bb} x \u{2192} x\")");
}

#[test]
fn a_range_names_the_file_and_both_ends() {
    let range = Range::Range {
        file: "/home/me/Main.agda".to_owned(),
        start: Position { offset: 50, line: 4, column: 7 },
        end: Position { offset: 52, line: 4, column: 9 },
    };
    let input = GoalInput::new(1, range.clone(), "zero".to_owned());
    assert_eq!(input.id, 1);
    assert_eq!(input.range, range);
    assert_eq!(input.code, "zero");
    assert_eq!(
        input.encode(),
        "(1 (intervalsToRange (Just (mkAbsolute \"/home/me/Main.agda\")) \
         [Interval (Pn () 50 4 7) (Pn () 52 4 9)]) \"zero\")"
    );
}

#[test]
fn positions_are_passed_on_as_given() {
    let mut out = String::from("at ");
    Position { offset: 0, line: 0, column: 0 }.encode_into(&mut out);
    assert_eq!(out, "at (Pn () 0 0 0)");
    let mut out = String::new();
    Position { offset: 4294967295, line: 10, column: 100 }.encode_into(&mut out);
    assert_eq!(out, "(Pn () 4294967295 10 100)");
    let mut out = String::from("r=");
    Range::NoRange.encode_into(&mut out);
    assert_eq!(out, "r=noRange");
}

#[test]
fn encode_into_appends() {
    let mut out = String::from("> ");
    Cmd::Abort.encode_into(&mut out);
    assert_eq!(out, "> Cmd_abort");
    goal(1, "x").encode_into(&mut out);
    assert_eq!(out, "> Cmd_abort(1 noRange \"x\")");
}

#[test]
fn the_envelope_names_file_and_highlighting() {
    let envelope = IOTCM::new(
        HighlightingLevel::NonInteractive,
        "Main.agda".to_owned(),
        HighlightingMethod::Direct,
        Cmd::load_simple("Main.agda".to_owned()),
    );
    assert_eq!(
        envelope.encode(),
        "IOTCM \"Main.agda\" NonInteractive Direct ( Cmd_load \"Main.agda\" [] )"
    );
    let envelope = IOTCM::new(
        HighlightingLevel::Interactive,
        "a b.agda".to_owned(),
        HighlightingMethod::Indirect,
        Cmd::Abort,
    );
    assert_eq!(envelope.encode(), "IOTCM \"a b.agda\" Interactive Indirect Cmd_abort");
    let envelope = IOTCM::new(
        HighlightingLevel::Off,
        "x.agda".to_owned(),
        HighlightingMethod::Direct,
        Cmd::Metas,
    );
    assert_eq!(envelope.encode(), "IOTCM \"x.agda\" None Direct Cmd_metas");
}

#[test]
fn new_keeps_what_it_is_given() {
    let envelope = IOTCM::new(
        HighlightingLevel::Interactive,
        "Main.agda".to_owned(),
        HighlightingMethod::Indirect,
        Cmd::Metas,
    );
    assert_eq!(envelope.level, HighlightingLevel::Interactive);
    assert_eq!(envelope.file, "Main.agda");
    assert_eq!(envelope.method, HighlightingMethod::Indirect);
    assert_eq!(envelope.command, Cmd::Metas);
}

#[test]
fn the_simple_envelope_takes_the_defaults() {
    let envelope = IOTCM::simple("Main.agda".to_owned(), Cmd::Constraints);
    assert_eq!(envelope.level, HighlightingLevel::NonInteractive);
    assert_eq!(envelope.method, HighlightingMethod::Direct);
    assert_eq!(envelope.level, HighlightingLevel::default());
    assert_eq!(envelope.method, HighlightingMethod::default());
    assert_eq!(envelope.encode(), "IOTCM \"Main.agda\" NonInteractive Direct Cmd_constraints");
}

#[test]
fn modifiers_are_spelled_as_their_constructors() {
    assert_eq!(Rewrite::AsIs.as_str(), "AsIs");
    assert_eq!(Rewrite::Instantiated.as_str(), "Instantiated");
    assert_eq!(Rewrite::HeadNormal.as_str(), "HeadNormal");
    assert_eq!(Rewrite::Simplified.as_str(), "Simplified");
    assert_eq!(Rewrite::Normalised.as_str(), "Normalised");
    assert_eq!(ComputeMode::DefaultCompute.as_str(), "DefaultCompute");
    assert_eq!(ComputeMode::IgnoreAbstract.as_str(), "IgnoreAbstract");
    assert_eq!(ComputeMode::UseShowInstance.as_str(), "UseShowInstance");
    assert_eq!(UseForce::WithForce.as_str(), "WithForce");
    assert_eq!(UseForce::WithoutForce.as_str(), "WithoutForce");
    assert_eq!(Remove::Remove.as_str(), "Remove");
    assert_eq!(Remove::Keep.as_str(), "Keep");
    assert_eq!(HighlightingLevel::Off.as_str(), "None");
    assert_eq!(HighlightingLevel::NonInteractive.as_str(), "NonInteractive");
    assert_eq!(HighlightingLevel::Interactive.as_str(), "Interactive");
    assert_eq!(HighlightingMethod::Direct.as_str(), "Direct");
    assert_eq!(HighlightingMethod::Indirect.as_str(), "Indirect");
}

#[test]
fn an_encoded_command_is_one_line() {
    let nasty = "a\nb\r\n\"c\"\\n".to_owned();
    let commands = vec![
        Cmd::Load { path: nasty.clone(), flags: vec![nasty.clone(), "\n".to_owned()] },
        Cmd::Compile { backend: nasty.clone(), path: nasty.clone(), flags: vec![nasty.clone()] },
        Cmd::ShowModuleContentsToplevel { rewrite: Rewrite::AsIs, search: nasty.clone() },
        Cmd::InferToplevel { rewrite: Rewrite::AsIs, code: nasty.clone() },
        Cmd::TokenHighlighting { path: nasty.clone(), remove: Remove::Keep },
        Cmd::Give {
            force: UseForce::WithForce,
            input: GoalInput::new(
                1,
                Range::Range {
                    file: nasty.clone(),
                    start: Position { offset: 1, line: 1, column: 1 },
                    end: Position { offset: 2, line: 2, column: 1 },
                },
                nasty.clone(),
            ),
        },
    ];
    for command in commands {
        assert!(!command.encode().contains('\n'), "{:?}", command);
        let envelope = IOTCM::simple(nasty.clone(), command);
        assert!(!envelope.encode().contains('\n'));
    }
    assert_eq!(
        Cmd::InferToplevel { rewrite: Rewrite::AsIs, code: "a\nb".to_owned() }.encode(),
        "( Cmd_infer_toplevel AsIs \"a\\nb\" )"
    );
}
