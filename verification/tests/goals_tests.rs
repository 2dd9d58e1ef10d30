use agda_mode::cmd::{Cmd, GoalInput};
use agda_mode::goals::{Goals, Next, Reload, Report};
use agda_mode::resp::{DisplayInfo, GoalInfo, Resp, Status};

fn points(ids: Vec<u32>) -> Resp {
    Resp::InteractionPoints { interaction_points: ids }
}

fn goal_type(id: u32, the_type: &str) -> Resp {
    Resp::DisplayInfo {
        info: DisplayInfo::GoalSpecific {
            interaction_point: id,
            goal_info: GoalInfo::CurrentGoal { the_type: the_type.to_owned() },
        },
    }
}

fn chatter() -> Vec<Resp> {
    vec![
        Resp::Status { status: Status::default() },
        Resp::ClearRunningInfo,
        Resp::RunningInfo { debug_level: 1, message: "Checking".to_owned() },
        Resp::DisplayInfo { info: DisplayInfo::Version { version: "2.6".to_owned() } },
        Resp::HighlightingInfo { filepath: "/tmp/x".to_owned(), direct: false },
    ]
}

/// Hands the responses to a reload, one after another, and collects what it
/// writes and how it ends.
fn drive(file: &str, resps: Vec<Resp>) -> (Vec<Cmd>, Option<Report>) {
    let (mut reload, first) = Reload::start(file);
    let mut sent = vec![first];
    for resp in resps {
        match reload.step(resp) {
            Next::Send(next, command) => {
                sent.push(command);
                reload = next;
            }
            Next::Read(next) => reload = next,
            Next::Done(report) => return (sent, Some(report)),
        }
    }
    (sent, None)
}

#[test]
fn a_reload_starts_with_the_load() {
    let (_, first) = Reload::start("Main.agda");
    assert_eq!(first, Cmd::load_simple("Main.agda".to_owned()));
    assert_eq!(first.encode(), "( Cmd_load \"Main.agda\" [] )");
}

#[test]
fn no_interaction_points_means_no_goals_and_no_queries() {
    let mut resps = chatter();
    resps.push(points(vec![]));
    let (sent, report) = drive("Main.agda", resps);
    assert_eq!(sent, vec![Cmd::load_simple("Main.agda".to_owned())]);
    assert_eq!(report, Some(Report::NoGoals));
    let lines = Report::NoGoals.lines();
    assert_eq!(lines, vec!["Goals:".to_owned(), "No goals.".to_owned()]);
    assert!(!Report::NoGoals.is_failure());
}

#[test]
fn two_interaction_points_mean_two_queries_in_that_order() {
    let mut resps = chatter();
    resps.push(points(vec![5, 9]));
    resps.extend(chatter());
    resps.push(goal_type(5, "Nat"));
    resps.extend(chatter());
    resps.push(goal_type(9, "Nat -> Nat"));
    let (sent, report) = drive("Main.agda", resps);
    assert_eq!(
        sent,
        vec![
            Cmd::load_simple("Main.agda".to_owned()),
            Cmd::goal_type(GoalInput::simple(5)),
            Cmd::goal_type(GoalInput::simple(9)),
        ]
    );
    assert_eq!(
        report,
        Some(Report::Goals(vec![(5, "Nat".to_owned()), (9, "Nat -> Nat".to_owned())]))
    );
}

#[test]
fn the_second_query_waits_for_the_first_answer() {
    let (reload, _) = Reload::start("Main.agda");
    let reload = match reload.step(points(vec![5, 9])) {
        Next::Send(next, command) => {
            assert_eq!(command, Cmd::goal_type(GoalInput::simple(5)));
            next
        }
        other => panic!("{:?}", other),
    };
    let mut reload = reload;
    for resp in chatter() {
        reload = match reload.step(resp) {
            Next::Read(next) => next,
            other => panic!("{:?}", other),
        };
    }
    reload = match reload.step(points(vec![1, 2, 3])) {
        Next::Read(next) => next,
        other => panic!("{:?}", other),
    };
    reload = match reload.step(goal_type(5, "A")) {
        Next::Send(next, command) => {
            assert_eq!(command, Cmd::goal_type(GoalInput::simple(9)));
            next
        }
        other => panic!("{:?}", other),
    };
    match reload.step(goal_type(9, "B")) {
        Next::Done(report) => {
            assert_eq!(report, Report::Goals(vec![(5, "A".to_owned()), (9, "B".to_owned())]))
        }
        other => panic!("{:?}", other),
    }
}

#[test]
fn the_order_of_the_list_is_kept() {
    let resps = vec![
        points(vec![9, 5, 7]),
        goal_type(9, "a"),
        goal_type(5, "b"),
        goal_type(7, "c"),
    ];
    let (sent, report) = drive("Main.agda", resps);
    assert_eq!(
        sent[1..],
        [
            Cmd::goal_type(GoalInput::simple(9)),
            Cmd::goal_type(GoalInput::simple(5)),
            Cmd::goal_type(GoalInput::simple(7)),
        ]
    );
    assert_eq!(
        report,
        Some(Report::Goals(vec![
            (9, "a".to_owned()),
            (5, "b".to_owned()),
            (7, "c".to_owned()),
        ]))
    );
}

#[test]
fn an_answer_is_taken_for_the_open_question() {
    let resps = vec![points(vec![5, 9]), goal_type(9, "first"), goal_type(5, "second")];
    let (_, report) = drive("Main.agda", resps);
    assert_eq!(
        report,
        Some(Report::Goals(vec![(5, "first".to_owned()), (9, "second".to_owned())]))
    );
}

#[test]
fn an_error_ends_the_reload_without_queries() {
    let mut resps = chatter();
    resps.push(Resp::DisplayInfo {
        info: DisplayInfo::Error { message: "Main.agda:3,1-2\nNot in scope: x".to_owned() },
    });
    resps.push(points(vec![1]));
    let (sent, report) = drive("Main.agda", resps);
    assert_eq!(sent.len(), 1);
    let report = report.unwrap();
    assert_eq!(report, Report::Failed("Main.agda:3,1-2\nNot in scope: x".to_owned()));
    assert!(report.is_failure());
    assert_eq!(
        report.lines(),
        vec!["Errors:".to_owned(), "Main.agda:3,1-2\nNot in scope: x".to_owned()]
    );
}

#[test]
fn an_error_while_asking_is_passed_over() {
    let resps = vec![
        points(vec![1]),
        Resp::DisplayInfo { info: DisplayInfo::Error { message: "e".to_owned() } },
        goal_type(1, "T"),
    ];
    let (sent, report) = drive("Main.agda", resps);
    assert_eq!(sent.len(), 2);
    assert_eq!(report, Some(Report::Goals(vec![(1, "T".to_owned())])));
}

#[test]
fn a_reload_that_is_not_answered_does_not_end() {
    let (sent, report) = drive("Main.agda", chatter());
    assert_eq!(sent.len(), 1);
    assert_eq!(report, None);
    let (sent, report) = drive("Main.agda", vec![points(vec![3, 4]), goal_type(3, "x")]);
    assert_eq!(sent.len(), 3);
    assert_eq!(report, None);
}

#[test]
fn load_with_one_goal_end_to_end() {
    let lines = [
        "{\"kind\":\"Status\",\"status\":{\"showImplicitArguments\":false,\"checked\":true}}",
        "{\"kind\":\"InteractionPoints\",\"interactionPoints\":[0]}",
        "{\"kind\":\"DisplayInfo\",\"info\":{\"kind\":\"GoalSpecific\",\"interactionPoint\":0,\
         \"goalInfo\":{\"kind\":\"CurrentGoal\",\"theType\":\"A -> B\"}}}",
    ];
    let resps: Vec<Resp> = lines.iter().map(|line| agda_mode::resp::decode(line).unwrap()).collect();
    assert_eq!(
        resps[2],
        Resp::DisplayInfo {
            info: DisplayInfo::GoalSpecific {
                interaction_point: 0,
                goal_info: GoalInfo::CurrentGoal { the_type: "A -> B".to_owned() },
            },
        }
    );
    let (sent, report) = drive("Main.agda", resps);
    assert_eq!(
        sent,
        vec![Cmd::load_simple("Main.agda".to_owned()), Cmd::goal_type(GoalInput::simple(0))]
    );
    let report = report.unwrap();
    assert_eq!(report.lines(), vec!["Goals:".to_owned(), "?0: A -> B".to_owned()]);
    assert!(!report.is_failure());
}

#[test]
fn goals_are_shown_one_per_line() {
    let report = Report::Goals(vec![(5, "Nat".to_owned()), (4294967295, "".to_owned())]);
    assert_eq!(
        report.lines(),
        vec!["Goals:".to_owned(), "?5: Nat".to_owned(), "?4294967295: ".to_owned()]
    );
}

#[test]
fn the_goals_of_a_reload_replace_those_before() {
    let mut goals = Goals::new();
    assert!(goals.ids().is_empty());
    assert!(!goals.contains(0));
    goals.replace(&Report::Goals(vec![(5, "A".to_owned()), (9, "B".to_owned())]));
    assert_eq!(goals.ids(), &vec![5, 9]);
    assert!(goals.contains(5));
    assert!(goals.contains(9));
    assert!(!goals.contains(7));
    goals.replace(&Report::Goals(vec![(7, "C".to_owned())]));
    assert_eq!(goals.ids(), &vec![7]);
    assert!(!goals.contains(5));
    assert!(goals.contains(7));
    goals.replace(&Report::NoGoals);
    assert!(goals.ids().is_empty());
    goals.replace(&Report::Goals(vec![(1, "".to_owned())]));
    goals.replace(&Report::Failed("no".to_owned()));
    assert!(goals.ids().is_empty());
    assert!(!goals.contains(1));
}
