use agda_mode::json::{parse, Json};
use agda_mode::resp::{
    decode, decode_display_info, decode_goal_info, decode_json, DecodeError, DisplayInfo,
    GoalInfo, MakeCase, Resp, Status,
};

#[test]
fn simple_status_de() {
    let a = Status::default();
    let json = a.to_json_text();
    println!("{}", json);
}

#[test]
fn simple_make_case_de() {
    let a = Resp::MakeCase {
        variant: MakeCase::Function,
        clauses: vec!["f a = a".to_owned()],
        interaction_point: 233,
    };
    let json = a.to_json_text();
    println!("{}", json);
}

#[test]
fn simple_resp_status_de() {
    let a = Resp::Status {
        status: Default::default(),
    };
    let json = a.to_json_text();
    println!("{}", json);
}

#[test]
fn status_is_written_in_camel_case() {
    assert_eq!(
        Status::default().to_json_text(),
        "{\"showImplicitArguments\":false,\"checked\":false}"
    );
    let status = Status { show_implicit_arguments: true, checked: false };
    assert_eq!(
        Resp::Status { status }.to_json_text(),
        "{\"kind\":\"Status\",\"status\":{\"showImplicitArguments\":true,\"checked\":false}}"
    );
}

#[test]
fn make_case_is_written_with_its_kind_first() {
    let a = Resp::MakeCase {
        variant: MakeCase::Function,
        clauses: vec!["f a = a".to_owned()],
        interaction_point: 233,
    };
    assert_eq!(
        a.to_json_text(),
        "{\"kind\":\"MakeCase\",\"variant\":\"Function\",\"interactionPoint\":233,\
         \"clauses\":[\"f a = a\"]}"
    );
}

fn round_trip(resp: Resp) {
    let text = resp.to_json_text();
    assert_eq!(decode(&text), Ok(resp.clone()), "through {}", text);
    assert_eq!(decode_json(&resp.to_json()), Ok(resp));
}

#[test]
fn fully_modelled_responses_come_back_as_they_were() {
    round_trip(Resp::Status { status: Status { show_implicit_arguments: false, checked: true } });
    round_trip(Resp::Status { status: Status { show_implicit_arguments: true, checked: false } });
    round_trip(Resp::MakeCase {
        variant: MakeCase::ExtendedLambda,
        interaction_point: 0,
        clauses: vec!["f zero = ?".to_owned(), "f (suc \"n\") = \\ x -> ?".to_owned()],
    });
    round_trip(Resp::MakeCase {
        variant: MakeCase::Function,
        interaction_point: 4294967295,
        clauses: vec![],
    });
    round_trip(Resp::GiveAction { give_result: true, interaction_point: 7 });
    round_trip(Resp::GiveAction { give_result: false, interaction_point: 0 });
    round_trip(Resp::InteractionPoints { interaction_points: vec![] });
    round_trip(Resp::InteractionPoints { interaction_points: vec![5, 9, 0, 4294967295] });
}

#[test]
fn other_responses_come_back_as_they_were() {
    round_trip(Resp::HighlightingInfo { filepath: "/tmp/a b".to_owned(), direct: true });
    round_trip(Resp::JumpToError { filepath: "Main.agda".to_owned(), position: -2147483648 });
    round_trip(Resp::JumpToError { filepath: "Main.agda".to_owned(), position: 2147483647 });
    round_trip(Resp::SolveAll);
    round_trip(Resp::RunningInfo { debug_level: -1, message: "Checking \u{2115}\n".to_owned() });
    round_trip(Resp::ClearRunningInfo);
    round_trip(Resp::ClearHighlighting);
    round_trip(Resp::DoneAborting);
    for info in [
        DisplayInfo::CompilationOk { warnings: "w".to_owned(), errors: "".to_owned() },
        DisplayInfo::Constraints,
        DisplayInfo::AllGoalsWarnings { warnings: "".to_owned(), errors: "e".to_owned() },
        DisplayInfo::Time { time: "1s".to_owned() },
        DisplayInfo::Error { message: "Not in scope: x".to_owned() },
        DisplayInfo::IntroNotFound,
        DisplayInfo::IntroConstructorUnknown,
        DisplayInfo::Auto { info: "found".to_owned() },
        DisplayInfo::ModuleContents,
        DisplayInfo::SearchAbout { search: "Nat".to_owned() },
        DisplayInfo::WhyInScope,
        DisplayInfo::NormalForm,
        DisplayInfo::InferredType,
        DisplayInfo::Context { interaction_point: 3 },
        DisplayInfo::Version { version: "2.6.0.1".to_owned() },
        DisplayInfo::GoalSpecific {
            interaction_point: 0,
            goal_info: GoalInfo::CurrentGoal { the_type: "A -> B".to_owned() },
        },
    ] {
        round_trip(Resp::DisplayInfo { info });
    }
}

#[test]
fn lines_as_agda_writes_them() {
    assert_eq!(
        decode("{\"kind\":\"InteractionPoints\",\"interactionPoints\":[5,9]}"),
        Ok(Resp::InteractionPoints { interaction_points: vec![5, 9] })
    );
    assert_eq!(
        decode(" { \"interactionPoint\" : 1 , \"giveResult\" : true , \"kind\" : \"GiveAction\" } "),
        Ok(Resp::GiveAction { give_result: true, interaction_point: 1 })
    );
    assert_eq!(
        decode("{\"kind\":\"RunningInfo\",\"debugLevel\":1,\"message\":\"a\\n\\u03bb\"}"),
        Ok(Resp::RunningInfo { debug_level: 1, message: "a\n\u{3bb}".to_owned() })
    );
    assert_eq!(decode("{\"kind\":\"DoneAborting\"}"), Ok(Resp::DoneAborting));
    assert_eq!(decode("{\"kind\":\"ClearRunningInfo\"}"), Ok(Resp::ClearRunningInfo));
    assert_eq!(
        decode(
            "{\"kind\":\"DisplayInfo\",\"info\":{\"kind\":\"GoalSpecific\",\"interactionPoint\":0,\
             \"goalInfo\":{\"kind\":\"CurrentGoal\",\"theType\":\"A -> B\"}}}"
        ),
        Ok(Resp::DisplayInfo {
            info: DisplayInfo::GoalSpecific {
                interaction_point: 0,
                goal_info: GoalInfo::CurrentGoal { the_type: "A -> B".to_owned() },
            },
        })
    );
}

#[test]
fn constraints_with_no_further_fields_is_read() {
    let value = parse("{\"kind\":\"Constraints\"}").unwrap();
    assert_eq!(decode_display_info(&value), Ok(DisplayInfo::Constraints));
    assert_eq!(
        decode("{\"kind\":\"DisplayInfo\",\"info\":{\"kind\":\"Constraints\"}}"),
        Ok(Resp::DisplayInfo { info: DisplayInfo::Constraints })
    );
}

#[test]
fn kinds_that_are_not_modelled_yet_are_read_whatever_they_hold() {
    for (kind, info) in [
        ("Constraints", DisplayInfo::Constraints),
        ("ModuleContents", DisplayInfo::ModuleContents),
        ("WhyInScope", DisplayInfo::WhyInScope),
        ("NormalForm", DisplayInfo::NormalForm),
        ("InferredType", DisplayInfo::InferredType),
        ("IntroNotFound", DisplayInfo::IntroNotFound),
        ("IntroConstructorUnknown", DisplayInfo::IntroConstructorUnknown),
    ] {
        let line = format!(
            "{{\"kind\":\"DisplayInfo\",\"info\":{{\"kind\":\"{}\",\"more\":[1,{{\"x\":null}}]}}}}",
            kind
        );
        assert_eq!(decode(&line), Ok(Resp::DisplayInfo { info }));
    }
    assert_eq!(
        decode("{\"kind\":\"SolveAll\",\"solutions\":[{\"interactionPoint\":0,\"expression\":\"x\"}]}"),
        Ok(Resp::SolveAll)
    );
    assert_eq!(
        decode("{\"kind\":\"ClearHighlighting\",\"tokenBased\":\"NotOnlyTokenBased\"}"),
        Ok(Resp::ClearHighlighting)
    );
    assert_eq!(
        decode(
            "{\"kind\":\"DisplayInfo\",\"info\":{\"kind\":\"Context\",\"interactionPoint\":2,\
             \"context\":[]}}"
        ),
        Ok(Resp::DisplayInfo { info: DisplayInfo::Context { interaction_point: 2 } })
    );
    assert_eq!(
        decode(
            "{\"kind\":\"DisplayInfo\",\"info\":{\"kind\":\"SearchAbout\",\"search\":\"Nat\",\
             \"results\":[]}}"
        ),
        Ok(Resp::DisplayInfo { info: DisplayInfo::SearchAbout { search: "Nat".to_owned() } })
    );
}

#[test]
fn members_that_are_not_known_are_passed_over() {
    assert_eq!(
        decode("{\"extra\":1.5e3,\"kind\":\"Status\",\"status\":{\"checked\":true,\"x\":[],\"showImplicitArguments\":false}}"),
        Ok(Resp::Status { status: Status { show_implicit_arguments: false, checked: true } })
    );
}

#[test]
fn an_unknown_kind_is_an_error() {
    assert_eq!(decode("{\"kind\":\"Nonsense\"}"), Err(DecodeError::UnknownKind));
    assert_eq!(decode("{\"kind\":\"status\"}"), Err(DecodeError::UnknownKind));
    assert_eq!(decode("{\"kind\":\"\"}"), Err(DecodeError::UnknownKind));
    assert_eq!(
        decode("{\"kind\":\"Constraints\"}"),
        Err(DecodeError::UnknownKind),
        "a kind of display information is no kind of response"
    );
    assert_eq!(
        decode("{\"kind\":\"DisplayInfo\",\"info\":{\"kind\":\"Status\"}}"),
        Err(DecodeError::UnknownKind)
    );
    assert_eq!(
        decode(
            "{\"kind\":\"DisplayInfo\",\"info\":{\"kind\":\"GoalSpecific\",\"interactionPoint\":0,\
             \"goalInfo\":{\"kind\":\"Other\"}}}"
        ),
        Err(DecodeError::UnknownKind)
    );
}

#[test]
fn a_line_that_is_not_json_is_a_syntax_error() {
    assert_eq!(decode(""), Err(DecodeError::Syntax));
    assert_eq!(decode("JSON> "), Err(DecodeError::Syntax));
    assert_eq!(decode("{\"kind\":\"DoneAborting\""), Err(DecodeError::Syntax));
    assert_eq!(decode("{\"kind\":\"DoneAborting\"} x"), Err(DecodeError::Syntax));
    assert_eq!(decode("{kind:1}"), Err(DecodeError::Syntax));
}

#[test]
fn a_value_that_is_no_object_is_refused() {
    assert_eq!(decode("[1]"), Err(DecodeError::NotAnObject));
    assert_eq!(decode("\"Status\""), Err(DecodeError::NotAnObject));
    assert_eq!(decode("null"), Err(DecodeError::NotAnObject));
    assert_eq!(decode("12"), Err(DecodeError::NotAnObject));
    assert_eq!(
        decode("{\"kind\":\"DisplayInfo\",\"info\":\"Constraints\"}"),
        Err(DecodeError::NotAnObject)
    );
    assert_eq!(decode_json(&Json::Bool(true)), Err(DecodeError::NotAnObject));
    assert_eq!(decode_display_info(&Json::Null), Err(DecodeError::NotAnObject));
    assert_eq!(decode_goal_info(&Json::Array(vec![])), Err(DecodeError::NotAnObject));
}

#[test]
fn an_object_without_a_kind_is_refused() {
    assert_eq!(decode("{}"), Err(DecodeError::MissingKind));
    assert_eq!(decode("{\"Kind\":\"Status\"}"), Err(DecodeError::MissingKind));
    assert_eq!(decode("{\"kind\":1}"), Err(DecodeError::MissingKind));
    assert_eq!(decode("{\"kind\":null}"), Err(DecodeError::MissingKind));
    assert_eq!(
        decode("{\"kind\":\"DisplayInfo\",\"info\":{}}"),
        Err(DecodeError::MissingKind)
    );
}

#[test]
fn a_payload_of_the_wrong_form_is_refused() {
    assert_eq!(decode("{\"kind\":\"Status\"}"), Err(DecodeError::Malformed));
    assert_eq!(
        decode("{\"kind\":\"Status\",\"status\":{\"checked\":true}}"),
        Err(DecodeError::Malformed)
    );
    assert_eq!(
        decode("{\"kind\":\"Status\",\"status\":[true,false]}"),
        Err(DecodeError::Malformed)
    );
    assert_eq!(decode("{\"kind\":\"DisplayInfo\"}"), Err(DecodeError::Malformed));
    assert_eq!(
        decode("{\"kind\":\"GiveAction\",\"giveResult\":\"yes\",\"interactionPoint\":1}"),
        Err(DecodeError::Malformed)
    );
    assert_eq!(
        decode("{\"kind\":\"MakeCase\",\"variant\":\"Lambda\",\"interactionPoint\":1,\"clauses\":[]}"),
        Err(DecodeError::Malformed)
    );
    assert_eq!(
        decode("{\"kind\":\"MakeCase\",\"variant\":\"Function\",\"interactionPoint\":1,\"clauses\":[1]}"),
        Err(DecodeError::Malformed)
    );
    assert_eq!(
        decode("{\"kind\":\"HighlightingInfo\",\"filepath\":\"a\"}"),
        Err(DecodeError::Malformed)
    );
}

#[test]
fn numbers_have_to_fit_their_field() {
    assert_eq!(
        decode("{\"kind\":\"InteractionPoints\",\"interactionPoints\":[4294967295]}"),
        Ok(Resp::InteractionPoints { interaction_points: vec![4294967295] })
    );
    for bad in ["[4294967296]", "[-1]", "[1.0]", "[1e2]", "[\"1\"]", "[-0]", "1", "{}"] {
        let line = format!("{{\"kind\":\"InteractionPoints\",\"interactionPoints\":{}}}", bad);
        assert_eq!(decode(&line), Err(DecodeError::Malformed), "{}", line);
    }
    assert_eq!(
        decode("{\"kind\":\"JumpToError\",\"filepath\":\"a\",\"position\":-2147483648}"),
        Ok(Resp::JumpToError { filepath: "a".to_owned(), position: -2147483648 })
    );
    assert_eq!(
        decode("{\"kind\":\"JumpToError\",\"filepath\":\"a\",\"position\":2147483648}"),
        Err(DecodeError::Malformed)
    );
    assert_eq!(
        decode("{\"kind\":\"JumpToError\",\"filepath\":\"a\",\"position\":-2147483649}"),
        Err(DecodeError::Malformed)
    );
}

#[test]
fn all_goals_warnings_takes_null_for_its_goals() {
    assert_eq!(
        decode(
            "{\"kind\":\"DisplayInfo\",\"info\":{\"kind\":\"AllGoalsWarnings\",\"goals\":null,\
             \"warnings\":\"w\",\"errors\":\"\"}}"
        ),
        Ok(Resp::DisplayInfo {
            info: DisplayInfo::AllGoalsWarnings { warnings: "w".to_owned(), errors: "".to_owned() },
        })
    );
    assert_eq!(
        decode(
            "{\"kind\":\"DisplayInfo\",\"info\":{\"kind\":\"AllGoalsWarnings\",\
             \"warnings\":\"w\",\"errors\":\"\"}}"
        ),
        Err(DecodeError::Malformed)
    );
    assert_eq!(
        decode(
            "{\"kind\":\"DisplayInfo\",\"info\":{\"kind\":\"AllGoalsWarnings\",\"goals\":[],\
             \"warnings\":\"w\",\"errors\":\"\"}}"
        ),
        Err(DecodeError::Malformed)
    );
}

#[test]
fn the_first_member_of_a_name_counts() {
    let value = Json::Object(vec![
        ("kind".to_owned(), Json::Text("DoneAborting".to_owned())),
        ("kind".to_owned(), Json::Text("SolveAll".to_owned())),
    ]);
    assert_eq!(decode_json(&value), Ok(Resp::DoneAborting));
}

#[test]
fn make_case_names() {
    assert_eq!(MakeCase::Function.as_str(), "Function");
    assert_eq!(MakeCase::ExtendedLambda.as_str(), "ExtendedLambda");
}

#[test]
fn the_display_information_in_a_response() {
    let info = DisplayInfo::Version { version: "2.6".to_owned() };
    assert_eq!(Resp::DisplayInfo { info: info.clone() }.into_display_info(), Some(info));
    assert_eq!(Resp::DoneAborting.into_display_info(), None);
    assert_eq!(Resp::InteractionPoints { interaction_points: vec![1] }.into_display_info(), None);
    assert_eq!(
        Resp::Status { status: Status::default() }.into_display_info(),
        None
    );
}

#[test]
fn what_a_response_says_of_the_goals() {
    assert_eq!(
        Resp::InteractionPoints { interaction_points: vec![5, 9] }.into_goals(),
        Some(Ok(vec![5, 9]))
    );
    assert_eq!(
        Resp::InteractionPoints { interaction_points: vec![] }.into_goals(),
        Some(Ok(vec![]))
    );
    assert_eq!(
        Resp::DisplayInfo { info: DisplayInfo::Error { message: "no".to_owned() } }.into_goals(),
        Some(Err("no".to_owned()))
    );
    assert_eq!(Resp::DisplayInfo { info: DisplayInfo::Constraints }.into_goals(), None);
    assert_eq!(
        Resp::DisplayInfo {
            info: DisplayInfo::CompilationOk { warnings: "".to_owned(), errors: "e".to_owned() },
        }
        .into_goals(),
        None
    );
    assert_eq!(Resp::ClearRunningInfo.into_goals(), None);
}

#[test]
fn a_member_named_as_serde_json_names_raw_values_is_no_way_in() {
    let line = "{\"$serde_json::private::RawValue\":\"{\\\"kind\\\":\\\"DoneAborting\\\"}\"}";
    assert!(decode(line).is_err());
    let line = "{\"$serde_json::private::RawValue\":\"[1]\"}";
    assert!(decode(line).is_err());
    let line = "{\"$serde_json::private::RawValue\":\"x\",\"kind\":\"DoneAborting\"}";
    assert!(decode(line).is_err());
}

#[test]
fn of_two_kinds_in_one_line_the_last_counts() {
    assert_eq!(
        decode("{\"kind\":\"SolveAll\",\"kind\":\"DoneAborting\"}"),
        Ok(Resp::DoneAborting)
    );
}
