//! What holds of decoding whatever the response: a response that was
//! written as JSON is read back as it was, an unknown kind is never taken
//! for a known one, and members that are not known do no harm.

use crate::json::{
    i32_of, member, member_text, number_items, parsed, text_items, texts_of, u32_of, u32s_of,
    JsonValue, MAX_DEPTH,
};
use crate::resp::{
    decoded, decoded_display_info, decoded_goal_info, decoded_line, decoded_status,
    display_info_json,
    goal_info_json, integer_json, make_case_name, resp_json, status_json, tagged, DecodeError,
    DisplayInfoView, GoalInfoView, MakeCase, RespView, Status,
};
use crate::text::lemma_integer_value_of_integer;
use vstd::prelude::*;

verus! {

/// Looking a name up after one more member was added at the end: the
/// earlier members come first, the new one counts where none of them has
/// the name.
pub proof fn lemma_member_push(
    members: Seq<(Seq<char>, JsonValue)>,
    name: Seq<char>,
    value: JsonValue,
    wanted: Seq<char>,
)
    ensures
        member(members.push((name, value)), wanted) == (if member(members, wanted) is Some {
            member(members, wanted)
        } else if name == wanted {
            Some(value)
        } else {
            None
        }),
    decreases members.len(),
{
    let longer = members.push((name, value));
    if members.len() == 0 {
        assert(longer.drop_first() =~= members);
    } else {
        assert(longer[0] == members[0]);
        assert(longer.drop_first() =~= members.drop_first().push((name, value)));
        lemma_member_push(members.drop_first(), name, value, wanted);
    }
}

/// What is found in an object that holds its kind and nothing else.
pub proof fn lemma_members_0(kind: Seq<char>, wanted: Seq<char>)
    ensures
        member(tagged(kind), wanted) == (if wanted == "kind"@ {
            Some(JsonValue::Text(kind))
        } else {
            None
        }),
{
    lemma_member_push(Seq::empty(), "kind"@, JsonValue::Text(kind), wanted);
}

/// What is found in an object that holds its kind and one member more.
pub proof fn lemma_members_1(kind: Seq<char>, n1: Seq<char>, v1: JsonValue, wanted: Seq<char>)
    ensures
        member(tagged(kind).push((n1, v1)), wanted) == (if wanted == "kind"@ {
            Some(JsonValue::Text(kind))
        } else if wanted == n1 {
            Some(v1)
        } else {
            None
        }),
{
    lemma_members_0(kind, wanted);
    lemma_member_push(tagged(kind), n1, v1, wanted);
}

/// What is found in an object that holds its kind and two members more.
pub proof fn lemma_members_2(
    kind: Seq<char>,
    n1: Seq<char>,
    v1: JsonValue,
    n2: Seq<char>,
    v2: JsonValue,
    wanted: Seq<char>,
)
    ensures
        member(tagged(kind).push((n1, v1)).push((n2, v2)), wanted) == (if wanted == "kind"@ {
            Some(JsonValue::Text(kind))
        } else if wanted == n1 {
            Some(v1)
        } else if wanted == n2 {
            Some(v2)
        } else {
            None
        }),
{
    lemma_members_1(kind, n1, v1, wanted);
    lemma_member_push(tagged(kind).push((n1, v1)), n2, v2, wanted);
}

/// What is found in an object that holds its kind and three members more.
pub proof fn lemma_members_3(
    kind: Seq<char>,
    n1: Seq<char>,
    v1: JsonValue,
    n2: Seq<char>,
    v2: JsonValue,
    n3: Seq<char>,
    v3: JsonValue,
    wanted: Seq<char>,
)
    ensures
        member(tagged(kind).push((n1, v1)).push((n2, v2)).push((n3, v3)), wanted) == (if wanted
            == "kind"@ {
            Some(JsonValue::Text(kind))
        } else if wanted == n1 {
            Some(v1)
        } else if wanted == n2 {
            Some(v2)
        } else if wanted == n3 {
            Some(v3)
        } else {
            None
        }),
{
    lemma_members_2(kind, n1, v1, n2, v2, wanted);
    lemma_member_push(tagged(kind).push((n1, v1)).push((n2, v2)), n3, v3, wanted);
}

/// A number that fits `u32` is read back from its numeral.
pub proof fn lemma_u32_round_trip(n: u32)
    ensures
        u32_of(integer_json(n as int)) == Some(n),
{
    lemma_integer_value_of_integer(n as int);
}

/// A number that fits `i32` is read back from its numeral.
pub proof fn lemma_i32_round_trip(n: i32)
    ensures
        i32_of(integer_json(n as int)) == Some(n),
{
    lemma_integer_value_of_integer(n as int);
}

/// A list of numbers is read back from the array of their numerals.
pub proof fn lemma_u32s_round_trip(items: Seq<u32>)
    ensures
        u32s_of(JsonValue::Array(number_items(items))) == Some(items),
{
    let values = number_items(items);
    assert forall|i: int| 0 <= i < values.len() implies (#[trigger] u32_of(values[i])) == Some(
        items[i],
    ) by {
        lemma_u32_round_trip(items[i]);
    }
    assert(u32s_of(JsonValue::Array(values)).unwrap() =~= items);
}

/// A list of strings is read back from the array of them.
pub proof fn lemma_texts_round_trip(items: Seq<Seq<char>>)
    ensures
        texts_of(JsonValue::Array(text_items(items))) == Some(items),
{
    let values = text_items(items);
    assert(texts_of(JsonValue::Array(values)).unwrap() =~= items);
}

/// Whether `s` has `len` characters, of which `first` is the first. The
/// names of the kinds of one type differ in one of the two, and so do the
/// names of the members of one kind.
pub open spec fn starts(s: Seq<char>, len: nat, first: char) -> bool {
    s.len() == len && s[0] == first
}

/// How the names of the kinds of responses start.
pub proof fn lemma_resp_kinds()
    ensures
        starts("HighlightingInfo"@, 16, 'H'),
        starts("Status"@, 6, 'S'),
        starts("JumpToError"@, 11, 'J'),
        starts("InteractionPoints"@, 17, 'I'),
        starts("GiveAction"@, 10, 'G'),
        starts("MakeCase"@, 8, 'M'),
        starts("SolveAll"@, 8, 'S'),
        starts("DisplayInfo"@, 11, 'D'),
        starts("RunningInfo"@, 11, 'R'),
        starts("ClearRunningInfo"@, 16, 'C'),
        starts("ClearHighlighting"@, 17, 'C'),
        starts("DoneAborting"@, 12, 'D'),
{
    reveal_strlit("HighlightingInfo");
    reveal_strlit("Status");
    reveal_strlit("JumpToError");
    reveal_strlit("InteractionPoints");
    reveal_strlit("GiveAction");
    reveal_strlit("MakeCase");
    reveal_strlit("SolveAll");
    reveal_strlit("DisplayInfo");
    reveal_strlit("RunningInfo");
    reveal_strlit("ClearRunningInfo");
    reveal_strlit("ClearHighlighting");
    reveal_strlit("DoneAborting");
}

/// How the names of the kinds of display information start.
pub proof fn lemma_display_info_kinds()
    ensures
        starts("CompilationOk"@, 13, 'C'),
        starts("Constraints"@, 11, 'C'),
        starts("AllGoalsWarnings"@, 16, 'A'),
        starts("Time"@, 4, 'T'),
        starts("Error"@, 5, 'E'),
        starts("IntroNotFound"@, 13, 'I'),
        starts("IntroConstructorUnknown"@, 23, 'I'),
        starts("Auto"@, 4, 'A'),
        starts("ModuleContents"@, 14, 'M'),
        starts("SearchAbout"@, 11, 'S'),
        starts("WhyInScope"@, 10, 'W'),
        starts("NormalForm"@, 10, 'N'),
        starts("InferredType"@, 12, 'I'),
        starts("Context"@, 7, 'C'),
        starts("Version"@, 7, 'V'),
        starts("GoalSpecific"@, 12, 'G'),
{
    reveal_strlit("CompilationOk");
    reveal_strlit("Constraints");
    reveal_strlit("AllGoalsWarnings");
    reveal_strlit("Time");
    reveal_strlit("Error");
    reveal_strlit("IntroNotFound");
    reveal_strlit("IntroConstructorUnknown");
    reveal_strlit("Auto");
    reveal_strlit("ModuleContents");
    reveal_strlit("SearchAbout");
    reveal_strlit("WhyInScope");
    reveal_strlit("NormalForm");
    reveal_strlit("InferredType");
    reveal_strlit("Context");
    reveal_strlit("Version");
    reveal_strlit("GoalSpecific");
}

/// How the names of members, and of what is nested in responses, start.
pub proof fn lemma_member_names()
    ensures
        starts("kind"@, 4, 'k'),
        starts("filepath"@, 8, 'f'),
        starts("direct"@, 6, 'd'),
        starts("status"@, 6, 's'),
        starts("position"@, 8, 'p'),
        starts("interactionPoints"@, 17, 'i'),
        starts("giveResult"@, 10, 'g'),
        starts("interactionPoint"@, 16, 'i'),
        starts("variant"@, 7, 'v'),
        starts("clauses"@, 7, 'c'),
        starts("info"@, 4, 'i'),
        starts("debugLevel"@, 10, 'd'),
        starts("message"@, 7, 'm'),
        starts("showImplicitArguments"@, 21, 's'),
        starts("checked"@, 7, 'c'),
        starts("warnings"@, 8, 'w'),
        starts("errors"@, 6, 'e'),
        starts("goals"@, 5, 'g'),
        starts("time"@, 4, 't'),
        starts("search"@, 6, 's'),
        starts("version"@, 7, 'v'),
        starts("goalInfo"@, 8, 'g'),
        starts("theType"@, 7, 't'),
        starts("Function"@, 8, 'F'),
        starts("ExtendedLambda"@, 14, 'E'),
        starts("CurrentGoal"@, 11, 'C'),
{
    reveal_strlit("kind");
    reveal_strlit("filepath");
    reveal_strlit("direct");
    reveal_strlit("status");
    reveal_strlit("position");
    reveal_strlit("interactionPoints");
    reveal_strlit("giveResult");
    reveal_strlit("interactionPoint");
    reveal_strlit("variant");
    reveal_strlit("clauses");
    reveal_strlit("info");
    reveal_strlit("debugLevel");
    reveal_strlit("message");
    reveal_strlit("showImplicitArguments");
    reveal_strlit("checked");
    reveal_strlit("warnings");
    reveal_strlit("errors");
    reveal_strlit("goals");
    reveal_strlit("time");
    reveal_strlit("search");
    reveal_strlit("version");
    reveal_strlit("goalInfo");
    reveal_strlit("theType");
    reveal_strlit("Function");
    reveal_strlit("ExtendedLambda");
    reveal_strlit("CurrentGoal");
}

/// A status that was written as JSON is read back as it was.
pub proof fn lemma_status_round_trip(status: Status)
    ensures
        decoded_status(status_json(status)) == Some(status),
{
    lemma_member_names();
    let first = ("showImplicitArguments"@, JsonValue::Bool(status.show_implicit_arguments));
    let one = Seq::<(Seq<char>, JsonValue)>::empty().push(first);
    let second = JsonValue::Bool(status.checked);
    lemma_member_push(Seq::empty(), first.0, first.1, "showImplicitArguments"@);
    lemma_member_push(Seq::empty(), first.0, first.1, "checked"@);
    lemma_member_push(one, "checked"@, second, "showImplicitArguments"@);
    lemma_member_push(one, "checked"@, second, "checked"@);
}

/// A goal information that was written as JSON is read back as it was.
pub proof fn lemma_goal_info_round_trip(info: GoalInfoView)
    ensures
        decoded_goal_info(goal_info_json(info)) == Ok::<GoalInfoView, DecodeError>(info),
{
    lemma_member_names();
    match info {
        GoalInfoView::CurrentGoal { the_type } => {
            lemma_members_1("CurrentGoal"@, "theType"@, JsonValue::Text(the_type), "kind"@);
            lemma_members_1("CurrentGoal"@, "theType"@, JsonValue::Text(the_type), "theType"@);
        },
    }
}

/// A display information that was written as JSON is read back as it was.
pub proof fn lemma_display_info_round_trip(info: DisplayInfoView)
    ensures
        decoded_display_info(display_info_json(info)) == Ok::<DisplayInfoView, DecodeError>(info),
{
    lemma_member_names();
    lemma_display_info_kinds();
    match info {
        DisplayInfoView::CompilationOk { warnings, errors } => {
            lemma_members_2("CompilationOk"@, "warnings"@, JsonValue::Text(warnings), "errors"@, JsonValue::Text(errors), "kind"@);
            lemma_members_2("CompilationOk"@, "warnings"@, JsonValue::Text(warnings), "errors"@, JsonValue::Text(errors), "warnings"@);
            lemma_members_2("CompilationOk"@, "warnings"@, JsonValue::Text(warnings), "errors"@, JsonValue::Text(errors), "errors"@);
        },
        DisplayInfoView::Constraints => {
            lemma_members_0("Constraints"@, "kind"@);
        },
        DisplayInfoView::AllGoalsWarnings { warnings, errors } => {
            lemma_members_3("AllGoalsWarnings"@, "goals"@, JsonValue::Null, "warnings"@, JsonValue::Text(warnings), "errors"@, JsonValue::Text(errors), "kind"@);
            lemma_members_3("AllGoalsWarnings"@, "goals"@, JsonValue::Null, "warnings"@, JsonValue::Text(warnings), "errors"@, JsonValue::Text(errors), "goals"@);
            lemma_members_3("AllGoalsWarnings"@, "goals"@, JsonValue::Null, "warnings"@, JsonValue::Text(warnings), "errors"@, JsonValue::Text(errors), "warnings"@);
            lemma_members_3("AllGoalsWarnings"@, "goals"@, JsonValue::Null, "warnings"@, JsonValue::Text(warnings), "errors"@, JsonValue::Text(errors), "errors"@);
        },
        DisplayInfoView::Time { time } => {
            lemma_members_1("Time"@, "time"@, JsonValue::Text(time), "kind"@);
            lemma_members_1("Time"@, "time"@, JsonValue::Text(time), "time"@);
        },
        DisplayInfoView::Error { message } => {
            lemma_members_1("Error"@, "message"@, JsonValue::Text(message), "kind"@);
            lemma_members_1("Error"@, "message"@, JsonValue::Text(message), "message"@);
        },
        DisplayInfoView::IntroNotFound => {
            lemma_members_0("IntroNotFound"@, "kind"@);
        },
        DisplayInfoView::IntroConstructorUnknown => {
            lemma_members_0("IntroConstructorUnknown"@, "kind"@);
        },
        DisplayInfoView::Auto { info } => {
            lemma_members_1("Auto"@, "info"@, JsonValue::Text(info), "kind"@);
            lemma_members_1("Auto"@, "info"@, JsonValue::Text(info), "info"@);
        },
        DisplayInfoView::ModuleContents => {
            lemma_members_0("ModuleContents"@, "kind"@);
        },
        DisplayInfoView::SearchAbout { search } => {
            lemma_members_1("SearchAbout"@, "search"@, JsonValue::Text(search), "kind"@);
            lemma_members_1("SearchAbout"@, "search"@, JsonValue::Text(search), "search"@);
        },
        DisplayInfoView::WhyInScope => {
            lemma_members_0("WhyInScope"@, "kind"@);
        },
        DisplayInfoView::NormalForm => {
            lemma_members_0("NormalForm"@, "kind"@);
        },
        DisplayInfoView::InferredType => {
            lemma_members_0("InferredType"@, "kind"@);
        },
        DisplayInfoView::Context { interaction_point } => {
            lemma_u32_round_trip(interaction_point);
            lemma_members_1("Context"@, "interactionPoint"@, integer_json(interaction_point as int), "kind"@);
            lemma_members_1("Context"@, "interactionPoint"@, integer_json(interaction_point as int), "interactionPoint"@);
        },
        DisplayInfoView::Version { version } => {
            lemma_members_1("Version"@, "version"@, JsonValue::Text(version), "kind"@);
            lemma_members_1("Version"@, "version"@, JsonValue::Text(version), "version"@);
        },
        DisplayInfoView::GoalSpecific { interaction_point, goal_info } => {
            lemma_u32_round_trip(interaction_point);
            lemma_goal_info_round_trip(goal_info);
            lemma_members_2("GoalSpecific"@, "interactionPoint"@, integer_json(interaction_point as int), "goalInfo"@, goal_info_json(goal_info), "kind"@);
            lemma_members_2("GoalSpecific"@, "interactionPoint"@, integer_json(interaction_point as int), "goalInfo"@, goal_info_json(goal_info), "interactionPoint"@);
            lemma_members_2("GoalSpecific"@, "interactionPoint"@, integer_json(interaction_point as int), "goalInfo"@, goal_info_json(goal_info), "goalInfo"@);
        },
    }
}

/// A response that was written as JSON is read back as it was.
pub proof fn lemma_round_trip(resp: RespView)
    ensures
        decoded(resp_json(resp)) == Ok::<RespView, DecodeError>(resp),
{
    lemma_member_names();
    lemma_resp_kinds();
    match resp {
        RespView::HighlightingInfo { filepath, direct } => {
            lemma_members_2("HighlightingInfo"@, "filepath"@, JsonValue::Text(filepath), "direct"@, JsonValue::Bool(direct), "kind"@);
            lemma_members_2("HighlightingInfo"@, "filepath"@, JsonValue::Text(filepath), "direct"@, JsonValue::Bool(direct), "filepath"@);
            lemma_members_2("HighlightingInfo"@, "filepath"@, JsonValue::Text(filepath), "direct"@, JsonValue::Bool(direct), "direct"@);
        },
        RespView::Status { status } => {
            lemma_status_round_trip(status);
            lemma_members_1("Status"@, "status"@, status_json(status), "kind"@);
            lemma_members_1("Status"@, "status"@, status_json(status), "status"@);
        },
        RespView::JumpToError { filepath, position } => {
            lemma_i32_round_trip(position);
            lemma_members_2("JumpToError"@, "filepath"@, JsonValue::Text(filepath), "position"@, integer_json(position as int), "kind"@);
            lemma_members_2("JumpToError"@, "filepath"@, JsonValue::Text(filepath), "position"@, integer_json(position as int), "filepath"@);
            lemma_members_2("JumpToError"@, "filepath"@, JsonValue::Text(filepath), "position"@, integer_json(position as int), "position"@);
        },
        RespView::InteractionPoints { interaction_points } => {
            lemma_u32s_round_trip(interaction_points);
            lemma_members_1("InteractionPoints"@, "interactionPoints"@, JsonValue::Array(number_items(interaction_points)), "kind"@);
            lemma_members_1("InteractionPoints"@, "interactionPoints"@, JsonValue::Array(number_items(interaction_points)), "interactionPoints"@);
        },
        RespView::GiveAction { give_result, interaction_point } => {
            lemma_u32_round_trip(interaction_point);
            lemma_members_2("GiveAction"@, "giveResult"@, JsonValue::Bool(give_result), "interactionPoint"@, integer_json(interaction_point as int), "kind"@);
            lemma_members_2("GiveAction"@, "giveResult"@, JsonValue::Bool(give_result), "interactionPoint"@, integer_json(interaction_point as int), "giveResult"@);
            lemma_members_2("GiveAction"@, "giveResult"@, JsonValue::Bool(give_result), "interactionPoint"@, integer_json(interaction_point as int), "interactionPoint"@);
        },
        RespView::MakeCase { variant, interaction_point, clauses } => {
            lemma_u32_round_trip(interaction_point);
            lemma_texts_round_trip(clauses);
            lemma_members_3("MakeCase"@, "variant"@, JsonValue::Text(make_case_name(variant)), "interactionPoint"@, integer_json(interaction_point as int), "clauses"@, JsonValue::Array(text_items(clauses)), "kind"@);
            lemma_members_3("MakeCase"@, "variant"@, JsonValue::Text(make_case_name(variant)), "interactionPoint"@, integer_json(interaction_point as int), "clauses"@, JsonValue::Array(text_items(clauses)), "variant"@);
            lemma_members_3("MakeCase"@, "variant"@, JsonValue::Text(make_case_name(variant)), "interactionPoint"@, integer_json(interaction_point as int), "clauses"@, JsonValue::Array(text_items(clauses)), "interactionPoint"@);
            lemma_members_3("MakeCase"@, "variant"@, JsonValue::Text(make_case_name(variant)), "interactionPoint"@, integer_json(interaction_point as int), "clauses"@, JsonValue::Array(text_items(clauses)), "clauses"@);
        },
        RespView::SolveAll => {
            lemma_members_0("SolveAll"@, "kind"@);
        },
        RespView::DisplayInfo { info } => {
            lemma_display_info_round_trip(info);
            lemma_members_1("DisplayInfo"@, "info"@, display_info_json(info), "kind"@);
            lemma_members_1("DisplayInfo"@, "info"@, display_info_json(info), "info"@);
        },
        RespView::RunningInfo { debug_level, message } => {
            lemma_i32_round_trip(debug_level);
            lemma_members_2("RunningInfo"@, "debugLevel"@, integer_json(debug_level as int), "message"@, JsonValue::Text(message), "kind"@);
            lemma_members_2("RunningInfo"@, "debugLevel"@, integer_json(debug_level as int), "message"@, JsonValue::Text(message), "debugLevel"@);
            lemma_members_2("RunningInfo"@, "debugLevel"@, integer_json(debug_level as int), "message"@, JsonValue::Text(message), "message"@);
        },
        RespView::ClearRunningInfo => {
            lemma_members_0("ClearRunningInfo"@, "kind"@);
        },
        RespView::ClearHighlighting => {
            lemma_members_0("ClearHighlighting"@, "kind"@);
        },
        RespView::DoneAborting => {
            lemma_members_0("DoneAborting"@, "kind"@);
        },
    }
}

/// A line that is read as the JSON value that a response is written as
/// is decoded to that response.
pub proof fn lemma_line_round_trip(line: Seq<char>, resp: RespView)
    requires
        parsed(line, MAX_DEPTH as nat) == Some(resp_json(resp)),
    ensures
        decoded_line(line) == Ok::<RespView, DecodeError>(resp),
{
    lemma_round_trip(resp);
}

/// The name of the kind of a response.
pub open spec fn resp_kind(resp: RespView) -> Seq<char> {
    match resp {
        RespView::HighlightingInfo { .. } => "HighlightingInfo"@,
        RespView::Status { .. } => "Status"@,
        RespView::JumpToError { .. } => "JumpToError"@,
        RespView::InteractionPoints { .. } => "InteractionPoints"@,
        RespView::GiveAction { .. } => "GiveAction"@,
        RespView::MakeCase { .. } => "MakeCase"@,
        RespView::SolveAll => "SolveAll"@,
        RespView::DisplayInfo { .. } => "DisplayInfo"@,
        RespView::RunningInfo { .. } => "RunningInfo"@,
        RespView::ClearRunningInfo => "ClearRunningInfo"@,
        RespView::ClearHighlighting => "ClearHighlighting"@,
        RespView::DoneAborting => "DoneAborting"@,
    }
}

/// The name of the kind of a display information.
pub open spec fn display_info_kind(info: DisplayInfoView) -> Seq<char> {
    match info {
        DisplayInfoView::CompilationOk { .. } => "CompilationOk"@,
        DisplayInfoView::Constraints => "Constraints"@,
        DisplayInfoView::AllGoalsWarnings { .. } => "AllGoalsWarnings"@,
        DisplayInfoView::Time { .. } => "Time"@,
        DisplayInfoView::Error { .. } => "Error"@,
        DisplayInfoView::IntroNotFound => "IntroNotFound"@,
        DisplayInfoView::IntroConstructorUnknown => "IntroConstructorUnknown"@,
        DisplayInfoView::Auto { .. } => "Auto"@,
        DisplayInfoView::ModuleContents => "ModuleContents"@,
        DisplayInfoView::SearchAbout { .. } => "SearchAbout"@,
        DisplayInfoView::WhyInScope => "WhyInScope"@,
        DisplayInfoView::NormalForm => "NormalForm"@,
        DisplayInfoView::InferredType => "InferredType"@,
        DisplayInfoView::Context { .. } => "Context"@,
        DisplayInfoView::Version { .. } => "Version"@,
        DisplayInfoView::GoalSpecific { .. } => "GoalSpecific"@,
    }
}

/// Whether `kind` names a kind of response.
pub open spec fn is_resp_kind(kind: Seq<char>) -> bool {
    exists|resp: RespView| resp_kind(resp) == kind
}

/// Whether `kind` names a kind of display information.
pub open spec fn is_display_info_kind(kind: Seq<char>) -> bool {
    exists|info: DisplayInfoView| display_info_kind(info) == kind
}

/// A value is read as a response only if it is an object whose `kind` is
/// the name of that very response: no value is taken for a response of
/// another kind than it names.
pub proof fn lemma_decoded_names_its_kind(j: JsonValue, resp: RespView)
    requires
        decoded(j) == Ok::<RespView, DecodeError>(resp),
    ensures
        j is Object,
        member_text(j->Object_0, "kind"@) == Some(resp_kind(resp)),
{
}

/// A value is read as a display information only if it is an object whose
/// `kind` is the name of that very information.
pub proof fn lemma_decoded_display_info_names_its_kind(j: JsonValue, info: DisplayInfoView)
    requires
        decoded_display_info(j) == Ok::<DisplayInfoView, DecodeError>(info),
    ensures
        j is Object,
        member_text(j->Object_0, "kind"@) == Some(display_info_kind(info)),
{
}

/// An object whose `kind` names no response is refused as of unknown kind,
/// whatever else it holds.
pub proof fn lemma_unknown_kind_is_refused(members: Seq<(Seq<char>, JsonValue)>, kind: Seq<char>)
    requires
        member_text(members, "kind"@) == Some(kind),
        !is_resp_kind(kind),
    ensures
        decoded(JsonValue::Object(members)) == Err::<RespView, DecodeError>(
            DecodeError::UnknownKind,
        ),
{
    let status = Status { show_implicit_arguments: false, checked: false };
    assert(resp_kind(RespView::HighlightingInfo { filepath: Seq::empty(), direct: false }) != kind);
    assert(resp_kind(RespView::Status { status }) != kind);
    assert(resp_kind(RespView::JumpToError { filepath: Seq::empty(), position: 0 }) != kind);
    assert(resp_kind(RespView::InteractionPoints { interaction_points: Seq::empty() }) != kind);
    assert(resp_kind(RespView::GiveAction { give_result: false, interaction_point: 0 }) != kind);
    assert(resp_kind(
        RespView::MakeCase {
            variant: MakeCase::Function,
            interaction_point: 0,
            clauses: Seq::empty(),
        },
    ) != kind);
    assert(resp_kind(RespView::SolveAll) != kind);
    assert(resp_kind(RespView::DisplayInfo { info: DisplayInfoView::Constraints }) != kind);
    assert(resp_kind(RespView::RunningInfo { debug_level: 0, message: Seq::empty() }) != kind);
    assert(resp_kind(RespView::ClearRunningInfo) != kind);
    assert(resp_kind(RespView::ClearHighlighting) != kind);
    assert(resp_kind(RespView::DoneAborting) != kind);
}

/// An object whose `kind` names no display information is refused as of
/// unknown kind, whatever else it holds.
pub proof fn lemma_unknown_display_info_kind_is_refused(
    members: Seq<(Seq<char>, JsonValue)>,
    kind: Seq<char>,
)
    requires
        member_text(members, "kind"@) == Some(kind),
        !is_display_info_kind(kind),
    ensures
        decoded_display_info(JsonValue::Object(members)) == Err::<DisplayInfoView, DecodeError>(
            DecodeError::UnknownKind,
        ),
{
    let text = Seq::<char>::empty();
    let goal_info = GoalInfoView::CurrentGoal { the_type: text };
    assert(display_info_kind(DisplayInfoView::CompilationOk { warnings: text, errors: text })
        != kind);
    assert(display_info_kind(DisplayInfoView::Constraints) != kind);
    assert(display_info_kind(DisplayInfoView::AllGoalsWarnings { warnings: text, errors: text })
        != kind);
    assert(display_info_kind(DisplayInfoView::Time { time: text }) != kind);
    assert(display_info_kind(DisplayInfoView::Error { message: text }) != kind);
    assert(display_info_kind(DisplayInfoView::IntroNotFound) != kind);
    assert(display_info_kind(DisplayInfoView::IntroConstructorUnknown) != kind);
    assert(display_info_kind(DisplayInfoView::Auto { info: text }) != kind);
    assert(display_info_kind(DisplayInfoView::ModuleContents) != kind);
    assert(display_info_kind(DisplayInfoView::SearchAbout { search: text }) != kind);
    assert(display_info_kind(DisplayInfoView::WhyInScope) != kind);
    assert(display_info_kind(DisplayInfoView::NormalForm) != kind);
    assert(display_info_kind(DisplayInfoView::InferredType) != kind);
    assert(display_info_kind(DisplayInfoView::Context { interaction_point: 0 }) != kind);
    assert(display_info_kind(DisplayInfoView::Version { version: text }) != kind);
    assert(display_info_kind(DisplayInfoView::GoalSpecific { interaction_point: 0, goal_info })
        != kind);
}

/// A value that is no object, or an object without a string `kind`, is
/// refused: there is no response that it is taken for by default.
pub proof fn lemma_no_kind_is_refused(j: JsonValue)
    requires
        !(j is Object) || member_text(j->Object_0, "kind"@) is None,
    ensures
        decoded(j) is Err,
        !(j is Object) ==> decoded(j) == Err::<RespView, DecodeError>(DecodeError::NotAnObject),
        j is Object ==> decoded(j) == Err::<RespView, DecodeError>(DecodeError::MissingKind),
{
}

/// The display information that an object of the kind `kind` is read as
/// whatever its members are: the kinds of which nothing but the kind is
/// read so far.
pub open spec fn bare_display_info(kind: Seq<char>) -> Option<DisplayInfoView> {
    if kind == "Constraints"@ {
        Some(DisplayInfoView::Constraints)
    } else if kind == "IntroNotFound"@ {
        Some(DisplayInfoView::IntroNotFound)
    } else if kind == "IntroConstructorUnknown"@ {
        Some(DisplayInfoView::IntroConstructorUnknown)
    } else if kind == "ModuleContents"@ {
        Some(DisplayInfoView::ModuleContents)
    } else if kind == "WhyInScope"@ {
        Some(DisplayInfoView::WhyInScope)
    } else if kind == "NormalForm"@ {
        Some(DisplayInfoView::NormalForm)
    } else if kind == "InferredType"@ {
        Some(DisplayInfoView::InferredType)
    } else {
        None
    }
}

/// The response that an object of the kind `kind` is read as whatever its
/// members are.
pub open spec fn bare_resp(kind: Seq<char>) -> Option<RespView> {
    if kind == "SolveAll"@ {
        Some(RespView::SolveAll)
    } else if kind == "ClearRunningInfo"@ {
        Some(RespView::ClearRunningInfo)
    } else if kind == "ClearHighlighting"@ {
        Some(RespView::ClearHighlighting)
    } else if kind == "DoneAborting"@ {
        Some(RespView::DoneAborting)
    } else {
        None
    }
}

/// A display information of which only the kind is read is read from any
/// object of that kind: with no member but `kind`, and with any others.
pub proof fn lemma_bare_display_info_is_read(
    members: Seq<(Seq<char>, JsonValue)>,
    kind: Seq<char>,
)
    requires
        member_text(members, "kind"@) == Some(kind),
        bare_display_info(kind) is Some,
    ensures
        decoded_display_info(JsonValue::Object(members)) == Ok::<DisplayInfoView, DecodeError>(
            bare_display_info(kind).unwrap(),
        ),
{
    lemma_display_info_kinds();
}

/// A response of which only the kind is read is read from any object of
/// that kind.
pub proof fn lemma_bare_resp_is_read(members: Seq<(Seq<char>, JsonValue)>, kind: Seq<char>)
    requires
        member_text(members, "kind"@) == Some(kind),
        bare_resp(kind) is Some,
    ensures
        decoded(JsonValue::Object(members)) == Ok::<RespView, DecodeError>(
            bare_resp(kind).unwrap(),
        ),
{
    lemma_resp_kinds();
}

/// Whether `name` is the name of a member that some kind has a field for.
pub open spec fn is_known_member(name: Seq<char>) -> bool {
    name == "kind"@ || name == "filepath"@ || name == "direct"@ || name == "status"@ || name
        == "position"@ || name == "interactionPoints"@ || name == "giveResult"@ || name
        == "interactionPoint"@ || name == "variant"@ || name == "clauses"@ || name == "info"@
        || name == "debugLevel"@ || name == "message"@
}

/// Members that no kind has a field for are passed over: two objects that
/// agree on the members that are known are read alike.
pub proof fn lemma_unknown_members_are_passed_over(
    a: Seq<(Seq<char>, JsonValue)>,
    b: Seq<(Seq<char>, JsonValue)>,
)
    requires
        forall|name: Seq<char>| is_known_member(name) ==> #[trigger] member(a, name) == member(
            b,
            name,
        ),
    ensures
        decoded(JsonValue::Object(a)) == decoded(JsonValue::Object(b)),
{
    assert(is_known_member("kind"@));
    assert(is_known_member("filepath"@));
    assert(is_known_member("direct"@));
    assert(is_known_member("status"@));
    assert(is_known_member("position"@));
    assert(is_known_member("interactionPoints"@));
    assert(is_known_member("giveResult"@));
    assert(is_known_member("interactionPoint"@));
    assert(is_known_member("variant"@));
    assert(is_known_member("clauses"@));
    assert(is_known_member("info"@));
    assert(is_known_member("debugLevel"@));
    assert(is_known_member("message"@));
    assert(member(a, "kind"@) == member(b, "kind"@));
    assert(member(a, "filepath"@) == member(b, "filepath"@));
    assert(member(a, "direct"@) == member(b, "direct"@));
    assert(member(a, "status"@) == member(b, "status"@));
    assert(member(a, "position"@) == member(b, "position"@));
    assert(member(a, "interactionPoints"@) == member(b, "interactionPoints"@));
    assert(member(a, "giveResult"@) == member(b, "giveResult"@));
    assert(member(a, "interactionPoint"@) == member(b, "interactionPoint"@));
    assert(member(a, "variant"@) == member(b, "variant"@));
    assert(member(a, "clauses"@) == member(b, "clauses"@));
    assert(member(a, "info"@) == member(b, "info"@));
    assert(member(a, "debugLevel"@) == member(b, "debugLevel"@));
    assert(member(a, "message"@) == member(b, "message"@));
}

} // verus!
