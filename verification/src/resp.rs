//! The responses a client reads, and the way between them and JSON.
//!
//! Agda writes one JSON object per line. The member `kind` says which
//! response it is; the other members are its fields, under the field's name
//! in camel case. A `kind` that is not known is an error. Members that are
//! not known are passed over: Agda says more than is modelled here.

use crate::base::InteractionPoint;
use crate::json::{
    add_member, find, find_bool, lemma_object_view, find_i32, find_null, find_text, find_texts, find_u32, find_u32s,
    member, member_bool, member_i32, member_null, member_text, member_texts, member_u32,
    member_u32s, member_values, number, number_items, numbers, object, parse, parsed, strings,
    text, text_items, Json, JsonValue, MAX_DEPTH,
};
use crate::text::{integer, same_text, texts};
use vstd::prelude::*;

verus! {

/// Status of the loaded file, as of the moment it was sent.
#[derive(Debug, Copy, Clone, PartialEq, Eq, Hash, Structural)]
pub struct Status {
    pub show_implicit_arguments: bool,
    pub checked: bool,
}

impl Default for Status {
    fn default() -> (r: Self)
        ensures
            r == (Status { show_implicit_arguments: false, checked: false }),
    {
        Status { show_implicit_arguments: false, checked: false }
    }
}

/// What a case split was made in.
#[derive(Debug, Copy, Clone, PartialEq, Eq, Hash, Structural)]
pub enum MakeCase {
    Function,
    ExtendedLambda,
}

/// Information about one goal.
#[derive(Debug, Clone, PartialEq, Eq)]
pub enum GoalInfo {
    /// The type of the goal.
    CurrentGoal { the_type: String },
}

/// What a [`GoalInfo`] says.
pub enum GoalInfoView {
    CurrentGoal { the_type: Seq<char> },
}

impl View for GoalInfo {
    type V = GoalInfoView;

    open spec fn view(&self) -> GoalInfoView {
        match self {
            GoalInfo::CurrentGoal { the_type } => GoalInfoView::CurrentGoal { the_type: the_type@ },
        }
    }
}

/// Information for the user. Of several kinds only the kind itself is
/// read so far.
#[derive(Debug, Clone, PartialEq, Eq)]
#[allow(inconsistent_fields)]
pub enum DisplayInfo {
    CompilationOk { warnings: String, errors: String },
    Constraints,
    /// The goals themselves are not read yet: only `null` is taken for them.
    AllGoalsWarnings { warnings: String, errors: String },
    Time { time: String },
    /// Agda could not do what the command asked for.
    Error { message: String },
    IntroNotFound,
    IntroConstructorUnknown,
    Auto { info: String },
    ModuleContents,
    SearchAbout { search: String },
    WhyInScope,
    NormalForm,
    InferredType,
    Context { interaction_point: InteractionPoint },
    Version { version: String },
    GoalSpecific { interaction_point: InteractionPoint, goal_info: GoalInfo },
}

/// What a [`DisplayInfo`] says.
#[allow(inconsistent_fields)]
pub enum DisplayInfoView {
    CompilationOk { warnings: Seq<char>, errors: Seq<char> },
    Constraints,
    AllGoalsWarnings { warnings: Seq<char>, errors: Seq<char> },
    Time { time: Seq<char> },
    Error { message: Seq<char> },
    IntroNotFound,
    IntroConstructorUnknown,
    Auto { info: Seq<char> },
    ModuleContents,
    SearchAbout { search: Seq<char> },
    WhyInScope,
    NormalForm,
    InferredType,
    Context { interaction_point: InteractionPoint },
    Version { version: Seq<char> },
    GoalSpecific { interaction_point: InteractionPoint, goal_info: GoalInfoView },
}

impl View for DisplayInfo {
    type V = DisplayInfoView;

    open spec fn view(&self) -> DisplayInfoView {
        match self {
            DisplayInfo::CompilationOk { warnings, errors } => DisplayInfoView::CompilationOk {
                warnings: warnings@,
                errors: errors@,
            },
            DisplayInfo::Constraints => DisplayInfoView::Constraints,
            DisplayInfo::AllGoalsWarnings { warnings, errors } => {
                DisplayInfoView::AllGoalsWarnings { warnings: warnings@, errors: errors@ }
            },
            DisplayInfo::Time { time } => DisplayInfoView::Time { time: time@ },
            DisplayInfo::Error { message } => DisplayInfoView::Error { message: message@ },
            DisplayInfo::IntroNotFound => DisplayInfoView::IntroNotFound,
            DisplayInfo::IntroConstructorUnknown => DisplayInfoView::IntroConstructorUnknown,
            DisplayInfo::Auto { info } => DisplayInfoView::Auto { info: info@ },
            DisplayInfo::ModuleContents => DisplayInfoView::ModuleContents,
            DisplayInfo::SearchAbout { search } => DisplayInfoView::SearchAbout { search: search@ },
            DisplayInfo::WhyInScope => DisplayInfoView::WhyInScope,
            DisplayInfo::NormalForm => DisplayInfoView::NormalForm,
            DisplayInfo::InferredType => DisplayInfoView::InferredType,
            DisplayInfo::Context { interaction_point } => DisplayInfoView::Context {
                interaction_point: *interaction_point,
            },
            DisplayInfo::Version { version } => DisplayInfoView::Version { version: version@ },
            DisplayInfo::GoalSpecific { interaction_point, goal_info } => {
                DisplayInfoView::GoalSpecific {
                    interaction_point: *interaction_point,
                    goal_info: goal_info@,
                }
            },
        }
    }
}

/// One response of Agda.
#[derive(Debug, Clone, PartialEq, Eq)]
#[allow(inconsistent_fields)]
pub enum Resp {
    HighlightingInfo { filepath: String, direct: bool },
    Status { status: Status },
    JumpToError { filepath: String, position: i32 },
    InteractionPoints { interaction_points: Vec<InteractionPoint> },
    GiveAction { give_result: bool, interaction_point: InteractionPoint },
    /// Response is list of printed clauses.
    MakeCase { variant: MakeCase, interaction_point: InteractionPoint, clauses: Vec<String> },
    /// Solution for one or more meta-variables.
    SolveAll,
    DisplayInfo { info: DisplayInfo },
    /// The integer is the message's debug level.
    RunningInfo { debug_level: i32, message: String },
    ClearRunningInfo,
    /// Clear highlighting of the given kind.
    ClearHighlighting,
    /// A command sent when an abort command has completed successfully.
    DoneAborting,
}

/// What a [`Resp`] says.
#[allow(inconsistent_fields)]
pub enum RespView {
    HighlightingInfo { filepath: Seq<char>, direct: bool },
    Status { status: Status },
    JumpToError { filepath: Seq<char>, position: i32 },
    InteractionPoints { interaction_points: Seq<InteractionPoint> },
    GiveAction { give_result: bool, interaction_point: InteractionPoint },
    MakeCase { variant: MakeCase, interaction_point: InteractionPoint, clauses: Seq<Seq<char>> },
    SolveAll,
    DisplayInfo { info: DisplayInfoView },
    RunningInfo { debug_level: i32, message: Seq<char> },
    ClearRunningInfo,
    ClearHighlighting,
    DoneAborting,
}

impl View for Resp {
    type V = RespView;

    open spec fn view(&self) -> RespView {
        match self {
            Resp::HighlightingInfo { filepath, direct } => RespView::HighlightingInfo {
                filepath: filepath@,
                direct: *direct,
            },
            Resp::Status { status } => RespView::Status { status: *status },
            Resp::JumpToError { filepath, position } => RespView::JumpToError {
                filepath: filepath@,
                position: *position,
            },
            Resp::InteractionPoints { interaction_points } => RespView::InteractionPoints {
                interaction_points: interaction_points@,
            },
            Resp::GiveAction { give_result, interaction_point } => RespView::GiveAction {
                give_result: *give_result,
                interaction_point: *interaction_point,
            },
            Resp::MakeCase { variant, interaction_point, clauses } => RespView::MakeCase {
                variant: *variant,
                interaction_point: *interaction_point,
                clauses: texts(clauses@),
            },
            Resp::SolveAll => RespView::SolveAll,
            Resp::DisplayInfo { info } => RespView::DisplayInfo { info: info@ },
            Resp::RunningInfo { debug_level, message } => RespView::RunningInfo {
                debug_level: *debug_level,
                message: message@,
            },
            Resp::ClearRunningInfo => RespView::ClearRunningInfo,
            Resp::ClearHighlighting => RespView::ClearHighlighting,
            Resp::DoneAborting => RespView::DoneAborting,
        }
    }
}

/// Why a line is no response.
#[derive(Debug, Copy, Clone, PartialEq, Eq, Hash, Structural)]
pub enum DecodeError {
    /// The line is not JSON text, or its arrays and objects nest too deep.
    Syntax,
    /// The value, or a value that holds a nested kind, is not an object.
    NotAnObject,
    /// The object has no member `kind` that is a string.
    MissingKind,
    /// The member `kind` names nothing that is known.
    UnknownKind,
    /// A member that the kind needs is missing or is of another type.
    Malformed,
}

/// The members of the names of `MakeCase`.
pub open spec fn decoded_make_case(name: Seq<char>) -> Option<MakeCase> {
    if name == "Function"@ {
        Some(MakeCase::Function)
    } else if name == "ExtendedLambda"@ {
        Some(MakeCase::ExtendedLambda)
    } else {
        None
    }
}

/// The status that the members of an object say.
pub open spec fn decoded_status(j: JsonValue) -> Option<Status> {
    match j {
        JsonValue::Object(members) => match (
            member_bool(members, "showImplicitArguments"@),
            member_bool(members, "checked"@),
        ) {
            (Some(show_implicit_arguments), Some(checked)) => Some(
                Status { show_implicit_arguments, checked },
            ),
            _ => None,
        },
        _ => None,
    }
}

/// The goal information of the kind `kind` that `members` say.
pub open spec fn decoded_goal_info_of(
    kind: Seq<char>,
    members: Seq<(Seq<char>, JsonValue)>,
) -> Result<GoalInfoView, DecodeError> {
    if kind == "CurrentGoal"@ {
        match member_text(members, "theType"@) {
            Some(the_type) => Ok(GoalInfoView::CurrentGoal { the_type }),
            None => Err(DecodeError::Malformed),
        }
    } else {
        Err(DecodeError::UnknownKind)
    }
}

/// The goal information that a JSON value says.
pub open spec fn decoded_goal_info(j: JsonValue) -> Result<GoalInfoView, DecodeError> {
    match j {
        JsonValue::Object(members) => match member_text(members, "kind"@) {
            Some(kind) => decoded_goal_info_of(kind, members),
            None => Err(DecodeError::MissingKind),
        },
        _ => Err(DecodeError::NotAnObject),
    }
}

/// A display information that has two texts, `warnings` and `errors`.
pub open spec fn decoded_compilation_ok(members: Seq<(Seq<char>, JsonValue)>) -> Result<
    DisplayInfoView,
    DecodeError,
> {
    match (member_text(members, "warnings"@), member_text(members, "errors"@)) {
        (Some(warnings), Some(errors)) => Ok(DisplayInfoView::CompilationOk { warnings, errors }),
        _ => Err(DecodeError::Malformed),
    }
}

/// The goals and warnings that `members` say: `goals` is read only as far
/// as it is `null`.
pub open spec fn decoded_all_goals_warnings(members: Seq<(Seq<char>, JsonValue)>) -> Result<
    DisplayInfoView,
    DecodeError,
> {
    match (member_text(members, "warnings"@), member_text(members, "errors"@)) {
        (Some(warnings), Some(errors)) => if member_null(members, "goals"@) {
            Ok(DisplayInfoView::AllGoalsWarnings { warnings, errors })
        } else {
            Err(DecodeError::Malformed)
        },
        _ => Err(DecodeError::Malformed),
    }
}

/// The information about one goal that `members` say.
pub open spec fn decoded_goal_specific(members: Seq<(Seq<char>, JsonValue)>) -> Result<
    DisplayInfoView,
    DecodeError,
> {
    match (member_u32(members, "interactionPoint"@), member(members, "goalInfo"@)) {
        (Some(interaction_point), Some(inner)) => match decoded_goal_info(inner) {
            Ok(goal_info) => Ok(DisplayInfoView::GoalSpecific { interaction_point, goal_info }),
            Err(e) => Err(e),
        },
        _ => Err(DecodeError::Malformed),
    }
}

/// The display information that has the one text `name`, made by `make`.
pub open spec fn decoded_one_text(
    members: Seq<(Seq<char>, JsonValue)>,
    name: Seq<char>,
    make: spec_fn(Seq<char>) -> DisplayInfoView,
) -> Result<DisplayInfoView, DecodeError> {
    match member_text(members, name) {
        Some(value) => Ok(make(value)),
        None => Err(DecodeError::Malformed),
    }
}

/// The display information of the kind `kind` that `members` say.
pub open spec fn decoded_display_info_of(
    kind: Seq<char>,
    members: Seq<(Seq<char>, JsonValue)>,
) -> Result<DisplayInfoView, DecodeError> {
    if kind == "CompilationOk"@ {
        decoded_compilation_ok(members)
    } else if kind == "Constraints"@ {
        Ok(DisplayInfoView::Constraints)
    } else if kind == "AllGoalsWarnings"@ {
        decoded_all_goals_warnings(members)
    } else if kind == "Time"@ {
        decoded_one_text(members, "time"@, |time: Seq<char>| DisplayInfoView::Time { time })
    } else if kind == "Error"@ {
        decoded_one_text(
            members,
            "message"@,
            |message: Seq<char>| DisplayInfoView::Error { message },
        )
    } else if kind == "IntroNotFound"@ {
        Ok(DisplayInfoView::IntroNotFound)
    } else if kind == "IntroConstructorUnknown"@ {
        Ok(DisplayInfoView::IntroConstructorUnknown)
    } else if kind == "Auto"@ {
        decoded_one_text(members, "info"@, |info: Seq<char>| DisplayInfoView::Auto { info })
    } else if kind == "ModuleContents"@ {
        Ok(DisplayInfoView::ModuleContents)
    } else if kind == "SearchAbout"@ {
        decoded_one_text(
            members,
            "search"@,
            |search: Seq<char>| DisplayInfoView::SearchAbout { search },
        )
    } else if kind == "WhyInScope"@ {
        Ok(DisplayInfoView::WhyInScope)
    } else if kind == "NormalForm"@ {
        Ok(DisplayInfoView::NormalForm)
    } else if kind == "InferredType"@ {
        Ok(DisplayInfoView::InferredType)
    } else if kind == "Context"@ {
        match member_u32(members, "interactionPoint"@) {
            Some(interaction_point) => Ok(DisplayInfoView::Context { interaction_point }),
            None => Err(DecodeError::Malformed),
        }
    } else if kind == "Version"@ {
        decoded_one_text(
            members,
            "version"@,
            |version: Seq<char>| DisplayInfoView::Version { version },
        )
    } else if kind == "GoalSpecific"@ {
        decoded_goal_specific(members)
    } else {
        Err(DecodeError::UnknownKind)
    }
}

/// The display information that a JSON value says.
pub open spec fn decoded_display_info(j: JsonValue) -> Result<DisplayInfoView, DecodeError> {
    match j {
        JsonValue::Object(members) => match member_text(members, "kind"@) {
            Some(kind) => decoded_display_info_of(kind, members),
            None => Err(DecodeError::MissingKind),
        },
        _ => Err(DecodeError::NotAnObject),
    }
}

/// The highlighting information that `members` say.
pub open spec fn decoded_highlighting_info(members: Seq<(Seq<char>, JsonValue)>) -> Result<
    RespView,
    DecodeError,
> {
    match (member_text(members, "filepath"@), member_bool(members, "direct"@)) {
        (Some(filepath), Some(direct)) => Ok(RespView::HighlightingInfo { filepath, direct }),
        _ => Err(DecodeError::Malformed),
    }
}

/// The status response that `members` say.
pub open spec fn decoded_status_resp(members: Seq<(Seq<char>, JsonValue)>) -> Result<
    RespView,
    DecodeError,
> {
    match member(members, "status"@) {
        Some(inner) => match decoded_status(inner) {
            Some(status) => Ok(RespView::Status { status }),
            None => Err(DecodeError::Malformed),
        },
        None => Err(DecodeError::Malformed),
    }
}

/// The jump that `members` say.
pub open spec fn decoded_jump_to_error(members: Seq<(Seq<char>, JsonValue)>) -> Result<
    RespView,
    DecodeError,
> {
    match (member_text(members, "filepath"@), member_i32(members, "position"@)) {
        (Some(filepath), Some(position)) => Ok(RespView::JumpToError { filepath, position }),
        _ => Err(DecodeError::Malformed),
    }
}

/// The list of interaction points that `members` say.
pub open spec fn decoded_interaction_points(members: Seq<(Seq<char>, JsonValue)>) -> Result<
    RespView,
    DecodeError,
> {
    match member_u32s(members, "interactionPoints"@) {
        Some(interaction_points) => Ok(RespView::InteractionPoints { interaction_points }),
        None => Err(DecodeError::Malformed),
    }
}

/// The result of a give that `members` say.
pub open spec fn decoded_give_action(members: Seq<(Seq<char>, JsonValue)>) -> Result<
    RespView,
    DecodeError,
> {
    match (member_bool(members, "giveResult"@), member_u32(members, "interactionPoint"@)) {
        (Some(give_result), Some(interaction_point)) => Ok(
            RespView::GiveAction { give_result, interaction_point },
        ),
        _ => Err(DecodeError::Malformed),
    }
}

/// The variant that the member `variant` names.
pub open spec fn member_make_case(members: Seq<(Seq<char>, JsonValue)>) -> Option<MakeCase> {
    match member_text(members, "variant"@) {
        Some(name) => decoded_make_case(name),
        None => None,
    }
}

/// The case split that `members` say.
pub open spec fn decoded_make_case_resp(members: Seq<(Seq<char>, JsonValue)>) -> Result<
    RespView,
    DecodeError,
> {
    match (
        member_make_case(members),
        member_u32(members, "interactionPoint"@),
        member_texts(members, "clauses"@),
    ) {
        (Some(variant), Some(interaction_point), Some(clauses)) => Ok(
            RespView::MakeCase { variant, interaction_point, clauses },
        ),
        _ => Err(DecodeError::Malformed),
    }
}

/// The display information response that `members` say.
pub open spec fn decoded_display_info_resp(members: Seq<(Seq<char>, JsonValue)>) -> Result<
    RespView,
    DecodeError,
> {
    match member(members, "info"@) {
        Some(inner) => match decoded_display_info(inner) {
            Ok(info) => Ok(RespView::DisplayInfo { info }),
            Err(e) => Err(e),
        },
        None => Err(DecodeError::Malformed),
    }
}

/// The running information that `members` say.
pub open spec fn decoded_running_info(members: Seq<(Seq<char>, JsonValue)>) -> Result<
    RespView,
    DecodeError,
> {
    match (member_i32(members, "debugLevel"@), member_text(members, "message"@)) {
        (Some(debug_level), Some(message)) => Ok(RespView::RunningInfo { debug_level, message }),
        _ => Err(DecodeError::Malformed),
    }
}

/// The response of the kind `kind` that `members` say.
pub open spec fn decoded_resp_of(kind: Seq<char>, members: Seq<(Seq<char>, JsonValue)>) -> Result<
    RespView,
    DecodeError,
> {
    if kind == "HighlightingInfo"@ {
        decoded_highlighting_info(members)
    } else if kind == "Status"@ {
        decoded_status_resp(members)
    } else if kind == "JumpToError"@ {
        decoded_jump_to_error(members)
    } else if kind == "InteractionPoints"@ {
        decoded_interaction_points(members)
    } else if kind == "GiveAction"@ {
        decoded_give_action(members)
    } else if kind == "MakeCase"@ {
        decoded_make_case_resp(members)
    } else if kind == "SolveAll"@ {
        Ok(RespView::SolveAll)
    } else if kind == "DisplayInfo"@ {
        decoded_display_info_resp(members)
    } else if kind == "RunningInfo"@ {
        decoded_running_info(members)
    } else if kind == "ClearRunningInfo"@ {
        Ok(RespView::ClearRunningInfo)
    } else if kind == "ClearHighlighting"@ {
        Ok(RespView::ClearHighlighting)
    } else if kind == "DoneAborting"@ {
        Ok(RespView::DoneAborting)
    } else {
        Err(DecodeError::UnknownKind)
    }
}

/// The response that a JSON value says.
pub open spec fn decoded(j: JsonValue) -> Result<RespView, DecodeError> {
    match j {
        JsonValue::Object(members) => match member_text(members, "kind"@) {
            Some(kind) => decoded_resp_of(kind, members),
            None => Err(DecodeError::MissingKind),
        },
        _ => Err(DecodeError::NotAnObject),
    }
}

/// The response that a line of text says.
pub open spec fn decoded_line(line: Seq<char>) -> Result<RespView, DecodeError> {
    match parsed(line, MAX_DEPTH as nat) {
        Some(j) => decoded(j),
        None => Err(DecodeError::Syntax),
    }
}

/// Whether `r` is the outcome `m`: the same error, or a value that says
/// what `m` holds.
pub open spec fn is_goal_info(r: Result<GoalInfo, DecodeError>, m: Result<GoalInfoView, DecodeError>) -> bool {
    match r {
        Ok(v) => m == Ok::<GoalInfoView, DecodeError>(v@),
        Err(e) => m == Err::<GoalInfoView, DecodeError>(e),
    }
}

/// Whether `r` is the outcome `m`: the same error, or a value that says
/// what `m` holds.
pub open spec fn is_display_info(
    r: Result<DisplayInfo, DecodeError>,
    m: Result<DisplayInfoView, DecodeError>,
) -> bool {
    match r {
        Ok(v) => m == Ok::<DisplayInfoView, DecodeError>(v@),
        Err(e) => m == Err::<DisplayInfoView, DecodeError>(e),
    }
}

/// Whether `r` is the outcome `m`: the same error, or a value that says
/// what `m` holds.
pub open spec fn is_resp(r: Result<Resp, DecodeError>, m: Result<RespView, DecodeError>) -> bool {
    match r {
        Ok(v) => m == Ok::<RespView, DecodeError>(v@),
        Err(e) => m == Err::<RespView, DecodeError>(e),
    }
}

fn decode_make_case(name: &str) -> (r: Option<MakeCase>)
    ensures
        r == decoded_make_case(name@),
{
    if same_text(name, "Function") {
        Some(MakeCase::Function)
    } else if same_text(name, "ExtendedLambda") {
        Some(MakeCase::ExtendedLambda)
    } else {
        None
    }
}

fn decode_status(j: &Json) -> (r: Option<Status>)
    ensures
        r == decoded_status(j@),
{
    match j {
        Json::Object(members) => {
            proof {
                lemma_object_view(*members);
            }
            match (find_bool(members, "showImplicitArguments"), find_bool(members, "checked")) {
                (Some(show_implicit_arguments), Some(checked)) => Some(
                    Status { show_implicit_arguments, checked },
                ),
                _ => None,
            }
        },
        _ => None,
    }
}

/// Reads the information about one goal from a JSON value.
pub fn decode_goal_info(j: &Json) -> (r: Result<GoalInfo, DecodeError>)
    ensures
        is_goal_info(r, decoded_goal_info(j@)),
{
    match j {
        Json::Object(members) => {
            proof {
                lemma_object_view(*members);
            }
            match find_text(members, "kind") {
                Some(kind) => {
                    if same_text(kind.as_str(), "CurrentGoal") {
                        match find_text(members, "theType") {
                            Some(the_type) => Ok(GoalInfo::CurrentGoal { the_type }),
                            None => Err(DecodeError::Malformed),
                        }
                    } else {
                        Err(DecodeError::UnknownKind)
                    }
                },
                None => Err(DecodeError::MissingKind),
            }
        },
        _ => Err(DecodeError::NotAnObject),
    }
}

fn decode_compilation_ok(members: &Vec<(String, Json)>) -> (r: Result<DisplayInfo, DecodeError>)
    ensures
        is_display_info(r, decoded_compilation_ok(member_values(members@))),
{
    match (find_text(members, "warnings"), find_text(members, "errors")) {
        (Some(warnings), Some(errors)) => Ok(DisplayInfo::CompilationOk { warnings, errors }),
        _ => Err(DecodeError::Malformed),
    }
}

fn decode_all_goals_warnings(members: &Vec<(String, Json)>) -> (r: Result<
    DisplayInfo,
    DecodeError,
>)
    ensures
        is_display_info(r, decoded_all_goals_warnings(member_values(members@))),
{
    match (find_text(members, "warnings"), find_text(members, "errors")) {
        (Some(warnings), Some(errors)) => {
            if find_null(members, "goals") {
                Ok(DisplayInfo::AllGoalsWarnings { warnings, errors })
            } else {
                Err(DecodeError::Malformed)
            }
        },
        _ => Err(DecodeError::Malformed),
    }
}

fn decode_goal_specific(members: &Vec<(String, Json)>) -> (r: Result<DisplayInfo, DecodeError>)
    ensures
        is_display_info(r, decoded_goal_specific(member_values(members@))),
{
    match (find_u32(members, "interactionPoint"), find(members, "goalInfo")) {
        (Some(interaction_point), Some(inner)) => match decode_goal_info(inner) {
            Ok(goal_info) => Ok(DisplayInfo::GoalSpecific { interaction_point, goal_info }),
            Err(e) => Err(e),
        },
        _ => Err(DecodeError::Malformed),
    }
}

fn decode_display_info_of(kind: &str, members: &Vec<(String, Json)>) -> (r: Result<
    DisplayInfo,
    DecodeError,
>)
    ensures
        is_display_info(r, decoded_display_info_of(kind@, member_values(members@))),
{
    if same_text(kind, "CompilationOk") {
        decode_compilation_ok(members)
    } else if same_text(kind, "Constraints") {
        Ok(DisplayInfo::Constraints)
    } else if same_text(kind, "AllGoalsWarnings") {
        decode_all_goals_warnings(members)
    } else if same_text(kind, "Time") {
        match find_text(members, "time") {
            Some(time) => Ok(DisplayInfo::Time { time }),
            None => Err(DecodeError::Malformed),
        }
    } else if same_text(kind, "Error") {
        match find_text(members, "message") {
            Some(message) => Ok(DisplayInfo::Error { message }),
            None => Err(DecodeError::Malformed),
        }
    } else if same_text(kind, "IntroNotFound") {
        Ok(DisplayInfo::IntroNotFound)
    } else if same_text(kind, "IntroConstructorUnknown") {
        Ok(DisplayInfo::IntroConstructorUnknown)
    } else if same_text(kind, "Auto") {
        match find_text(members, "info") {
            Some(info) => Ok(DisplayInfo::Auto { info }),
            None => Err(DecodeError::Malformed),
        }
    } else if same_text(kind, "ModuleContents") {
        Ok(DisplayInfo::ModuleContents)
    } else if same_text(kind, "SearchAbout") {
        match find_text(members, "search") {
            Some(search) => Ok(DisplayInfo::SearchAbout { search }),
            None => Err(DecodeError::Malformed),
        }
    } else if same_text(kind, "WhyInScope") {
        Ok(DisplayInfo::WhyInScope)
    } else if same_text(kind, "NormalForm") {
        Ok(DisplayInfo::NormalForm)
    } else if same_text(kind, "InferredType") {
        Ok(DisplayInfo::InferredType)
    } else if same_text(kind, "Context") {
        match find_u32(members, "interactionPoint") {
            Some(interaction_point) => Ok(DisplayInfo::Context { interaction_point }),
            None => Err(DecodeError::Malformed),
        }
    } else if same_text(kind, "Version") {
        match find_text(members, "version") {
            Some(version) => Ok(DisplayInfo::Version { version }),
            None => Err(DecodeError::Malformed),
        }
    } else if same_text(kind, "GoalSpecific") {
        decode_goal_specific(members)
    } else {
        Err(DecodeError::UnknownKind)
    }
}

/// Reads a display information from a JSON value.
pub fn decode_display_info(j: &Json) -> (r: Result<DisplayInfo, DecodeError>)
    ensures
        is_display_info(r, decoded_display_info(j@)),
{
    match j {
        Json::Object(members) => {
            proof {
                lemma_object_view(*members);
            }
            match find_text(members, "kind") {
                Some(kind) => decode_display_info_of(kind.as_str(), members),
                None => Err(DecodeError::MissingKind),
            }
        },
        _ => Err(DecodeError::NotAnObject),
    }
}

fn decode_highlighting_info(members: &Vec<(String, Json)>) -> (r: Result<Resp, DecodeError>)
    ensures
        is_resp(r, decoded_highlighting_info(member_values(members@))),
{
    match (find_text(members, "filepath"), find_bool(members, "direct")) {
        (Some(filepath), Some(direct)) => Ok(Resp::HighlightingInfo { filepath, direct }),
        _ => Err(DecodeError::Malformed),
    }
}

fn decode_status_resp(members: &Vec<(String, Json)>) -> (r: Result<Resp, DecodeError>)
    ensures
        is_resp(r, decoded_status_resp(member_values(members@))),
{
    match find(members, "status") {
        Some(inner) => match decode_status(inner) {
            Some(status) => Ok(Resp::Status { status }),
            None => Err(DecodeError::Malformed),
        },
        None => Err(DecodeError::Malformed),
    }
}

fn decode_jump_to_error(members: &Vec<(String, Json)>) -> (r: Result<Resp, DecodeError>)
    ensures
        is_resp(r, decoded_jump_to_error(member_values(members@))),
{
    match (find_text(members, "filepath"), find_i32(members, "position")) {
        (Some(filepath), Some(position)) => Ok(Resp::JumpToError { filepath, position }),
        _ => Err(DecodeError::Malformed),
    }
}

fn decode_interaction_points(members: &Vec<(String, Json)>) -> (r: Result<Resp, DecodeError>)
    ensures
        is_resp(r, decoded_interaction_points(member_values(members@))),
{
    match find_u32s(members, "interactionPoints") {
        Some(interaction_points) => Ok(Resp::InteractionPoints { interaction_points }),
        None => Err(DecodeError::Malformed),
    }
}

fn decode_give_action(members: &Vec<(String, Json)>) -> (r: Result<Resp, DecodeError>)
    ensures
        is_resp(r, decoded_give_action(member_values(members@))),
{
    match (find_bool(members, "giveResult"), find_u32(members, "interactionPoint")) {
        (Some(give_result), Some(interaction_point)) => Ok(
            Resp::GiveAction { give_result, interaction_point },
        ),
        _ => Err(DecodeError::Malformed),
    }
}

fn find_make_case(members: &Vec<(String, Json)>) -> (r: Option<MakeCase>)
    ensures
        r == member_make_case(member_values(members@)),
{
    match find_text(members, "variant") {
        Some(name) => decode_make_case(name.as_str()),
        None => None,
    }
}

fn decode_make_case_resp(members: &Vec<(String, Json)>) -> (r: Result<Resp, DecodeError>)
    ensures
        is_resp(r, decoded_make_case_resp(member_values(members@))),
{
    match (
        find_make_case(members),
        find_u32(members, "interactionPoint"),
        find_texts(members, "clauses"),
    ) {
        (Some(variant), Some(interaction_point), Some(clauses)) => Ok(
            Resp::MakeCase { variant, interaction_point, clauses },
        ),
        _ => Err(DecodeError::Malformed),
    }
}

fn decode_display_info_resp(members: &Vec<(String, Json)>) -> (r: Result<Resp, DecodeError>)
    ensures
        is_resp(r, decoded_display_info_resp(member_values(members@))),
{
    match find(members, "info") {
        Some(inner) => match decode_display_info(inner) {
            Ok(info) => Ok(Resp::DisplayInfo { info }),
            Err(e) => Err(e),
        },
        None => Err(DecodeError::Malformed),
    }
}

fn decode_running_info(members: &Vec<(String, Json)>) -> (r: Result<Resp, DecodeError>)
    ensures
        is_resp(r, decoded_running_info(member_values(members@))),
{
    match (find_i32(members, "debugLevel"), find_text(members, "message")) {
        (Some(debug_level), Some(message)) => Ok(Resp::RunningInfo { debug_level, message }),
        _ => Err(DecodeError::Malformed),
    }
}

fn decode_resp_of(kind: &str, members: &Vec<(String, Json)>) -> (r: Result<Resp, DecodeError>)
    ensures
        is_resp(r, decoded_resp_of(kind@, member_values(members@))),
{
    if same_text(kind, "HighlightingInfo") {
        decode_highlighting_info(members)
    } else if same_text(kind, "Status") {
        decode_status_resp(members)
    } else if same_text(kind, "JumpToError") {
        decode_jump_to_error(members)
    } else if same_text(kind, "InteractionPoints") {
        decode_interaction_points(members)
    } else if same_text(kind, "GiveAction") {
        decode_give_action(members)
    } else if same_text(kind, "MakeCase") {
        decode_make_case_resp(members)
    } else if same_text(kind, "SolveAll") {
        Ok(Resp::SolveAll)
    } else if same_text(kind, "DisplayInfo") {
        decode_display_info_resp(members)
    } else if same_text(kind, "RunningInfo") {
        decode_running_info(members)
    } else if same_text(kind, "ClearRunningInfo") {
        Ok(Resp::ClearRunningInfo)
    } else if same_text(kind, "ClearHighlighting") {
        Ok(Resp::ClearHighlighting)
    } else if same_text(kind, "DoneAborting") {
        Ok(Resp::DoneAborting)
    } else {
        Err(DecodeError::UnknownKind)
    }
}

/// Reads a response from a JSON value.
///
/// The value has to be an object with a string `kind` that names a
/// response, and with the members that this response has fields for, each
/// of the field's type. Other members are passed over.
pub fn decode_json(j: &Json) -> (r: Result<Resp, DecodeError>)
    ensures
        is_resp(r, decoded(j@)),
{
    match j {
        Json::Object(members) => {
            proof {
                lemma_object_view(*members);
            }
            match find_text(members, "kind") {
                Some(kind) => decode_resp_of(kind.as_str(), members),
                None => Err(DecodeError::MissingKind),
            }
        },
        _ => Err(DecodeError::NotAnObject),
    }
}

/// Reads a response from one line of Agda's output.
pub fn decode(line: &str) -> (r: Result<Resp, DecodeError>)
    ensures
        is_resp(r, decoded_line(line@)),
{
    match parse(line) {
        Some(j) => decode_json(&j),
        None => Err(DecodeError::Syntax),
    }
}

/// The one member `kind` that every response and information starts with.
pub open spec fn tagged(kind: Seq<char>) -> Seq<(Seq<char>, JsonValue)> {
    Seq::empty().push(("kind"@, JsonValue::Text(kind)))
}

/// The name of a variant of `MakeCase`.
pub open spec fn make_case_name(variant: MakeCase) -> Seq<char> {
    match variant {
        MakeCase::Function => "Function"@,
        MakeCase::ExtendedLambda => "ExtendedLambda"@,
    }
}

/// A status as a JSON object.
pub open spec fn status_json(status: Status) -> JsonValue {
    JsonValue::Object(
        Seq::empty().push(
            ("showImplicitArguments"@, JsonValue::Bool(status.show_implicit_arguments)),
        ).push(("checked"@, JsonValue::Bool(status.checked))),
    )
}

/// An integer as a JSON number.
pub open spec fn integer_json(n: int) -> JsonValue {
    JsonValue::Number(integer(n))
}

/// A goal information as a JSON object.
pub open spec fn goal_info_json(info: GoalInfoView) -> JsonValue {
    match info {
        GoalInfoView::CurrentGoal { the_type } => JsonValue::Object(
            tagged("CurrentGoal"@).push(("theType"@, JsonValue::Text(the_type))),
        ),
    }
}

/// A display information as a JSON object: the kind, then the fields in
/// the order in which the type lists them.
pub open spec fn display_info_json(info: DisplayInfoView) -> JsonValue {
    JsonValue::Object(
        match info {
            DisplayInfoView::CompilationOk { warnings, errors } => tagged("CompilationOk"@).push(
                ("warnings"@, JsonValue::Text(warnings)),
            ).push(("errors"@, JsonValue::Text(errors))),
            DisplayInfoView::Constraints => tagged("Constraints"@),
            DisplayInfoView::AllGoalsWarnings { warnings, errors } => tagged(
                "AllGoalsWarnings"@,
            ).push(("goals"@, JsonValue::Null)).push(("warnings"@, JsonValue::Text(warnings))).push(
                ("errors"@, JsonValue::Text(errors)),
            ),
            DisplayInfoView::Time { time } => tagged("Time"@).push(
                ("time"@, JsonValue::Text(time)),
            ),
            DisplayInfoView::Error { message } => tagged("Error"@).push(
                ("message"@, JsonValue::Text(message)),
            ),
            DisplayInfoView::IntroNotFound => tagged("IntroNotFound"@),
            DisplayInfoView::IntroConstructorUnknown => tagged("IntroConstructorUnknown"@),
            DisplayInfoView::Auto { info } => tagged("Auto"@).push(
                ("info"@, JsonValue::Text(info)),
            ),
            DisplayInfoView::ModuleContents => tagged("ModuleContents"@),
            DisplayInfoView::SearchAbout { search } => tagged("SearchAbout"@).push(
                ("search"@, JsonValue::Text(search)),
            ),
            DisplayInfoView::WhyInScope => tagged("WhyInScope"@),
            DisplayInfoView::NormalForm => tagged("NormalForm"@),
            DisplayInfoView::InferredType => tagged("InferredType"@),
            DisplayInfoView::Context { interaction_point } => tagged("Context"@).push(
                ("interactionPoint"@, integer_json(interaction_point as int)),
            ),
            DisplayInfoView::Version { version } => tagged("Version"@).push(
                ("version"@, JsonValue::Text(version)),
            ),
            DisplayInfoView::GoalSpecific { interaction_point, goal_info } => tagged(
                "GoalSpecific"@,
            ).push(("interactionPoint"@, integer_json(interaction_point as int))).push(
                ("goalInfo"@, goal_info_json(goal_info)),
            ),
        },
    )
}

/// A response as a JSON object: the kind, then the fields in the order in
/// which the type lists them.
pub open spec fn resp_json(resp: RespView) -> JsonValue {
    JsonValue::Object(
        match resp {
            RespView::HighlightingInfo { filepath, direct } => tagged("HighlightingInfo"@).push(
                ("filepath"@, JsonValue::Text(filepath)),
            ).push(("direct"@, JsonValue::Bool(direct))),
            RespView::Status { status } => tagged("Status"@).push(
                ("status"@, status_json(status)),
            ),
            RespView::JumpToError { filepath, position } => tagged("JumpToError"@).push(
                ("filepath"@, JsonValue::Text(filepath)),
            ).push(("position"@, integer_json(position as int))),
            RespView::InteractionPoints { interaction_points } => tagged(
                "InteractionPoints"@,
            ).push(("interactionPoints"@, JsonValue::Array(number_items(interaction_points)))),
            RespView::GiveAction { give_result, interaction_point } => tagged("GiveAction"@).push(
                ("giveResult"@, JsonValue::Bool(give_result)),
            ).push(("interactionPoint"@, integer_json(interaction_point as int))),
            RespView::MakeCase { variant, interaction_point, clauses } => tagged(
                "MakeCase"@,
            ).push(("variant"@, JsonValue::Text(make_case_name(variant)))).push(
                ("interactionPoint"@, integer_json(interaction_point as int)),
            ).push(("clauses"@, JsonValue::Array(text_items(clauses)))),
            RespView::SolveAll => tagged("SolveAll"@),
            RespView::DisplayInfo { info } => tagged("DisplayInfo"@).push(
                ("info"@, display_info_json(info)),
            ),
            RespView::RunningInfo { debug_level, message } => tagged("RunningInfo"@).push(
                ("debugLevel"@, integer_json(debug_level as int)),
            ).push(("message"@, JsonValue::Text(message))),
            RespView::ClearRunningInfo => tagged("ClearRunningInfo"@),
            RespView::ClearHighlighting => tagged("ClearHighlighting"@),
            RespView::DoneAborting => tagged("DoneAborting"@),
        },
    )
}

fn start(kind: &str) -> (r: Vec<(String, Json)>)
    ensures
        member_values(r@) == tagged(kind@),
{
    let mut members: Vec<(String, Json)> = Vec::new();
    assert(member_values(members@) == Seq::<(Seq<char>, JsonValue)>::empty());
    add_member(&mut members, "kind", text(kind));
    members
}

impl MakeCase {
    /// The variant's name.
    pub fn as_str(self) -> (r: &'static str)
        ensures
            r@ == make_case_name(self),
    {
        match self {
            MakeCase::Function => "Function",
            MakeCase::ExtendedLambda => "ExtendedLambda",
        }
    }
}

impl Status {
    /// The status as a JSON object.
    pub fn to_json(&self) -> (r: Json)
        ensures
            r@ == status_json(*self),
    {
        let mut members: Vec<(String, Json)> = Vec::new();
        assert(member_values(members@) == Seq::<(Seq<char>, JsonValue)>::empty());
        add_member(&mut members, "showImplicitArguments", Json::Bool(self.show_implicit_arguments));
        add_member(&mut members, "checked", Json::Bool(self.checked));
        object(members)
    }

    /// The status as JSON text.
    pub fn to_json_text(&self) -> (r: String)
        ensures
            r@ == crate::json::rendered(status_json(*self)),
    {
        self.to_json().render()
    }
}

impl GoalInfo {
    /// The goal information as a JSON object.
    pub fn to_json(&self) -> (r: Json)
        ensures
            r@ == goal_info_json(self@),
    {
        match self {
            GoalInfo::CurrentGoal { the_type } => {
                let mut members = start("CurrentGoal");
                add_member(&mut members, "theType", text(the_type.as_str()));
                object(members)
            },
        }
    }
}

impl DisplayInfo {
    /// The display information as a JSON object.
    pub fn to_json(&self) -> (r: Json)
        ensures
            r@ == display_info_json(self@),
    {
        match self {
            DisplayInfo::CompilationOk { warnings, errors } => {
                let mut members = start("CompilationOk");
                add_member(&mut members, "warnings", text(warnings.as_str()));
                add_member(&mut members, "errors", text(errors.as_str()));
                object(members)
            },
            DisplayInfo::Constraints => object(start("Constraints")),
            DisplayInfo::AllGoalsWarnings { warnings, errors } => {
                let mut members = start("AllGoalsWarnings");
                add_member(&mut members, "goals", Json::Null);
                add_member(&mut members, "warnings", text(warnings.as_str()));
                add_member(&mut members, "errors", text(errors.as_str()));
                object(members)
            },
            DisplayInfo::Time { time } => {
                let mut members = start("Time");
                add_member(&mut members, "time", text(time.as_str()));
                object(members)
            },
            DisplayInfo::Error { message } => {
                let mut members = start("Error");
                add_member(&mut members, "message", text(message.as_str()));
                object(members)
            },
            DisplayInfo::IntroNotFound => object(start("IntroNotFound")),
            DisplayInfo::IntroConstructorUnknown => object(start("IntroConstructorUnknown")),
            DisplayInfo::Auto { info } => {
                let mut members = start("Auto");
                add_member(&mut members, "info", text(info.as_str()));
                object(members)
            },
            DisplayInfo::ModuleContents => object(start("ModuleContents")),
            DisplayInfo::SearchAbout { search } => {
                let mut members = start("SearchAbout");
                add_member(&mut members, "search", text(search.as_str()));
                object(members)
            },
            DisplayInfo::WhyInScope => object(start("WhyInScope")),
            DisplayInfo::NormalForm => object(start("NormalForm")),
            DisplayInfo::InferredType => object(start("InferredType")),
            DisplayInfo::Context { interaction_point } => {
                let mut members = start("Context");
                add_member(&mut members, "interactionPoint", number(*interaction_point as i64));
                object(members)
            },
            DisplayInfo::Version { version } => {
                let mut members = start("Version");
                add_member(&mut members, "version", text(version.as_str()));
                object(members)
            },
            DisplayInfo::GoalSpecific { interaction_point, goal_info } => {
                let mut members = start("GoalSpecific");
                add_member(&mut members, "interactionPoint", number(*interaction_point as i64));
                add_member(&mut members, "goalInfo", goal_info.to_json());
                object(members)
            },
        }
    }
}

impl Resp {
    /// The response as a JSON object.
    pub fn to_json(&self) -> (r: Json)
        ensures
            r@ == resp_json(self@),
    {
        match self {
            Resp::HighlightingInfo { filepath, direct } => {
                let mut members = start("HighlightingInfo");
                add_member(&mut members, "filepath", text(filepath.as_str()));
                add_member(&mut members, "direct", Json::Bool(*direct));
                object(members)
            },
            Resp::Status { status } => {
                let mut members = start("Status");
                add_member(&mut members, "status", status.to_json());
                object(members)
            },
            Resp::JumpToError { filepath, position } => {
                let mut members = start("JumpToError");
                add_member(&mut members, "filepath", text(filepath.as_str()));
                add_member(&mut members, "position", number(*position as i64));
                object(members)
            },
            Resp::InteractionPoints { interaction_points } => {
                let mut members = start("InteractionPoints");
                add_member(&mut members, "interactionPoints", numbers(interaction_points));
                object(members)
            },
            Resp::GiveAction { give_result, interaction_point } => {
                let mut members = start("GiveAction");
                add_member(&mut members, "giveResult", Json::Bool(*give_result));
                add_member(&mut members, "interactionPoint", number(*interaction_point as i64));
                object(members)
            },
            Resp::MakeCase { variant, interaction_point, clauses } => {
                let mut members = start("MakeCase");
                add_member(&mut members, "variant", text(variant.as_str()));
                add_member(&mut members, "interactionPoint", number(*interaction_point as i64));
                add_member(&mut members, "clauses", strings(clauses));
                object(members)
            },
            Resp::SolveAll => object(start("SolveAll")),
            Resp::DisplayInfo { info } => {
                let mut members = start("DisplayInfo");
                add_member(&mut members, "info", info.to_json());
                object(members)
            },
            Resp::RunningInfo { debug_level, message } => {
                let mut members = start("RunningInfo");
                add_member(&mut members, "debugLevel", number(*debug_level as i64));
                add_member(&mut members, "message", text(message.as_str()));
                object(members)
            },
            Resp::ClearRunningInfo => object(start("ClearRunningInfo")),
            Resp::ClearHighlighting => object(start("ClearHighlighting")),
            Resp::DoneAborting => object(start("DoneAborting")),
        }
    }

    /// The response as one line of JSON text, without a line end.
    pub fn to_json_text(&self) -> (r: String)
        ensures
            r@ == crate::json::rendered(resp_json(self@)),
    {
        self.to_json().render()
    }
}

/// The display information that a response carries, if it carries one.
pub open spec fn display_info_in(resp: RespView) -> Option<DisplayInfoView> {
    match resp {
        RespView::DisplayInfo { info } => Some(info),
        _ => None,
    }
}

/// What a response says of the goals of the file that was loaded: the
/// list of its interaction points, or the message of the error that
/// Agda reports in place of them. Nothing, where it says neither.
pub open spec fn goals_in(resp: RespView) -> Option<Result<Seq<InteractionPoint>, Seq<char>>> {
    match resp {
        RespView::InteractionPoints { interaction_points } => Some(Ok(interaction_points)),
        RespView::DisplayInfo { info: DisplayInfoView::Error { message } } => Some(Err(message)),
        _ => None,
    }
}

impl Resp {
    /// The display information that the response carries. A caller that
    /// waits for one passes over the responses that carry none.
    pub fn into_display_info(self) -> (r: Option<DisplayInfo>)
        ensures
            r is Some <==> display_info_in(self@) is Some,
            r matches Some(info) ==> display_info_in(self@) == Some(info@),
    {
        match self {
            Resp::DisplayInfo { info } => Some(info),
            _ => None,
        }
    }

    /// What the response says of the goals of the file that was loaded. A
    /// caller that waits for the goals passes over the responses that say
    /// nothing of them.
    pub fn into_goals(self) -> (r: Option<Result<Vec<InteractionPoint>, String>>)
        ensures
            match r {
                Some(Ok(ids)) => goals_in(self@) == Some(
                    Ok::<Seq<InteractionPoint>, Seq<char>>(ids@),
                ),
                Some(Err(message)) => goals_in(self@) == Some(
                    Err::<Seq<InteractionPoint>, Seq<char>>(message@),
                ),
                None => goals_in(self@) is None,
            },
    {
        match self {
            Resp::InteractionPoints { interaction_points } => Some(Ok(interaction_points)),
            Resp::DisplayInfo { info: DisplayInfo::Error { message } } => Some(Err(message)),
            _ => None,
        }
    }
}

} // verus!
