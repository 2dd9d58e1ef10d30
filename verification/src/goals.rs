//! Reloading the file and listing its goals.
//!
//! The file is loaded; Agda answers with the list of its interaction
//! points, or with an error. Then the type of each goal is asked for, one
//! goal at a time and in the order of that list: what comes back carries
//! no mark of the question it answers, so the next question waits for the
//! answer to the one before.
//!
//! A [`Reload`] says what to do next after each response. Writing the
//! command and reading the next response is the caller's part.

use crate::base::{InteractionPoint, Rewrite};
use crate::cmd::{Cmd, CmdView, GoalInput, GoalInputView, RangeView};
use crate::resp::{
    goals_in, DisplayInfo, DisplayInfoView, GoalInfo, GoalInfoView, Resp, RespView,
};
use crate::text::{decimal, push_decimal, texts};
use vstd::prelude::*;
use vstd::string::StringExecFns;

verus! {

/// How a reload ended.
#[derive(Debug, Clone, PartialEq, Eq)]
pub enum Report {
    /// The file was loaded and has no goals.
    NoGoals,
    /// The file was loaded; these are its goals and their types, in the
    /// order in which Agda listed the goals.
    Goals(Vec<(InteractionPoint, String)>),
    /// Agda refused the file, with this message.
    Failed(String),
}

/// What a [`Report`] says.
pub enum ReportView {
    NoGoals,
    Goals(Seq<(InteractionPoint, Seq<char>)>),
    Failed(Seq<char>),
}

/// What each goal and type of `goals` says.
pub open spec fn goal_views(goals: Seq<(InteractionPoint, String)>) -> Seq<
    (InteractionPoint, Seq<char>),
> {
    Seq::new(goals.len(), |k: int| (goals[k].0, goals[k].1@))
}

impl View for Report {
    type V = ReportView;

    open spec fn view(&self) -> ReportView {
        match self {
            Report::NoGoals => ReportView::NoGoals,
            Report::Goals(goals) => ReportView::Goals(goal_views(goals@)),
            Report::Failed(message) => ReportView::Failed(message@),
        }
    }
}

/// A reload under way.
#[derive(Debug, PartialEq, Eq)]
pub struct Reload {
    /// Whether the list of goals has come in.
    asking: bool,
    /// The goals, in the order in which Agda listed them.
    ids: Vec<InteractionPoint>,
    /// The types of the first goals of `ids`, as far as they are known.
    types: Vec<String>,
}

/// What a [`Reload`] says.
pub enum ReloadView {
    /// The file is being loaded: the list of goals has not come in.
    Loading,
    /// The goals are `ids`; the types of the first of them are `types`,
    /// and the type of the next one has been asked for.
    Asking { ids: Seq<InteractionPoint>, types: Seq<Seq<char>> },
}

impl View for Reload {
    type V = ReloadView;

    closed spec fn view(&self) -> ReloadView {
        if self.asking {
            ReloadView::Asking { ids: self.ids@, types: texts(self.types@) }
        } else {
            ReloadView::Loading
        }
    }
}

/// What to do next in a reload.
#[derive(Debug, PartialEq, Eq)]
pub enum Next {
    /// Write this command, then read a response and hand it to the
    /// reload.
    Send(Reload, Cmd),
    /// Read a response and hand it to the reload.
    Read(Reload),
    /// The reload is over.
    Done(Report),
}

/// What a [`Next`] says.
pub enum NextView {
    Send(ReloadView, CmdView),
    Read(ReloadView),
    Done(ReportView),
}

impl View for Next {
    type V = NextView;

    open spec fn view(&self) -> NextView {
        match self {
            Next::Send(reload, command) => NextView::Send(reload@, command@),
            Next::Read(reload) => NextView::Read(reload@),
            Next::Done(report) => NextView::Done(report@),
        }
    }
}

/// Whether a state can come up: while types are asked for, at least one
/// goal's type is still missing.
pub open spec fn possible(state: ReloadView) -> bool {
    match state {
        ReloadView::Loading => true,
        ReloadView::Asking { ids, types } => types.len() < ids.len(),
    }
}

/// The command that loads `file`.
pub open spec fn load(file: Seq<char>) -> CmdView {
    CmdView::Load { path: file, flags: Seq::empty() }
}

/// The command that asks for the type of the goal `id`.
pub open spec fn query(id: InteractionPoint) -> CmdView {
    CmdView::GoalType {
        rewrite: Rewrite::Instantiated,
        input: GoalInputView { id, range: RangeView::NoRange, code: Seq::empty() },
    }
}

/// The first goals of `ids` with their types `types`.
pub open spec fn answers(ids: Seq<InteractionPoint>, types: Seq<Seq<char>>) -> Seq<
    (InteractionPoint, Seq<char>),
> {
    Seq::new(types.len(), |k: int| (ids[k], types[k]))
}

/// The type that `resp` gives for a goal, if it gives one.
pub open spec fn goal_type_in(resp: RespView) -> Option<Seq<char>> {
    match resp {
        RespView::DisplayInfo {
            info: DisplayInfoView::GoalSpecific {
                goal_info: GoalInfoView::CurrentGoal { the_type },
                ..
            },
        } => Some(the_type),
        _ => None,
    }
}

/// What the response `resp` means to a reload in `state`.
///
/// While the file is loaded, the list of goals starts the questions, or
/// ends the reload where it is empty; an error ends the reload. While
/// types are asked for, the type of a goal is taken as the answer to the
/// question that is open. Every other response is passed over.
pub open spec fn stepped(state: ReloadView, resp: RespView) -> NextView {
    match state {
        ReloadView::Loading => match goals_in(resp) {
            Some(Ok(ids)) => if ids.len() == 0 {
                NextView::Done(ReportView::NoGoals)
            } else {
                NextView::Send(ReloadView::Asking { ids, types: Seq::empty() }, query(ids[0]))
            },
            Some(Err(message)) => NextView::Done(ReportView::Failed(message)),
            None => NextView::Read(state),
        },
        ReloadView::Asking { ids, types } => match goal_type_in(resp) {
            Some(the_type) => {
                let known = types.push(the_type);
                if known.len() >= ids.len() {
                    NextView::Done(ReportView::Goals(answers(ids, known)))
                } else {
                    NextView::Send(
                        ReloadView::Asking { ids, types: known },
                        query(ids[known.len() as int]),
                    )
                }
            },
            None => NextView::Read(state),
        },
    }
}

fn pair_up(ids: Vec<InteractionPoint>, types: Vec<String>) -> (r: Vec<(InteractionPoint, String)>)
    requires
        types.len() <= ids.len(),
    ensures
        goal_views(r@) == answers(ids@, texts(types@)),
{
    let mut out: Vec<(InteractionPoint, String)> = Vec::new();
    let mut i: usize = 0;
    while i < types.len()
        invariant
            i <= types.len() <= ids.len(),
            out.len() == i,
            forall|k: int| 0 <= k < i ==> (#[trigger] out[k]).0 == ids[k] && out[k].1@ == types[k]@,
        decreases types.len() - i,
    {
        out.push((ids[i], types[i].clone()));
        i += 1;
    }
    assert(goal_views(out@) =~= answers(ids@, texts(types@)));
    out
}

fn goal_type_of(resp: Resp) -> (r: Option<String>)
    ensures
        r is Some <==> goal_type_in(resp@) is Some,
        r matches Some(the_type) ==> goal_type_in(resp@) == Some(the_type@),
{
    match resp {
        Resp::DisplayInfo {
            info: DisplayInfo::GoalSpecific { goal_info: GoalInfo::CurrentGoal { the_type }, .. },
        } => Some(the_type),
        _ => None,
    }
}

impl Reload {
    /// While types are asked for, at least one goal's type is still
    /// missing.
    #[verifier::type_invariant]
    spec fn well_formed(self) -> bool {
        self.asking ==> self.types.len() < self.ids.len()
    }

    /// A reload of `file`, and the command to write first.
    pub fn start(file: &str) -> (r: (Reload, Cmd))
        ensures
            r.0@ == ReloadView::Loading,
            r.1@ == load(file@),
    {
        let reload = Reload { asking: false, ids: Vec::new(), types: Vec::new() };
        (reload, Cmd::load_simple(String::from_str(file)))
    }

    /// What to do next, now that `resp` has come in.
    pub fn step(self, resp: Resp) -> (r: Next)
        ensures
            r@ == stepped(self@, resp@),
    {
        proof {
            use_type_invariant(&self);
        }
        if !self.asking {
            match resp.into_goals() {
                Some(Ok(ids)) => {
                    if ids.len() == 0 {
                        Next::Done(Report::NoGoals)
                    } else {
                        let first = ids[0];
                        let next = Reload { asking: true, ids, types: Vec::new() };
                        assert(texts(next.types@) =~= Seq::<Seq<char>>::empty());
                        Next::Send(next, Cmd::goal_type(GoalInput::simple(first)))
                    }
                },
                Some(Err(message)) => Next::Done(Report::Failed(message)),
                None => Next::Read(self),
            }
        } else {
            let ghost before = texts(self.types@);
            match goal_type_of(resp) {
                Some(the_type) => {
                    let Reload { asking, ids, mut types } = self;
                    types.push(the_type);
                    assert(texts(types@) =~= before.push(the_type@));
                    if types.len() >= ids.len() {
                        Next::Done(Report::Goals(pair_up(ids, types)))
                    } else {
                        let id = ids[types.len()];
                        Next::Send(
                            Reload { asking: true, ids, types },
                            Cmd::goal_type(GoalInput::simple(id)),
                        )
                    }
                },
                None => Next::Read(self),
            }
        }
    }
}

/// The line that shows one goal and its type: `?0: A -> B`.
pub open spec fn goal_line(goal: (InteractionPoint, Seq<char>)) -> Seq<char> {
    "?"@ + decimal(goal.0 as nat) + ": "@ + goal.1
}

/// The lines that show a report: a heading, then one line for each goal,
/// or the words that there are none, or Agda's message as it came.
pub open spec fn report_lines(report: ReportView) -> Seq<Seq<char>> {
    match report {
        ReportView::NoGoals => seq!["Goals:"@, "No goals."@],
        ReportView::Goals(goals) => seq!["Goals:"@] + Seq::new(
            goals.len(),
            |k: int| goal_line(goals[k]),
        ),
        ReportView::Failed(message) => seq!["Errors:"@, message],
    }
}

impl Report {
    /// Whether the report is of a failure, to be shown as an error.
    pub fn is_failure(&self) -> (r: bool)
        ensures
            r == (self@ is Failed),
    {
        match self {
            Report::Failed(_) => true,
            _ => false,
        }
    }

    /// The lines to show, in order.
    pub fn lines(&self) -> (r: Vec<String>)
        ensures
            texts(r@) == report_lines(self@),
    {
        let mut out: Vec<String> = Vec::new();
        match self {
            Report::NoGoals => {
                out.push(String::from_str("Goals:"));
                out.push(String::from_str("No goals."));
                assert(texts(out@) =~= report_lines(self@));
            },
            Report::Goals(goals) => {
                out.push(String::from_str("Goals:"));
                let ghost all = goal_views(goals@);
                let mut i: usize = 0;
                while i < goals.len()
                    invariant
                        i <= goals.len(),
                        all == goal_views(goals@),
                        out.len() == i + 1,
                        out[0]@ == "Goals:"@,
                        forall|k: int| 0 <= k < i ==> (#[trigger] out[k + 1])@ == goal_line(all[k]),
                    decreases goals.len() - i,
                {
                    let mut line = String::from_str("?");
                    push_decimal(&mut line, goals[i].0 as u64);
                    line.append(": ");
                    line.append(goals[i].1.as_str());
                    out.push(line);
                    i += 1;
                }
                proof {
                    let shown = report_lines(self@);
                    assert(shown.len() == out.len());
                    assert forall|k: int| 0 <= k < shown.len() implies shown[k] == texts(out@)[k] by {
                        if k > 0 {
                            assert(out[(k - 1) + 1]@ == goal_line(all[k - 1]));
                        }
                    }
                    assert(texts(out@) =~= shown);
                }
            },
            Report::Failed(message) => {
                out.push(String::from_str("Errors:"));
                out.push(message.clone());
                assert(texts(out@) =~= report_lines(self@));
            },
        }
        out
    }
}

/// The goals that a report leaves open: those it lists, and none where
/// the file has none or was refused.
pub open spec fn open_goals(report: ReportView) -> Seq<InteractionPoint> {
    match report {
        ReportView::Goals(goals) => Seq::new(goals.len(), |k: int| goals[k].0),
        ReportView::NoGoals => Seq::empty(),
        ReportView::Failed(_) => Seq::empty(),
    }
}

/// The goals of the file as of the last reload, in the order in which
/// Agda listed them.
#[derive(Debug, Clone, PartialEq, Eq)]
pub struct Goals {
    ids: Vec<InteractionPoint>,
}

impl View for Goals {
    type V = Seq<InteractionPoint>;

    closed spec fn view(&self) -> Seq<InteractionPoint> {
        self.ids@
    }
}

impl Goals {
    /// No goals: what is known before the first reload.
    pub fn new() -> (r: Self)
        ensures
            r@ == Seq::<InteractionPoint>::empty(),
    {
        Goals { ids: Vec::new() }
    }

    /// Takes the goals of a reload in place of those that were known:
    /// nothing of the earlier ones stays.
    pub fn replace(&mut self, report: &Report)
        ensures
            final(self)@ == open_goals(report@),
    {
        let mut ids: Vec<InteractionPoint> = Vec::new();
        match report {
            Report::Goals(goals) => {
                let mut i: usize = 0;
                while i < goals.len()
                    invariant
                        i <= goals.len(),
                        ids.len() == i,
                        forall|k: int| 0 <= k < i ==> #[trigger] ids[k] == goals[k].0,
                    decreases goals.len() - i,
                {
                    ids.push(goals[i].0);
                    i += 1;
                }
                assert(ids@ =~= open_goals(report@));
            },
            _ => {},
        }
        self.ids = ids;
    }

    /// The goals, in order.
    pub fn ids(&self) -> (r: &Vec<InteractionPoint>)
        ensures
            r@ == self@,
    {
        &self.ids
    }

    /// Whether `id` is one of the goals.
    pub fn contains(&self, id: InteractionPoint) -> (r: bool)
        ensures
            r == self@.contains(id),
    {
        let mut i: usize = 0;
        while i < self.ids.len()
            invariant
                i <= self.ids.len(),
                forall|k: int| 0 <= k < i ==> self.ids[k] != id,
            decreases self.ids.len() - i,
        {
            if self.ids[i] == id {
                return true;
            }
            i += 1;
        }
        false
    }
}

/// What a reload in `state` does with the responses `resps`, handed to it
/// one after another: the commands it has written, in order, and the
/// report it ends with, if it comes to an end.
pub open spec fn driven(state: ReloadView, resps: Seq<RespView>) -> (
    Seq<CmdView>,
    Option<ReportView>,
)
    decreases resps.len(),
{
    if resps.len() == 0 {
        (Seq::empty(), None)
    } else {
        match stepped(state, resps[0]) {
            NextView::Send(next, command) => {
                let (sent, report) = driven(next, resps.drop_first());
                (seq![command] + sent, report)
            },
            NextView::Read(next) => driven(next, resps.drop_first()),
            NextView::Done(report) => (Seq::empty(), Some(report)),
        }
    }
}

/// The questions for the goals `ids[from..]`, in order.
pub open spec fn queries(ids: Seq<InteractionPoint>, from: int) -> Seq<CmdView> {
    Seq::new((ids.len() - from) as nat, |k: int| query(ids[from + k]))
}

/// The types of goals that `resps` give, in the order in which they come.
pub open spec fn goal_types_in(resps: Seq<RespView>) -> Seq<Seq<char>>
    decreases resps.len(),
{
    if resps.len() == 0 {
        Seq::empty()
    } else {
        match goal_type_in(resps[0]) {
            Some(the_type) => seq![the_type] + goal_types_in(resps.drop_first()),
            None => goal_types_in(resps.drop_first()),
        }
    }
}

/// What the first of `resps` that says anything of the goals says of
/// them.
pub open spec fn first_goals(resps: Seq<RespView>) -> Option<
    Result<Seq<InteractionPoint>, Seq<char>>,
>
    decreases resps.len(),
{
    if resps.len() == 0 {
        None
    } else {
        match goals_in(resps[0]) {
            Some(goals) => Some(goals),
            None => first_goals(resps.drop_first()),
        }
    }
}

/// The responses that follow the first of `resps` that says anything of
/// the goals.
pub open spec fn after_first_goals(resps: Seq<RespView>) -> Seq<RespView>
    decreases resps.len(),
{
    if resps.len() == 0 {
        resps
    } else if goals_in(resps[0]) is Some {
        resps.drop_first()
    } else {
        after_first_goals(resps.drop_first())
    }
}

/// While types are asked for, one question is written for each goal, in
/// the order of the list, and each only after the one before was answered.
///
/// Let `missing` be the number of goals whose type is not known, the one
/// that is asked for among them, and let `given` be the types that come
/// in. With fewer types than are missing the reload has not ended, and has
/// written the questions for as many further goals as types have come.
/// With enough types it has written the questions for all further goals,
/// and reports every goal of the list in the order of the list: the types
/// that were known, then those that came, each with the goal whose
/// question was open when it came.
pub proof fn lemma_asking_in_order(
    ids: Seq<InteractionPoint>,
    types: Seq<Seq<char>>,
    resps: Seq<RespView>,
)
    requires
        possible(ReloadView::Asking { ids, types }),
    ensures
        ({
            let given = goal_types_in(resps);
            let missing = ids.len() - types.len();
            let further = queries(ids, types.len() as int + 1);
            driven(ReloadView::Asking { ids, types }, resps) == (if given.len() >= missing {
                (further, Some(ReportView::Goals(answers(ids, types + given.take(missing)))))
            } else {
                (further.take(given.len() as int), None::<ReportView>)
            })
        }),
    decreases resps.len(),
{
    let state = ReloadView::Asking { ids, types };
    let given = goal_types_in(resps);
    let missing = ids.len() - types.len();
    let further = queries(ids, types.len() as int + 1);
    let (sent, report) = driven(state, resps);
    if resps.len() == 0 {
        assert(sent =~= further.take(0));
    } else {
        let rest = resps.drop_first();
        let later = goal_types_in(rest);
        match goal_type_in(resps[0]) {
            Some(the_type) => {
                let known = types.push(the_type);
                assert(given =~= seq![the_type] + later);
                if known.len() >= ids.len() {
                    assert(types + given.take(missing) =~= known);
                    assert(sent =~= further);
                } else {
                    lemma_asking_in_order(ids, known, rest);
                    let next = ReloadView::Asking { ids, types: known };
                    let command = query(ids[known.len() as int]);
                    let (sent_later, _) = driven(next, rest);
                    let further_later = queries(ids, known.len() as int + 1);
                    assert(sent == seq![command] + sent_later);
                    if later.len() >= missing - 1 {
                        assert(types + given.take(missing) =~= known + later.take(missing - 1));
                        assert(seq![command] + further_later =~= further);
                    } else {
                        assert(seq![command] + further_later.take(later.len() as int)
                            =~= further.take(given.len() as int));
                    }
                }
            },
            None => {
                lemma_asking_in_order(ids, types, rest);
            },
        }
    }
}

/// A reload asks for the type of each goal once, in the order in which
/// Agda listed the goals, and reports them in that order.
///
/// What a reload does depends on the first response that says anything of
/// the goals. Until there is one, nothing is written and the reload goes
/// on. If it is an error, the reload ends with that message as it came
/// and asks nothing. If it is an empty list, the reload ends with no
/// goals and asks nothing. If it is a list of goals, the questions are
/// written for the goals of the list, from the first on and in its order,
/// one more each time a type comes in; once as many types have come in as
/// there are goals, every goal has been asked for exactly once and the
/// reload ends with the goals of the list, in the order of the list, each
/// with the type that came in while its question was open.
pub proof fn lemma_reload_asks_in_order(resps: Seq<RespView>)
    ensures
        driven(ReloadView::Loading, resps) == (match first_goals(resps) {
            None => (Seq::<CmdView>::empty(), None::<ReportView>),
            Some(Err(message)) => (Seq::<CmdView>::empty(), Some(ReportView::Failed(message))),
            Some(Ok(ids)) => {
                let given = goal_types_in(after_first_goals(resps));
                if ids.len() == 0 {
                    (Seq::<CmdView>::empty(), Some(ReportView::NoGoals))
                } else if given.len() >= ids.len() {
                    (
                        queries(ids, 0),
                        Some(ReportView::Goals(answers(ids, given.take(ids.len() as int)))),
                    )
                } else {
                    (queries(ids, 0).take(given.len() as int + 1), None::<ReportView>)
                }
            },
        }),
    decreases resps.len(),
{
    if resps.len() > 0 {
        let rest = resps.drop_first();
        match goals_in(resps[0]) {
            Some(Ok(ids)) => {
                if ids.len() > 0 {
                    let types = Seq::<Seq<char>>::empty();
                    lemma_asking_in_order(ids, types, rest);
                    let given = goal_types_in(rest);
                    let (sent, _) = driven(ReloadView::Loading, resps);
                    let (sent_later, _) = driven(ReloadView::Asking { ids, types }, rest);
                    let further = queries(ids, 1);
                    assert(sent == seq![query(ids[0])] + sent_later);
                    if given.len() >= ids.len() {
                        assert(types + given.take(ids.len() as int) =~= given.take(
                            ids.len() as int,
                        ));
                        assert(seq![query(ids[0])] + further =~= queries(ids, 0));
                    } else {
                        assert(seq![query(ids[0])] + further.take(given.len() as int)
                            =~= queries(ids, 0).take(given.len() as int + 1));
                    }
                }
            },
            Some(Err(message)) => {},
            None => {
                lemma_reload_asks_in_order(rest);
            },
        }
    }
}

/// A file without goals is asked nothing: where the list of goals that
/// comes in is empty, the reload ends with no goals and has written no
/// question.
pub proof fn lemma_no_goals_no_questions(resps: Seq<RespView>)
    requires
        first_goals(resps) == Some(Ok::<Seq<InteractionPoint>, Seq<char>>(Seq::empty())),
    ensures
        driven(ReloadView::Loading, resps) == (
            Seq::<CmdView>::empty(),
            Some(ReportView::NoGoals),
        ),
{
    lemma_reload_asks_in_order(resps);
}

/// A file that Agda refuses is asked nothing: where an error comes in
/// before any list of goals, the reload ends with the message as it
/// came and has written no question.
pub proof fn lemma_failure_no_questions(resps: Seq<RespView>, message: Seq<char>)
    requires
        first_goals(resps) == Some(Err::<Seq<InteractionPoint>, Seq<char>>(message)),
    ensures
        driven(ReloadView::Loading, resps) == (
            Seq::<CmdView>::empty(),
            Some(ReportView::Failed(message)),
        ),
{
    lemma_reload_asks_in_order(resps);
}

/// Where a reload ends with goals, it has asked for each goal of the list
/// that came in exactly once and in the order of the list, and it
/// reports the goals in that order.
pub proof fn lemma_goals_in_the_order_listed(resps: Seq<RespView>, ids: Seq<InteractionPoint>)
    requires
        first_goals(resps) == Some(Ok::<Seq<InteractionPoint>, Seq<char>>(ids)),
        driven(ReloadView::Loading, resps).1 matches Some(ReportView::Goals(_)),
    ensures
        ({
            let (sent, report) = driven(ReloadView::Loading, resps);
            let goals = report.unwrap()->Goals_0;
            &&& sent.len() == ids.len()
            &&& goals.len() == ids.len()
            &&& forall|k: int| 0 <= k < ids.len() ==> #[trigger] sent[k] == query(ids[k])
            &&& forall|k: int| 0 <= k < ids.len() ==> (#[trigger] goals[k]).0 == ids[k]
        }),
{
    lemma_reload_asks_in_order(resps);
}

} // verus!
