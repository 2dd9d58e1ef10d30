//! The commands a client sends, and their one-line text form.
//!
//! A command is written in Agda's own expression syntax: a constructor
//! applied to its arguments, `( Cmd_load "Main.agda" [] )`, or the bare
//! constructor where there are no arguments, `Cmd_abort`. What goes over
//! the wire is the command inside its envelope, [`IOTCM`].

use crate::base::{ComputeMode, InteractionPoint, Remove, Rewrite, UseForce};
use crate::text::{
    decimal, lemma_decimal_is_one_line, lemma_one_line_joined, lemma_quoted_is_one_line, one_line,
    push_decimal, push_quoted, quoted, texts,
};
use vstd::prelude::*;
use vstd::string::StringExecFns;

verus! {

/// How much highlighting should be sent to the user interface?
#[derive(Debug, Copy, Clone, PartialEq, Eq, PartialOrd, Ord, Hash, Structural)]
pub enum HighlightingLevel {
    /// No highlighting at all. Agda's name for this level is `None`.
    Off,
    NonInteractive,
    /// This includes both non-interactive highlighting and
    /// interactive highlighting of the expression that is currently
    /// being type-checked.
    Interactive,
}

/// How should highlighting be sent to the user interface?
#[derive(Debug, Copy, Clone, PartialEq, Eq, PartialOrd, Ord, Hash, Structural)]
pub enum HighlightingMethod {
    /// Via stdout.
    Direct,
    /// Both via files and via stdout.
    Indirect,
}

impl HighlightingLevel {
    /// The constructor's name as Agda reads it.
    pub open spec fn token(self) -> Seq<char> {
        match self {
            HighlightingLevel::Off => "None"@,
            HighlightingLevel::NonInteractive => "NonInteractive"@,
            HighlightingLevel::Interactive => "Interactive"@,
        }
    }

    pub fn as_str(self) -> (r: &'static str)
        ensures
            r@ == self.token(),
    {
        match self {
            HighlightingLevel::Off => "None",
            HighlightingLevel::NonInteractive => "NonInteractive",
            HighlightingLevel::Interactive => "Interactive",
        }
    }
}

impl Default for HighlightingLevel {
    fn default() -> (r: Self)
        ensures
            r == HighlightingLevel::NonInteractive,
    {
        HighlightingLevel::NonInteractive
    }
}

impl HighlightingMethod {
    /// The constructor's name as Agda reads it.
    pub open spec fn token(self) -> Seq<char> {
        match self {
            HighlightingMethod::Direct => "Direct"@,
            HighlightingMethod::Indirect => "Indirect"@,
        }
    }

    pub fn as_str(self) -> (r: &'static str)
        ensures
            r@ == self.token(),
    {
        match self {
            HighlightingMethod::Direct => "Direct",
            HighlightingMethod::Indirect => "Indirect",
        }
    }
}

impl Default for HighlightingMethod {
    fn default() -> (r: Self)
        ensures
            r == HighlightingMethod::Direct,
    {
        HighlightingMethod::Direct
    }
}

/// A place in a file. The three numbers are passed on as they were given:
/// Agda counts offsets and lines from one.
#[derive(Debug, Copy, Clone, PartialEq, Eq, Hash, Structural)]
pub struct Position {
    pub offset: u32,
    pub line: u32,
    pub column: u32,
}

/// Where the text of a [`GoalInput`] comes from.
#[derive(Debug, Clone, PartialEq, Eq)]
pub enum Range {
    /// From somewhere else than the file, such as an input buffer.
    NoRange,
    /// From the goal's own extent in `file`, from `start` up to `end`.
    Range { file: String, start: Position, end: Position },
}

/// What a [`Range`] says.
pub enum RangeView {
    NoRange,
    Range { file: Seq<char>, start: Position, end: Position },
}

impl View for Range {
    type V = RangeView;

    open spec fn view(&self) -> RangeView {
        match self {
            Range::NoRange => RangeView::NoRange,
            Range::Range { file, start, end } => RangeView::Range {
                file: file@,
                start: *start,
                end: *end,
            },
        }
    }
}

/// An edit or a query aimed at one goal.
#[derive(Debug, Clone, PartialEq, Eq)]
pub struct GoalInput {
    pub id: InteractionPoint,
    pub range: Range,
    pub code: String,
}

/// What a [`GoalInput`] says.
pub struct GoalInputView {
    pub id: InteractionPoint,
    pub range: RangeView,
    pub code: Seq<char>,
}

impl View for GoalInput {
    type V = GoalInputView;

    open spec fn view(&self) -> GoalInputView {
        GoalInputView { id: self.id, range: self.range@, code: self.code@ }
    }
}

/// A request to Agda.
#[derive(Debug, Clone, PartialEq, Eq)]
#[allow(inconsistent_fields)]
pub enum Cmd {
    /// Type-check the file at `path`, with these command-line flags.
    Load { path: String, flags: Vec<String> },
    /// Compile the file at `path` with the named backend.
    Compile { backend: String, path: String, flags: Vec<String> },
    /// Show the unsolved constraints.
    Constraints,
    /// Show the open goals.
    Metas,
    /// Show what the module named by `search` holds.
    ShowModuleContentsToplevel { rewrite: Rewrite, search: String },
    /// Solve every goal whose solution is already known.
    SolveAll { rewrite: Rewrite },
    /// Solve one goal if its solution is already known.
    SolveOne { rewrite: Rewrite, input: GoalInput },
    /// Search for a term that fills one goal.
    AutoOne { input: GoalInput },
    /// Search for terms that fill the goals, one after another.
    AutoAll,
    /// Infer the type of `code` at top level.
    InferToplevel { rewrite: Rewrite, code: String },
    /// Evaluate `code` at top level.
    ComputeToplevel { rewrite: ComputeMode, code: String },
    /// Read the highlighting of the file `path`, and delete that file or not.
    TokenHighlighting { path: String, remove: Remove },
    /// Fill the goal with the text.
    Give { force: UseForce, input: GoalInput },
    /// Fill the goal with the text applied to as many new goals as it takes.
    Refine { input: GoalInput },
    /// Introduce a lambda or a constructor in the goal.
    Intro { pattern_matching: bool, input: GoalInput },
    /// Show the type of the goal.
    GoalType { rewrite: Rewrite, input: GoalInput },
    /// Show what is in scope at the goal.
    Context { rewrite: Rewrite, input: GoalInput },
    /// Infer the type of the text as read at the goal.
    Infer { rewrite: Rewrite, input: GoalInput },
    /// Evaluate the text as read at the goal.
    Compute { mode: ComputeMode, input: GoalInput },
    /// Stop what the previous command is doing.
    Abort,
}

/// What a [`Cmd`] says.
#[allow(inconsistent_fields)]
pub enum CmdView {
    Load { path: Seq<char>, flags: Seq<Seq<char>> },
    Compile { backend: Seq<char>, path: Seq<char>, flags: Seq<Seq<char>> },
    Constraints,
    Metas,
    ShowModuleContentsToplevel { rewrite: Rewrite, search: Seq<char> },
    SolveAll { rewrite: Rewrite },
    SolveOne { rewrite: Rewrite, input: GoalInputView },
    AutoOne { input: GoalInputView },
    AutoAll,
    InferToplevel { rewrite: Rewrite, code: Seq<char> },
    ComputeToplevel { rewrite: ComputeMode, code: Seq<char> },
    TokenHighlighting { path: Seq<char>, remove: Remove },
    Give { force: UseForce, input: GoalInputView },
    Refine { input: GoalInputView },
    Intro { pattern_matching: bool, input: GoalInputView },
    GoalType { rewrite: Rewrite, input: GoalInputView },
    Context { rewrite: Rewrite, input: GoalInputView },
    Infer { rewrite: Rewrite, input: GoalInputView },
    Compute { mode: ComputeMode, input: GoalInputView },
    Abort,
}

impl View for Cmd {
    type V = CmdView;

    open spec fn view(&self) -> CmdView {
        match self {
            Cmd::Load { path, flags } => CmdView::Load { path: path@, flags: texts(flags@) },
            Cmd::Compile { backend, path, flags } => CmdView::Compile {
                backend: backend@,
                path: path@,
                flags: texts(flags@),
            },
            Cmd::Constraints => CmdView::Constraints,
            Cmd::Metas => CmdView::Metas,
            Cmd::ShowModuleContentsToplevel { rewrite, search } => {
                CmdView::ShowModuleContentsToplevel { rewrite: *rewrite, search: search@ }
            },
            Cmd::SolveAll { rewrite } => CmdView::SolveAll { rewrite: *rewrite },
            Cmd::SolveOne { rewrite, input } => CmdView::SolveOne {
                rewrite: *rewrite,
                input: input@,
            },
            Cmd::AutoOne { input } => CmdView::AutoOne { input: input@ },
            Cmd::AutoAll => CmdView::AutoAll,
            Cmd::InferToplevel { rewrite, code } => CmdView::InferToplevel {
                rewrite: *rewrite,
                code: code@,
            },
            Cmd::ComputeToplevel { rewrite, code } => CmdView::ComputeToplevel {
                rewrite: *rewrite,
                code: code@,
            },
            Cmd::TokenHighlighting { path, remove } => CmdView::TokenHighlighting {
                path: path@,
                remove: *remove,
            },
            Cmd::Give { force, input } => CmdView::Give { force: *force, input: input@ },
            Cmd::Refine { input } => CmdView::Refine { input: input@ },
            Cmd::Intro { pattern_matching, input } => CmdView::Intro {
                pattern_matching: *pattern_matching,
                input: input@,
            },
            Cmd::GoalType { rewrite, input } => CmdView::GoalType {
                rewrite: *rewrite,
                input: input@,
            },
            Cmd::Context { rewrite, input } => CmdView::Context {
                rewrite: *rewrite,
                input: input@,
            },
            Cmd::Infer { rewrite, input } => CmdView::Infer { rewrite: *rewrite, input: input@ },
            Cmd::Compute { mode, input } => CmdView::Compute { mode: *mode, input: input@ },
            Cmd::Abort => CmdView::Abort,
        }
    }
}

/// The envelope of a command: the file it is about and how highlighting
/// is to be reported. One envelope is one line on the wire.
#[derive(Debug, Clone, PartialEq, Eq)]
pub struct IOTCM {
    pub level: HighlightingLevel,
    pub file: String,
    pub method: HighlightingMethod,
    pub command: Cmd,
}

/// What an [`IOTCM`] says.
pub struct IOTCMView {
    pub level: HighlightingLevel,
    pub file: Seq<char>,
    pub method: HighlightingMethod,
    pub command: CmdView,
}

impl View for IOTCM {
    type V = IOTCMView;

    open spec fn view(&self) -> IOTCMView {
        IOTCMView {
            level: self.level,
            file: self.file@,
            method: self.method,
            command: self.command@,
        }
    }
}

/// Haskell's spelling of a truth value.
pub open spec fn bool_token(b: bool) -> Seq<char> {
    if b {
        "True"@
    } else {
        "False"@
    }
}

/// A position, as the constructor `Pn` applied to no file and the three
/// numbers.
pub open spec fn encode_position(p: Position) -> Seq<char> {
    "(Pn () "@ + decimal(p.offset as nat) + " "@ + decimal(p.line as nat) + " "@ + decimal(
        p.column as nat,
    ) + ")"@
}

/// A range: the word `noRange`, or the one interval from `start` to `end`
/// in the file.
pub open spec fn encode_range(r: RangeView) -> Seq<char> {
    match r {
        RangeView::NoRange => "noRange"@,
        RangeView::Range { file, start, end } => "(intervalsToRange (Just (mkAbsolute "@ + quoted(
            file,
        ) + ")) [Interval "@ + encode_position(start) + " "@ + encode_position(end) + "])"@,
    }
}

/// A goal input: its number, its range and its text, between brackets.
pub open spec fn encode_goal_input(g: GoalInputView) -> Seq<char> {
    "("@ + decimal(g.id as nat) + " "@ + encode_range(g.range) + " "@ + quoted(g.code) + ")"@
}

/// The strings of `items` as literals, with `, ` between them.
pub open spec fn encode_items(items: Seq<Seq<char>>) -> Seq<char>
    decreases items.len(),
{
    if items.len() == 0 {
        Seq::empty()
    } else if items.len() == 1 {
        quoted(items[0])
    } else {
        encode_items(items.drop_last()) + ", "@ + quoted(items.last())
    }
}

/// A list of strings: `[]`, `["a"]`, `["a", "b"]`.
pub open spec fn encode_list(items: Seq<Seq<char>>) -> Seq<char> {
    "["@ + encode_items(items) + "]"@
}

/// A constructor applied to one argument.
pub open spec fn apply1(head: Seq<char>, a: Seq<char>) -> Seq<char> {
    "( "@ + head + " "@ + a + " )"@
}

/// A constructor applied to two arguments.
pub open spec fn apply2(head: Seq<char>, a: Seq<char>, b: Seq<char>) -> Seq<char> {
    "( "@ + head + " "@ + a + " "@ + b + " )"@
}

/// A constructor applied to three arguments.
pub open spec fn apply3(head: Seq<char>, a: Seq<char>, b: Seq<char>, c: Seq<char>) -> Seq<
    char,
> {
    "( "@ + head + " "@ + a + " "@ + b + " "@ + c + " )"@
}

/// The text of a command.
pub open spec fn encode_cmd(c: CmdView) -> Seq<char> {
    match c {
        CmdView::Load { path, flags } => apply2("Cmd_load"@, quoted(path), encode_list(flags)),
        CmdView::Compile { backend, path, flags } => apply3(
            "Cmd_compile"@,
            quoted(backend),
            quoted(path),
            encode_list(flags),
        ),
        CmdView::Constraints => "Cmd_constraints"@,
        CmdView::Metas => "Cmd_metas"@,
        CmdView::ShowModuleContentsToplevel { rewrite, search } => apply2(
            "Cmd_show_module_contents_toplevel"@,
            rewrite.token(),
            quoted(search),
        ),
        CmdView::SolveAll { rewrite } => apply1("Cmd_solveAll"@, rewrite.token()),
        CmdView::SolveOne { rewrite, input } => apply2(
            "Cmd_solveOne"@,
            rewrite.token(),
            encode_goal_input(input),
        ),
        CmdView::AutoOne { input } => apply1("Cmd_autoOne"@, encode_goal_input(input)),
        CmdView::AutoAll => "Cmd_autoAll"@,
        CmdView::InferToplevel { rewrite, code } => apply2(
            "Cmd_infer_toplevel"@,
            rewrite.token(),
            quoted(code),
        ),
        CmdView::ComputeToplevel { rewrite, code } => apply2(
            "Cmd_compute_toplevel"@,
            rewrite.token(),
            quoted(code),
        ),
        CmdView::TokenHighlighting { path, remove } => apply2(
            "Cmd_tokenHighlighting"@,
            quoted(path),
            remove.token(),
        ),
        CmdView::Give { force, input } => apply2(
            "Cmd_give"@,
            force.token(),
            encode_goal_input(input),
        ),
        CmdView::Refine { input } => apply1("Cmd_refine"@, encode_goal_input(input)),
        CmdView::Intro { pattern_matching, input } => apply2(
            "Cmd_intro"@,
            bool_token(pattern_matching),
            encode_goal_input(input),
        ),
        CmdView::GoalType { rewrite, input } => apply2(
            "Cmd_goal_type"@,
            rewrite.token(),
            encode_goal_input(input),
        ),
        CmdView::Context { rewrite, input } => apply2(
            "Cmd_context"@,
            rewrite.token(),
            encode_goal_input(input),
        ),
        CmdView::Infer { rewrite, input } => apply2(
            "Cmd_infer"@,
            rewrite.token(),
            encode_goal_input(input),
        ),
        CmdView::Compute { mode, input } => apply2(
            "Cmd_compute"@,
            mode.token(),
            encode_goal_input(input),
        ),
        CmdView::Abort => "Cmd_abort"@,
    }
}

/// The text of an envelope: the word `IOTCM`, the file, the two
/// highlighting settings and the command.
pub open spec fn encode_iotcm(m: IOTCMView) -> Seq<char> {
    "IOTCM "@ + quoted(m.file) + " "@ + m.level.token() + " "@ + m.method.token() + " "@
        + encode_cmd(m.command)
}

fn push_list(out: &mut String, items: &Vec<String>)
    ensures
        final(out)@ == old(out)@ + encode_list(texts(items@)),
{
    out.append("[");
    let ghost all = texts(items@);
    let mut i: usize = 0;
    while i < items.len()
        invariant
            i <= items.len(),
            all == texts(items@),
            out@ == old(out)@ + "["@ + encode_items(all.take(i as int)),
        decreases items.len() - i,
    {
        if i > 0 {
            out.append(", ");
        }
        push_quoted(out, items[i].as_str());
        proof {
            let next = all.take(i as int + 1);
            assert(next.drop_last() == all.take(i as int));
            assert(next.last() == items@[i as int]@);
            assert(next.len() == 1 ==> next[0] == next.last());
        }
        i += 1;
    }
    assert(all.take(items.len() as int) == all);
    out.append("]");
}

impl Position {
    /// Appends the position's text to `out`.
    pub fn encode_into(&self, out: &mut String)
        ensures
            final(out)@ == old(out)@ + encode_position(*self),
    {
        out.append("(Pn () ");
        push_decimal(out, self.offset as u64);
        out.append(" ");
        push_decimal(out, self.line as u64);
        out.append(" ");
        push_decimal(out, self.column as u64);
        out.append(")");
    }
}

impl Range {
    /// Appends the range's text to `out`.
    pub fn encode_into(&self, out: &mut String)
        ensures
            final(out)@ == old(out)@ + encode_range(self@),
    {
        match self {
            Range::NoRange => {
                out.append("noRange");
            },
            Range::Range { file, start, end } => {
                out.append("(intervalsToRange (Just (mkAbsolute ");
                push_quoted(out, file.as_str());
                out.append(")) [Interval ");
                start.encode_into(out);
                out.append(" ");
                end.encode_into(out);
                out.append("])");
            },
        }
    }
}

impl GoalInput {
    pub fn new(id: InteractionPoint, range: Range, code: String) -> (r: Self)
        ensures
            r.id == id,
            r.range == range,
            r.code == code,
    {
        GoalInput { id, range, code }
    }

    /// Text for the goal `id` that comes from outside the file.
    pub fn no_range(id: InteractionPoint, code: String) -> (r: Self)
        ensures
            r@ == (GoalInputView { id, range: RangeView::NoRange, code: code@ }),
    {
        GoalInput { id, range: Range::NoRange, code }
    }

    /// The goal `id` alone, with no text: what a query about the goal needs.
    pub fn simple(id: InteractionPoint) -> (r: Self)
        ensures
            r@ == (GoalInputView { id, range: RangeView::NoRange, code: Seq::empty() }),
    {
        GoalInput { id, range: Range::NoRange, code: String::new() }
    }

    /// Appends the goal input's text to `out`.
    pub fn encode_into(&self, out: &mut String)
        ensures
            final(out)@ == old(out)@ + encode_goal_input(self@),
    {
        out.append("(");
        push_decimal(out, self.id as u64);
        out.append(" ");
        self.range.encode_into(out);
        out.append(" ");
        push_quoted(out, self.code.as_str());
        out.append(")");
    }

    /// The goal input in Agda's syntax.
    pub fn encode(&self) -> (r: String)
        ensures
            r@ == encode_goal_input(self@),
    {
        let mut out = String::new();
        self.encode_into(&mut out);
        out
    }
}

fn open_application(out: &mut String, head: &str)
    ensures
        final(out)@ == old(out)@ + "( "@ + head@ + " "@,
{
    out.append("( ");
    out.append(head);
    out.append(" ");
}

fn push_token_application(out: &mut String, head: &str, token: &str)
    ensures
        final(out)@ == old(out)@ + apply1(head@, token@),
{
    open_application(out, head);
    out.append(token);
    out.append(" )");
}

fn push_input_application(out: &mut String, head: &str, input: &GoalInput)
    ensures
        final(out)@ == old(out)@ + apply1(head@, encode_goal_input(input@)),
{
    open_application(out, head);
    input.encode_into(out);
    out.append(" )");
}

fn push_token_input_application(out: &mut String, head: &str, token: &str, input: &GoalInput)
    ensures
        final(out)@ == old(out)@ + apply2(head@, token@, encode_goal_input(input@)),
{
    open_application(out, head);
    out.append(token);
    out.append(" ");
    input.encode_into(out);
    out.append(" )");
}

fn push_token_text_application(out: &mut String, head: &str, token: &str, text: &str)
    ensures
        final(out)@ == old(out)@ + apply2(head@, token@, quoted(text@)),
{
    open_application(out, head);
    out.append(token);
    out.append(" ");
    push_quoted(out, text);
    out.append(" )");
}

fn push_text_token_application(out: &mut String, head: &str, text: &str, token: &str)
    ensures
        final(out)@ == old(out)@ + apply2(head@, quoted(text@), token@),
{
    open_application(out, head);
    push_quoted(out, text);
    out.append(" ");
    out.append(token);
    out.append(" )");
}

fn push_load(out: &mut String, path: &str, flags: &Vec<String>)
    ensures
        final(out)@ == old(out)@ + apply2("Cmd_load"@, quoted(path@), encode_list(texts(flags@))),
{
    open_application(out, "Cmd_load");
    push_quoted(out, path);
    out.append(" ");
    push_list(out, flags);
    out.append(" )");
}

fn push_compile(out: &mut String, backend: &str, path: &str, flags: &Vec<String>)
    ensures
        final(out)@ == old(out)@ + apply3(
            "Cmd_compile"@,
            quoted(backend@),
            quoted(path@),
            encode_list(texts(flags@)),
        ),
{
    open_application(out, "Cmd_compile");
    push_quoted(out, backend);
    out.append(" ");
    push_quoted(out, path);
    out.append(" ");
    push_list(out, flags);
    out.append(" )");
}

fn bool_str(b: bool) -> (r: &'static str)
    ensures
        r@ == bool_token(b),
{
    if b {
        "True"
    } else {
        "False"
    }
}

impl Cmd {
    /// Type-check the file at `path` with no extra flags.
    pub fn load_simple(path: String) -> (r: Self)
        ensures
            r@ == (CmdView::Load { path: path@, flags: Seq::empty() }),
    {
        let r = Cmd::Load { path, flags: Vec::new() };
        assert(texts(Seq::<String>::empty()) == Seq::<Seq<char>>::empty());
        r
    }

    /// Give `input`, without forcing.
    pub fn give(input: GoalInput) -> (r: Self)
        ensures
            r@ == (CmdView::Give { force: UseForce::WithoutForce, input: input@ }),
    {
        Cmd::Give { force: UseForce::WithoutForce, input }
    }

    /// The type of the goal, with metavariables instantiated and not
    /// normalised further.
    pub fn goal_type(input: GoalInput) -> (r: Self)
        ensures
            r@ == (CmdView::GoalType { rewrite: Rewrite::Instantiated, input: input@ }),
    {
        Cmd::GoalType { rewrite: Rewrite::Instantiated, input }
    }

    /// The context of the goal, with metavariables instantiated and not
    /// normalised further.
    pub fn context(input: GoalInput) -> (r: Self)
        ensures
            r@ == (CmdView::Context { rewrite: Rewrite::Instantiated, input: input@ }),
    {
        Cmd::Context { rewrite: Rewrite::Instantiated, input }
    }

    /// Appends the command's text to `out`.
    pub fn encode_into(&self, out: &mut String)
        ensures
            final(out)@ == old(out)@ + encode_cmd(self@),
    {
        match self {
            Cmd::Load { path, flags } => push_load(out, path.as_str(), flags),
            Cmd::Compile { backend, path, flags } => push_compile(
                out,
                backend.as_str(),
                path.as_str(),
                flags,
            ),
            Cmd::Constraints => out.append("Cmd_constraints"),
            Cmd::Metas => out.append("Cmd_metas"),
            Cmd::ShowModuleContentsToplevel { rewrite, search } => push_token_text_application(
                out,
                "Cmd_show_module_contents_toplevel",
                rewrite.as_str(),
                search.as_str(),
            ),
            Cmd::SolveAll { rewrite } => push_token_application(
                out,
                "Cmd_solveAll",
                rewrite.as_str(),
            ),
            Cmd::SolveOne { rewrite, input } => push_token_input_application(
                out,
                "Cmd_solveOne",
                rewrite.as_str(),
                input,
            ),
            Cmd::AutoOne { input } => push_input_application(out, "Cmd_autoOne", input),
            Cmd::AutoAll => out.append("Cmd_autoAll"),
            Cmd::InferToplevel { rewrite, code } => push_token_text_application(
                out,
                "Cmd_infer_toplevel",
                rewrite.as_str(),
                code.as_str(),
            ),
            Cmd::ComputeToplevel { rewrite, code } => push_token_text_application(
                out,
                "Cmd_compute_toplevel",
                rewrite.as_str(),
                code.as_str(),
            ),
            Cmd::TokenHighlighting { path, remove } => push_text_token_application(
                out,
                "Cmd_tokenHighlighting",
                path.as_str(),
                remove.as_str(),
            ),
            Cmd::Give { force, input } => push_token_input_application(
                out,
                "Cmd_give",
                force.as_str(),
                input,
            ),
            Cmd::Refine { input } => push_input_application(out, "Cmd_refine", input),
            Cmd::Intro { pattern_matching, input } => push_token_input_application(
                out,
                "Cmd_intro",
                bool_str(*pattern_matching),
                input,
            ),
            Cmd::GoalType { rewrite, input } => push_token_input_application(
                out,
                "Cmd_goal_type",
                rewrite.as_str(),
                input,
            ),
            Cmd::Context { rewrite, input } => push_token_input_application(
                out,
                "Cmd_context",
                rewrite.as_str(),
                input,
            ),
            Cmd::Infer { rewrite, input } => push_token_input_application(
                out,
                "Cmd_infer",
                rewrite.as_str(),
                input,
            ),
            Cmd::Compute { mode, input } => push_token_input_application(
                out,
                "Cmd_compute",
                mode.as_str(),
                input,
            ),
            Cmd::Abort => out.append("Cmd_abort"),
        }
    }

    /// The command in Agda's syntax.
    pub fn encode(&self) -> (r: String)
        ensures
            r@ == encode_cmd(self@),
    {
        let mut out = String::new();
        self.encode_into(&mut out);
        out
    }
}

impl IOTCM {
    pub fn new(
        level: HighlightingLevel,
        file: String,
        method: HighlightingMethod,
        command: Cmd,
    ) -> (r: Self)
        ensures
            r.level == level,
            r.file == file,
            r.method == method,
            r.command == command,
    {
        Self { level, file, method, command }
    }

    /// An envelope with the usual highlighting settings: non-interactive,
    /// sent directly.
    pub fn simple(file: String, command: Cmd) -> (r: Self)
        ensures
            r.level == HighlightingLevel::NonInteractive,
            r.file == file,
            r.method == HighlightingMethod::Direct,
            r.command == command,
    {
        Self {
            level: HighlightingLevel::NonInteractive,
            file,
            method: HighlightingMethod::Direct,
            command,
        }
    }

    /// The envelope in Agda's syntax, without a line end.
    pub fn encode(&self) -> (r: String)
        ensures
            r@ == encode_iotcm(self@),
    {
        let mut out = String::new();
        out.append("IOTCM ");
        push_quoted(&mut out, self.file.as_str());
        out.append(" ");
        out.append(self.level.as_str());
        out.append(" ");
        out.append(self.method.as_str());
        out.append(" ");
        self.command.encode_into(&mut out);
        out
    }
}

/// Each command has one text: two commands that say the same are written
/// the same, whatever strings and lists they are held in.
pub proof fn lemma_equal_commands_encode_alike(a: Cmd, b: Cmd)
    requires
        a@ == b@,
    ensures
        encode_cmd(a@) == encode_cmd(b@),
{
}

/// Each envelope has one text: two envelopes that say the same are
/// written the same.
pub proof fn lemma_equal_envelopes_encode_alike(a: IOTCM, b: IOTCM)
    requires
        a@ == b@,
    ensures
        encode_iotcm(a@) == encode_iotcm(b@),
{
}

/// The brackets, spaces and fixed words of the syntax hold no line feed.
proof fn lemma_punctuation_is_one_line()
    ensures
        one_line("(Pn () "@),
        one_line(" "@),
        one_line(")"@),
        one_line("noRange"@),
        one_line("(intervalsToRange (Just (mkAbsolute "@),
        one_line(")) [Interval "@),
        one_line("])"@),
        one_line("("@),
        one_line(", "@),
        one_line("["@),
        one_line("]"@),
        one_line("( "@),
        one_line(" )"@),
        one_line("IOTCM "@),
        one_line("True"@),
        one_line("False"@),
{
    reveal(one_line);
    reveal_strlit("(Pn () ");
    reveal_strlit(" ");
    reveal_strlit(")");
    reveal_strlit("noRange");
    reveal_strlit("(intervalsToRange (Just (mkAbsolute ");
    reveal_strlit(")) [Interval ");
    reveal_strlit("])");
    reveal_strlit("(");
    reveal_strlit(", ");
    reveal_strlit("[");
    reveal_strlit("]");
    reveal_strlit("( ");
    reveal_strlit(" )");
    reveal_strlit("IOTCM ");
    reveal_strlit("True");
    reveal_strlit("False");
}

/// The names of the commands hold no line feed.
proof fn lemma_heads_are_one_line()
    ensures
        one_line("Cmd_load"@),
        one_line("Cmd_compile"@),
        one_line("Cmd_constraints"@),
        one_line("Cmd_metas"@),
        one_line("Cmd_show_module_contents_toplevel"@),
        one_line("Cmd_solveAll"@),
        one_line("Cmd_solveOne"@),
        one_line("Cmd_autoOne"@),
        one_line("Cmd_autoAll"@),
        one_line("Cmd_infer_toplevel"@),
        one_line("Cmd_compute_toplevel"@),
        one_line("Cmd_tokenHighlighting"@),
        one_line("Cmd_give"@),
        one_line("Cmd_refine"@),
        one_line("Cmd_intro"@),
        one_line("Cmd_goal_type"@),
        one_line("Cmd_context"@),
        one_line("Cmd_infer"@),
        one_line("Cmd_compute"@),
        one_line("Cmd_abort"@),
{
    reveal(one_line);
    reveal_strlit("Cmd_load");
    reveal_strlit("Cmd_compile");
    reveal_strlit("Cmd_constraints");
    reveal_strlit("Cmd_metas");
    reveal_strlit("Cmd_show_module_contents_toplevel");
    reveal_strlit("Cmd_solveAll");
    reveal_strlit("Cmd_solveOne");
    reveal_strlit("Cmd_autoOne");
    reveal_strlit("Cmd_autoAll");
    reveal_strlit("Cmd_infer_toplevel");
    reveal_strlit("Cmd_compute_toplevel");
    reveal_strlit("Cmd_tokenHighlighting");
    reveal_strlit("Cmd_give");
    reveal_strlit("Cmd_refine");
    reveal_strlit("Cmd_intro");
    reveal_strlit("Cmd_goal_type");
    reveal_strlit("Cmd_context");
    reveal_strlit("Cmd_infer");
    reveal_strlit("Cmd_compute");
    reveal_strlit("Cmd_abort");
}

/// The names of the modifiers hold no line feed.
proof fn lemma_tokens_are_one_line()
    ensures
        one_line("AsIs"@),
        one_line("Instantiated"@),
        one_line("HeadNormal"@),
        one_line("Simplified"@),
        one_line("Normalised"@),
        one_line("DefaultCompute"@),
        one_line("IgnoreAbstract"@),
        one_line("UseShowInstance"@),
        one_line("WithForce"@),
        one_line("WithoutForce"@),
        one_line("Remove"@),
        one_line("Keep"@),
        one_line("None"@),
        one_line("NonInteractive"@),
        one_line("Interactive"@),
        one_line("Direct"@),
        one_line("Indirect"@),
{
    reveal(one_line);
    reveal_strlit("AsIs");
    reveal_strlit("Instantiated");
    reveal_strlit("HeadNormal");
    reveal_strlit("Simplified");
    reveal_strlit("Normalised");
    reveal_strlit("DefaultCompute");
    reveal_strlit("IgnoreAbstract");
    reveal_strlit("UseShowInstance");
    reveal_strlit("WithForce");
    reveal_strlit("WithoutForce");
    reveal_strlit("Remove");
    reveal_strlit("Keep");
    reveal_strlit("None");
    reveal_strlit("NonInteractive");
    reveal_strlit("Interactive");
    reveal_strlit("Direct");
    reveal_strlit("Indirect");
}

/// A position holds no line feed.
proof fn lemma_position_is_one_line(p: Position)
    ensures
        one_line(encode_position(p)),
{
    lemma_punctuation_is_one_line();
    lemma_decimal_is_one_line(p.offset as nat);
    lemma_decimal_is_one_line(p.line as nat);
    lemma_decimal_is_one_line(p.column as nat);
    let a = "(Pn () "@ + decimal(p.offset as nat);
    lemma_one_line_joined("(Pn () "@, decimal(p.offset as nat));
    lemma_one_line_joined(a, " "@);
    lemma_one_line_joined(a + " "@, decimal(p.line as nat));
    let b = a + " "@ + decimal(p.line as nat);
    lemma_one_line_joined(b, " "@);
    lemma_one_line_joined(b + " "@, decimal(p.column as nat));
    lemma_one_line_joined(b + " "@ + decimal(p.column as nat), ")"@);
}

/// A range holds no line feed.
proof fn lemma_range_is_one_line(r: RangeView)
    ensures
        one_line(encode_range(r)),
{
    lemma_punctuation_is_one_line();
    match r {
        RangeView::NoRange => {},
        RangeView::Range { file, start, end } => {
            lemma_quoted_is_one_line(file);
            lemma_position_is_one_line(start);
            lemma_position_is_one_line(end);
            let a = "(intervalsToRange (Just (mkAbsolute "@ + quoted(file);
            lemma_one_line_joined("(intervalsToRange (Just (mkAbsolute "@, quoted(file));
            lemma_one_line_joined(a, ")) [Interval "@);
            let b = a + ")) [Interval "@;
            lemma_one_line_joined(b, encode_position(start));
            let c = b + encode_position(start);
            lemma_one_line_joined(c, " "@);
            lemma_one_line_joined(c + " "@, encode_position(end));
            lemma_one_line_joined(c + " "@ + encode_position(end), "])"@);
        },
    }
}

/// A goal input holds no line feed.
proof fn lemma_goal_input_is_one_line(g: GoalInputView)
    ensures
        one_line(encode_goal_input(g)),
{
    lemma_punctuation_is_one_line();
    lemma_decimal_is_one_line(g.id as nat);
    lemma_range_is_one_line(g.range);
    lemma_quoted_is_one_line(g.code);
    let a = "("@ + decimal(g.id as nat);
    lemma_one_line_joined("("@, decimal(g.id as nat));
    lemma_one_line_joined(a, " "@);
    lemma_one_line_joined(a + " "@, encode_range(g.range));
    let b = a + " "@ + encode_range(g.range);
    lemma_one_line_joined(b, " "@);
    lemma_one_line_joined(b + " "@, quoted(g.code));
    lemma_one_line_joined(b + " "@ + quoted(g.code), ")"@);
}

/// A list of strings holds no line feed.
proof fn lemma_list_is_one_line(items: Seq<Seq<char>>)
    ensures
        one_line(encode_items(items)),
        one_line(encode_list(items)),
    decreases items.len(),
{
    lemma_punctuation_is_one_line();
    if items.len() == 0 {
        reveal(one_line);
    } else if items.len() == 1 {
        lemma_quoted_is_one_line(items[0]);
    } else {
        lemma_list_is_one_line(items.drop_last());
        lemma_quoted_is_one_line(items.last());
        lemma_one_line_joined(encode_items(items.drop_last()), ", "@);
        lemma_one_line_joined(encode_items(items.drop_last()) + ", "@, quoted(items.last()));
    }
    lemma_one_line_joined("["@, encode_items(items));
    lemma_one_line_joined("["@ + encode_items(items), "]"@);
}

/// A constructor applied to one argument holds no line feed where
/// neither of them does.
proof fn lemma_apply1_is_one_line(head: Seq<char>, a: Seq<char>)
    requires
        one_line(head),
        one_line(a),
    ensures
        one_line(apply1(head, a)),
{
    lemma_punctuation_is_one_line();
    lemma_one_line_joined("( "@, head);
    lemma_one_line_joined("( "@ + head, " "@);
    lemma_one_line_joined("( "@ + head + " "@, a);
    lemma_one_line_joined("( "@ + head + " "@ + a, " )"@);
}

/// A constructor applied to two arguments holds no line feed where none
/// of them does.
proof fn lemma_apply2_is_one_line(head: Seq<char>, a: Seq<char>, b: Seq<char>)
    requires
        one_line(head),
        one_line(a),
        one_line(b),
    ensures
        one_line(apply2(head, a, b)),
{
    lemma_punctuation_is_one_line();
    lemma_one_line_joined("( "@, head);
    lemma_one_line_joined("( "@ + head, " "@);
    lemma_one_line_joined("( "@ + head + " "@, a);
    let x = "( "@ + head + " "@ + a;
    lemma_one_line_joined(x, " "@);
    lemma_one_line_joined(x + " "@, b);
    lemma_one_line_joined(x + " "@ + b, " )"@);
}

/// A constructor applied to three arguments holds no line feed where
/// none of them does.
proof fn lemma_apply3_is_one_line(head: Seq<char>, a: Seq<char>, b: Seq<char>, c: Seq<char>)
    requires
        one_line(head),
        one_line(a),
        one_line(b),
        one_line(c),
    ensures
        one_line(apply3(head, a, b, c)),
{
    lemma_punctuation_is_one_line();
    lemma_one_line_joined("( "@, head);
    lemma_one_line_joined("( "@ + head, " "@);
    lemma_one_line_joined("( "@ + head + " "@, a);
    let x = "( "@ + head + " "@ + a;
    lemma_one_line_joined(x, " "@);
    lemma_one_line_joined(x + " "@, b);
    let y = x + " "@ + b;
    lemma_one_line_joined(y, " "@);
    lemma_one_line_joined(y + " "@, c);
    lemma_one_line_joined(y + " "@ + c, " )"@);
}

/// The name of a modifier holds no line feed.
proof fn lemma_rewrite_is_one_line(r: Rewrite)
    ensures
        one_line(r.token()),
{
    lemma_tokens_are_one_line();
}

/// The name of a modifier holds no line feed.
proof fn lemma_compute_mode_is_one_line(m: ComputeMode)
    ensures
        one_line(m.token()),
{
    lemma_tokens_are_one_line();
}

/// The name of a modifier holds no line feed.
proof fn lemma_use_force_is_one_line(f: UseForce)
    ensures
        one_line(f.token()),
{
    lemma_tokens_are_one_line();
}

/// The name of a modifier holds no line feed.
proof fn lemma_remove_is_one_line(r: Remove)
    ensures
        one_line(r.token()),
{
    lemma_tokens_are_one_line();
}

/// The name of a truth value holds no line feed.
proof fn lemma_bool_is_one_line(b: bool)
    ensures
        one_line(bool_token(b)),
{
    lemma_punctuation_is_one_line();
}

/// The names of the highlighting settings hold no line feed.
proof fn lemma_highlighting_is_one_line(level: HighlightingLevel, method: HighlightingMethod)
    ensures
        one_line(level.token()),
        one_line(method.token()),
{
    lemma_tokens_are_one_line();
}

/// A command that takes a modifier and a goal input holds no line feed.
proof fn lemma_token_input_is_one_line(head: Seq<char>, token: Seq<char>, input: GoalInputView)
    requires
        one_line(head),
        one_line(token),
    ensures
        one_line(apply2(head, token, encode_goal_input(input))),
{
    lemma_goal_input_is_one_line(input);
    lemma_apply2_is_one_line(head, token, encode_goal_input(input));
}

/// A command that takes a modifier and a string holds no line feed.
proof fn lemma_token_text_is_one_line(head: Seq<char>, token: Seq<char>, text: Seq<char>)
    requires
        one_line(head),
        one_line(token),
    ensures
        one_line(apply2(head, token, quoted(text))),
        one_line(apply2(head, quoted(text), token)),
{
    lemma_quoted_is_one_line(text);
    lemma_apply2_is_one_line(head, token, quoted(text));
    lemma_apply2_is_one_line(head, quoted(text), token);
}

/// A command that takes a goal input alone holds no line feed.
proof fn lemma_input_is_one_line(head: Seq<char>, input: GoalInputView)
    requires
        one_line(head),
    ensures
        one_line(apply1(head, encode_goal_input(input))),
{
    lemma_goal_input_is_one_line(input);
    lemma_apply1_is_one_line(head, encode_goal_input(input));
}

/// The text of a command holds no line feed: a command is written on one
/// line, whatever its strings hold.
pub proof fn lemma_encoded_command_is_one_line(c: CmdView)
    ensures
        one_line(encode_cmd(c)),
{
    lemma_heads_are_one_line();
    match c {
        CmdView::Load { path, flags } => {
            lemma_quoted_is_one_line(path);
            lemma_list_is_one_line(flags);
            lemma_apply2_is_one_line("Cmd_load"@, quoted(path), encode_list(flags));
        },
        CmdView::Compile { backend, path, flags } => {
            lemma_quoted_is_one_line(backend);
            lemma_quoted_is_one_line(path);
            lemma_list_is_one_line(flags);
            lemma_apply3_is_one_line(
                "Cmd_compile"@,
                quoted(backend),
                quoted(path),
                encode_list(flags),
            );
        },
        CmdView::Constraints => {},
        CmdView::Metas => {},
        CmdView::ShowModuleContentsToplevel { rewrite, search } => {
            lemma_rewrite_is_one_line(rewrite);
            lemma_token_text_is_one_line(
                "Cmd_show_module_contents_toplevel"@,
                rewrite.token(),
                search,
            );
        },
        CmdView::SolveAll { rewrite } => {
            lemma_rewrite_is_one_line(rewrite);
            lemma_apply1_is_one_line("Cmd_solveAll"@, rewrite.token());
        },
        CmdView::SolveOne { rewrite, input } => {
            lemma_rewrite_is_one_line(rewrite);
            lemma_token_input_is_one_line("Cmd_solveOne"@, rewrite.token(), input);
        },
        CmdView::AutoOne { input } => {
            lemma_input_is_one_line("Cmd_autoOne"@, input);
        },
        CmdView::AutoAll => {},
        CmdView::InferToplevel { rewrite, code } => {
            lemma_rewrite_is_one_line(rewrite);
            lemma_token_text_is_one_line("Cmd_infer_toplevel"@, rewrite.token(), code);
        },
        CmdView::ComputeToplevel { rewrite, code } => {
            lemma_compute_mode_is_one_line(rewrite);
            lemma_token_text_is_one_line("Cmd_compute_toplevel"@, rewrite.token(), code);
        },
        CmdView::TokenHighlighting { path, remove } => {
            lemma_remove_is_one_line(remove);
            lemma_token_text_is_one_line("Cmd_tokenHighlighting"@, remove.token(), path);
        },
        CmdView::Give { force, input } => {
            lemma_use_force_is_one_line(force);
            lemma_token_input_is_one_line("Cmd_give"@, force.token(), input);
        },
        CmdView::Refine { input } => {
            lemma_input_is_one_line("Cmd_refine"@, input);
        },
        CmdView::Intro { pattern_matching, input } => {
            lemma_bool_is_one_line(pattern_matching);
            lemma_token_input_is_one_line("Cmd_intro"@, bool_token(pattern_matching), input);
        },
        CmdView::GoalType { rewrite, input } => {
            lemma_rewrite_is_one_line(rewrite);
            lemma_token_input_is_one_line("Cmd_goal_type"@, rewrite.token(), input);
        },
        CmdView::Context { rewrite, input } => {
            lemma_rewrite_is_one_line(rewrite);
            lemma_token_input_is_one_line("Cmd_context"@, rewrite.token(), input);
        },
        CmdView::Infer { rewrite, input } => {
            lemma_rewrite_is_one_line(rewrite);
            lemma_token_input_is_one_line("Cmd_infer"@, rewrite.token(), input);
        },
        CmdView::Compute { mode, input } => {
            lemma_compute_mode_is_one_line(mode);
            lemma_token_input_is_one_line("Cmd_compute"@, mode.token(), input);
        },
        CmdView::Abort => {},
    }
}

/// The text of an envelope holds no line feed.
pub proof fn lemma_encoded_envelope_is_one_line(m: IOTCMView)
    ensures
        one_line(encode_iotcm(m)),
{
    lemma_punctuation_is_one_line();
    lemma_highlighting_is_one_line(m.level, m.method);
    lemma_quoted_is_one_line(m.file);
    lemma_encoded_command_is_one_line(m.command);
    let a = "IOTCM "@ + quoted(m.file);
    lemma_one_line_joined("IOTCM "@, quoted(m.file));
    lemma_one_line_joined(a, " "@);
    lemma_one_line_joined(a + " "@, m.level.token());
    let b = a + " "@ + m.level.token();
    lemma_one_line_joined(b, " "@);
    lemma_one_line_joined(b + " "@, m.method.token());
    let c = b + " "@ + m.method.token();
    lemma_one_line_joined(c, " "@);
    lemma_one_line_joined(c + " "@, encode_cmd(m.command));
}

/// An envelope is written on one line: its text holds no line feed,
/// whatever the file's name and the command's strings hold.
pub proof fn lemma_encoded_is_one_line(m: IOTCMView)
    ensures
        forall|i: int| 0 <= i < encode_iotcm(m).len() ==> encode_iotcm(m)[i] != '\n',
{
    lemma_encoded_envelope_is_one_line(m);
    reveal(one_line);
}

} // verus!
