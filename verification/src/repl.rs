//! What the user types, and what is to be done about it.
//!
//! A line is one of a few commands: `help`, `reload`, `exit`, `define`
//! with a name, `give` with a goal's number and a text. Anything else is
//! told back to the user and goes nowhere. White space at the ends of a
//! line does not count: it is left off as `str::trim` leaves it off.

use crate::base::{InteractionPoint, UseForce};
use crate::cmd::{Cmd, CmdView, GoalInput, GoalInputView, RangeView};
use crate::text::{chars_of, decimal_within, read_decimal, same_text, string_of, texts};
use vstd::prelude::*;
use vstd::string::StringExecFns;

verus! {

/// Whether `c` separates words: a space, a tab, a line feed or a carriage
/// return.
pub open spec fn is_space(c: char) -> bool {
    c == ' ' || c == '\t' || c == '\n' || c == '\r'
}

/// Where the run of separators that starts at `i` ends.
pub open spec fn spaces_end(s: Seq<char>, i: int) -> int
    decreases s.len() - i,
{
    if 0 <= i < s.len() && is_space(s[i]) {
        spaces_end(s, i + 1)
    } else {
        i
    }
}

/// Where the word that starts at `i` ends.
pub open spec fn word_end(s: Seq<char>, i: int) -> int
    decreases s.len() - i,
{
    if 0 <= i < s.len() && !is_space(s[i]) {
        word_end(s, i + 1)
    } else {
        i
    }
}

/// Whether `c` is white space as Unicode has it, by the property
/// `White_Space`: the characters from tab to carriage return, the space,
/// the next line, the no-break space, the Ogham space mark, the spaces
/// from en quad to hair space, the line and paragraph separators, the
/// narrow no-break space, the medium mathematical space and the
/// ideographic space. It is what `char::is_whitespace` and `str::trim`
/// go by.
pub open spec fn is_white_space(c: char) -> bool {
    let code = c as u32;
    ||| 0x09 <= code <= 0x0d
    ||| code == 0x20
    ||| code == 0x85
    ||| code == 0xa0
    ||| code == 0x1680
    ||| 0x2000 <= code <= 0x200a
    ||| code == 0x2028
    ||| code == 0x2029
    ||| code == 0x202f
    ||| code == 0x205f
    ||| code == 0x3000
}

/// Where the run of white space that starts at `i` ends.
pub open spec fn white_space_end(s: Seq<char>, i: int) -> int
    decreases s.len() - i,
{
    if 0 <= i < s.len() && is_white_space(s[i]) {
        white_space_end(s, i + 1)
    } else {
        i
    }
}

/// Where the text before `end` ends once the white space at its end is
/// left off.
pub open spec fn trimmed_end(s: Seq<char>, end: int) -> int
    decreases end,
{
    if 0 < end <= s.len() && is_white_space(s[end - 1]) {
        trimmed_end(s, end - 1)
    } else {
        end
    }
}

/// `s` without the white space at its two ends, as `str::trim` leaves
/// it.
pub open spec fn trimmed(s: Seq<char>) -> Seq<char> {
    let from = white_space_end(s, 0);
    let to = trimmed_end(s, s.len() as int);
    if from < to {
        s.subrange(from, to)
    } else {
        Seq::empty()
    }
}

/// What the user asked for.
#[derive(Debug, Clone, PartialEq, Eq)]
pub enum Input {
    /// Show the help.
    Help,
    /// Add a definition of this name to the file, and reload.
    Define(String),
    /// Fill the goal of this number with this text, and reload.
    Give(InteractionPoint, String),
    /// Reload the file.
    Reload,
    /// Abort, and leave.
    Exit,
    /// None of these: the line as it was typed, without the white space
    /// at its ends.
    Unknown(String),
}

/// What an [`Input`] says.
pub enum InputView {
    Help,
    Define(Seq<char>),
    Give(InteractionPoint, Seq<char>),
    Reload,
    Exit,
    Unknown(Seq<char>),
}

impl View for Input {
    type V = InputView;

    open spec fn view(&self) -> InputView {
        match self {
            Input::Help => InputView::Help,
            Input::Define(name) => InputView::Define(name@),
            Input::Give(id, code) => InputView::Give(*id, code@),
            Input::Reload => InputView::Reload,
            Input::Exit => InputView::Exit,
            Input::Unknown(line) => InputView::Unknown(line@),
        }
    }
}

/// What a line without white space at its ends asks for.
///
/// The first word decides. `help`, `reload` and `exit` stand alone.
/// `define` is followed by one word, the name. `give` is followed by a
/// goal's number, a decimal numeral that fits `u32`, and by the text for
/// the goal, which runs to the end of the line. A line of any other form
/// is unknown.
pub open spec fn input_of(t: Seq<char>) -> InputView {
    let first = word_end(t, 0);
    let word = t.subrange(0, first);
    let second = spaces_end(t, first);
    let len = t.len() as int;
    if word == "help"@ && first == len {
        InputView::Help
    } else if word == "reload"@ && first == len {
        InputView::Reload
    } else if word == "exit"@ && first == len {
        InputView::Exit
    } else if word == "define"@ && second < len && word_end(t, second) == len {
        InputView::Define(t.subrange(second, len))
    } else if word == "give"@ && second < len {
        let number_end = word_end(t, second);
        let third = spaces_end(t, number_end);
        match decimal_within(t.subrange(second, number_end), u32::MAX as nat) {
            Some(id) => if third < len {
                InputView::Give(id as u32, t.subrange(third, len))
            } else {
                InputView::Unknown(t)
            },
            None => InputView::Unknown(t),
        }
    } else {
        InputView::Unknown(t)
    }
}

/// What the line `line` asks for, as it was typed.
pub open spec fn parsed_input(line: Seq<char>) -> InputView {
    input_of(trimmed(line))
}

fn is_space_char(c: char) -> (r: bool)
    ensures
        r == is_space(c),
{
    c == ' ' || c == '\t' || c == '\n' || c == '\r'
}

fn skip_spaces(chars: &Vec<char>, from: usize) -> (r: usize)
    requires
        from <= chars.len(),
    ensures
        r == spaces_end(chars@, from as int),
        from <= r <= chars.len(),
{
    let mut i: usize = from;
    while i < chars.len() && is_space_char(chars[i])
        invariant
            from <= i <= chars.len(),
            spaces_end(chars@, from as int) == spaces_end(chars@, i as int),
        decreases chars.len() - i,
    {
        i += 1;
    }
    i
}

fn skip_word(chars: &Vec<char>, from: usize) -> (r: usize)
    requires
        from <= chars.len(),
    ensures
        r == word_end(chars@, from as int),
        from <= r <= chars.len(),
{
    let mut i: usize = from;
    while i < chars.len() && !is_space_char(chars[i])
        invariant
            from <= i <= chars.len(),
            word_end(chars@, from as int) == word_end(chars@, i as int),
        decreases chars.len() - i,
    {
        i += 1;
    }
    i
}

fn is_white_space_char(c: char) -> (r: bool)
    ensures
        r == is_white_space(c),
{
    let code = c as u32;
    (0x09 <= code && code <= 0x0d) || code == 0x20 || code == 0x85 || code == 0xa0 || code
        == 0x1680 || (0x2000 <= code && code <= 0x200a) || code == 0x2028 || code == 0x2029
        || code == 0x202f || code == 0x205f || code == 0x3000
}

fn skip_white_space(chars: &Vec<char>, from: usize) -> (r: usize)
    requires
        from <= chars.len(),
    ensures
        r == white_space_end(chars@, from as int),
        from <= r <= chars.len(),
{
    let mut i: usize = from;
    while i < chars.len() && is_white_space_char(chars[i])
        invariant
            from <= i <= chars.len(),
            white_space_end(chars@, from as int) == white_space_end(chars@, i as int),
        decreases chars.len() - i,
    {
        i += 1;
    }
    i
}

fn trim_end(chars: &Vec<char>) -> (r: usize)
    ensures
        r == trimmed_end(chars@, chars.len() as int),
        r <= chars.len(),
{
    let mut end: usize = chars.len();
    while end > 0 && is_white_space_char(chars[end - 1])
        invariant
            end <= chars.len(),
            trimmed_end(chars@, chars.len() as int) == trimmed_end(chars@, end as int),
        decreases end,
    {
        end -= 1;
    }
    end
}

/// The characters of `line` without the white space at its two ends.
pub fn trim(line: &str) -> (r: Vec<char>)
    ensures
        r@ == trimmed(line@),
{
    let chars = chars_of(line);
    let from = skip_white_space(&chars, 0);
    let to = trim_end(&chars);
    let mut out: Vec<char> = Vec::new();
    if from < to {
        let mut i: usize = from;
        while i < to
            invariant
                from <= i <= to <= chars.len(),
                out@ == chars@.subrange(from as int, i as int),
            decreases to - i,
        {
            out.push(chars[i]);
            i += 1;
        }
    }
    out
}

fn input_from(t: &Vec<char>) -> (r: Input)
    ensures
        r@ == input_of(t@),
{
    let len = t.len();
    assert(t@.subrange(0, len as int) =~= t@);
    let first = skip_word(t, 0);
    let word = string_of(t, 0, first);
    let second = skip_spaces(t, first);
    if same_text(word.as_str(), "help") && first == len {
        Input::Help
    } else if same_text(word.as_str(), "reload") && first == len {
        Input::Reload
    } else if same_text(word.as_str(), "exit") && first == len {
        Input::Exit
    } else if same_text(word.as_str(), "define") && second < len && skip_word(t, second) == len {
        Input::Define(string_of(t, second, len))
    } else if same_text(word.as_str(), "give") && second < len {
        let number_end = skip_word(t, second);
        let third = skip_spaces(t, number_end);
        match read_decimal(t, second, number_end, 0xffff_ffff) {
            Some(id) => {
                if third < len {
                    Input::Give(id as u32, string_of(t, third, len))
                } else {
                    Input::Unknown(string_of(t, 0, len))
                }
            },
            None => Input::Unknown(string_of(t, 0, len)),
        }
    } else {
        Input::Unknown(string_of(t, 0, len))
    }
}

/// Reads what the user typed.
pub fn parse_input(line: &str) -> (r: Input)
    ensures
        r@ == parsed_input(line@),
{
    let t = trim(line);
    input_from(&t)
}

/// One thing to do for the user.
#[derive(Debug, Clone, PartialEq, Eq)]
pub enum Operation {
    /// Show the help.
    ShowHelp,
    /// Add the lines of a definition of this name to the end of the file.
    AppendDefinition(String),
    /// Write this command to Agda.
    Send(Cmd),
    /// Reload the file and list its goals.
    Reload,
    /// Close the session, once the abort has completed.
    Shutdown,
    /// Tell the user that this line was not understood.
    Report(String),
}

/// What an [`Operation`] says.
pub enum OperationView {
    ShowHelp,
    AppendDefinition(Seq<char>),
    Send(CmdView),
    Reload,
    Shutdown,
    Report(Seq<char>),
}

impl View for Operation {
    type V = OperationView;

    open spec fn view(&self) -> OperationView {
        match self {
            Operation::ShowHelp => OperationView::ShowHelp,
            Operation::AppendDefinition(name) => OperationView::AppendDefinition(name@),
            Operation::Send(command) => OperationView::Send(command@),
            Operation::Reload => OperationView::Reload,
            Operation::Shutdown => OperationView::Shutdown,
            Operation::Report(line) => OperationView::Report(line@),
        }
    }
}

/// What each operation of `operations` says.
pub open spec fn operation_views(operations: Seq<Operation>) -> Seq<OperationView> {
    Seq::new(operations.len(), |k: int| operations[k]@)
}

/// The command that gives `code` to the goal `id`: not forced, and with
/// no range, as the text comes from the user and not from the file.
pub open spec fn give(id: InteractionPoint, code: Seq<char>) -> CmdView {
    CmdView::Give {
        force: UseForce::WithoutForce,
        input: GoalInputView { id, range: RangeView::NoRange, code },
    }
}

/// What is done for an input, in order.
pub open spec fn planned(input: InputView) -> Seq<OperationView> {
    match input {
        InputView::Help => seq![OperationView::ShowHelp],
        InputView::Define(name) => seq![
            OperationView::AppendDefinition(name),
            OperationView::Reload,
        ],
        InputView::Give(id, code) => seq![
            OperationView::Send(give(id, code)),
            OperationView::Reload,
        ],
        InputView::Reload => seq![OperationView::Reload],
        InputView::Exit => seq![OperationView::Send(CmdView::Abort), OperationView::Shutdown],
        InputView::Unknown(line) => seq![OperationView::Report(line)],
    }
}

/// Whether the loop ends after an input.
pub open spec fn leaves(input: InputView) -> bool {
    input is Exit
}

/// What to do for one line of the user.
#[derive(Debug, Clone, PartialEq, Eq)]
pub struct Plan {
    /// What to do, in order.
    pub operations: Vec<Operation>,
    /// Whether to leave the loop afterwards.
    pub leave: bool,
}

/// What to do for an input.
pub fn plan(input: Input) -> (r: Plan)
    ensures
        operation_views(r.operations@) == planned(input@),
        r.leave == leaves(input@),
{
    let mut operations: Vec<Operation> = Vec::new();
    let mut leave = false;
    match input {
        Input::Help => {
            operations.push(Operation::ShowHelp);
        },
        Input::Define(name) => {
            operations.push(Operation::AppendDefinition(name));
            operations.push(Operation::Reload);
        },
        Input::Give(id, code) => {
            operations.push(Operation::Send(Cmd::give(GoalInput::no_range(id, code))));
            operations.push(Operation::Reload);
        },
        Input::Reload => {
            operations.push(Operation::Reload);
        },
        Input::Exit => {
            operations.push(Operation::Send(Cmd::Abort));
            operations.push(Operation::Shutdown);
            leave = true;
        },
        Input::Unknown(line) => {
            operations.push(Operation::Report(line));
        },
    }
    assert(operation_views(operations@) =~= planned(input@));
    Plan { operations, leave }
}

/// What to do for the line `text` that the user typed.
pub fn line(text: &str) -> (r: Plan)
    ensures
        operation_views(r.operations@) == planned(parsed_input(text@)),
        r.leave == leaves(parsed_input(text@)),
{
    plan(parse_input(text))
}

/// Every separator of words is white space.
pub proof fn lemma_separators_are_white_space(c: char)
    requires
        is_space(c),
    ensures
        is_white_space(c),
{
}

/// Where the white space from `i` on ends: not before `i`, not after the
/// end of the text, at a character that is no white space if at any, and
/// with nothing but white space on the way.
pub proof fn lemma_white_space_end(s: Seq<char>, i: int)
    requires
        0 <= i <= s.len(),
    ensures
        i <= white_space_end(s, i) <= s.len(),
        white_space_end(s, i) < s.len() ==> !is_white_space(s[white_space_end(s, i)]),
        forall|k: int| i <= k < white_space_end(s, i) ==> is_white_space(#[trigger] s[k]),
    decreases s.len() - i,
{
    if i < s.len() && is_white_space(s[i]) {
        lemma_white_space_end(s, i + 1);
    }
}

/// Where the text ends without the white space before `end`: not after
/// `end`, after a character that is no white space if after any, and
/// with nothing but white space from there to `end`.
pub proof fn lemma_trimmed_end(s: Seq<char>, end: int)
    requires
        0 <= end <= s.len(),
    ensures
        0 <= trimmed_end(s, end) <= end,
        trimmed_end(s, end) > 0 ==> !is_white_space(s[trimmed_end(s, end) - 1]),
        forall|k: int| trimmed_end(s, end) <= k < end ==> is_white_space(#[trigger] s[k]),
    decreases end,
{
    if 0 < end && is_white_space(s[end - 1]) {
        lemma_trimmed_end(s, end - 1);
    }
}

/// Trimming takes off the white space at the two ends and nothing else:
/// the line is white space, then the trimmed text, then white space; and
/// the trimmed text, where it is not empty, neither starts nor ends with
/// white space.
pub proof fn lemma_trimmed(s: Seq<char>)
    ensures
        ({
            let t = trimmed(s);
            &&& exists|before: Seq<char>, after: Seq<char>|
                {
                    &&& #[trigger] (before + t + after) == s
                    &&& forall|k: int| 0 <= k < before.len() ==> is_white_space(#[trigger] before[k])
                    &&& forall|k: int| 0 <= k < after.len() ==> is_white_space(#[trigger] after[k])
                }
            &&& t.len() > 0 ==> !is_white_space(t[0]) && !is_white_space(t.last())
        }),
{
    let len = s.len() as int;
    let from = white_space_end(s, 0);
    let to = trimmed_end(s, len);
    lemma_white_space_end(s, 0);
    lemma_trimmed_end(s, len);
    let t = trimmed(s);
    if from < to {
        let before = s.subrange(0, from);
        let after = s.subrange(to, len);
        assert(before + t + after =~= s);
        assert forall|k: int| 0 <= k < before.len() implies is_white_space(
            #[trigger] before[k],
        ) by {
            assert(before[k] == s[k]);
        }
        assert forall|k: int| 0 <= k < after.len() implies is_white_space(#[trigger] after[k]) by {
            assert(after[k] == s[to + k]);
        }
    } else {
        let before = s;
        let after = Seq::<char>::empty();
        assert(before + t + after =~= s);
        assert forall|k: int| 0 <= k < before.len() implies is_white_space(
            #[trigger] before[k],
        ) by {
            if k < from {
            } else {
                assert(to <= k);
            }
        }
    }
}

/// A line that is `help`, `reload` or `exit` once the white space at its
/// ends is left off asks for the help, for a reload, or to leave.
pub proof fn lemma_bare_words(text: Seq<char>)
    ensures
        trimmed(text) == "help"@ ==> parsed_input(text) == InputView::Help,
        trimmed(text) == "reload"@ ==> parsed_input(text) == InputView::Reload,
        trimmed(text) == "exit"@ ==> parsed_input(text) == InputView::Exit,
{
    reveal_strlit("help");
    reveal_strlit("reload");
    reveal_strlit("exit");
    reveal_with_fuel(word_end, 8);
    let t = trimmed(text);
    if t == "help"@ || t == "reload"@ || t == "exit"@ {
        assert(word_end(t, 0) == t.len());
        assert(t.subrange(0, t.len() as int) =~= t);
    }
}

/// A line that is `help` once the white space at its ends is left off
/// shows the help, writes nothing to Agda, and the loop goes on.
pub proof fn lemma_help_shows_the_help(text: Seq<char>)
    requires
        trimmed(text) == "help"@,
    ensures
        turned(ReadEventView::Line(text)) == TurnView::Run(seq![OperationView::ShowHelp], false),
{
    lemma_bare_words(text);
}

/// A line that is not understood is told back and goes nowhere: what is
/// done for it is the one report of the line, without the white space at
/// its ends, and the loop goes on.
pub proof fn lemma_unknown_input_is_not_sent(text: Seq<char>)
    requires
        parsed_input(text) is Unknown,
    ensures
        planned(parsed_input(text)) == seq![OperationView::Report(trimmed(text))],
        !leaves(parsed_input(text)),
{
}

/// Nothing but a give or an abort is ever written for a line: a command
/// that is sent for what the user typed is the give of the goal and text
/// that the line names, or the abort of an `exit`.
pub proof fn lemma_only_give_and_abort_are_sent(text: Seq<char>, k: int)
    requires
        0 <= k < planned(parsed_input(text)).len(),
        planned(parsed_input(text))[k] is Send,
    ensures
        k == 0,
        match parsed_input(text) {
            InputView::Give(id, code) => planned(parsed_input(text))[k] == OperationView::Send(
                give(id, code),
            ),
            InputView::Exit => planned(parsed_input(text))[k] == OperationView::Send(
                CmdView::Abort,
            ),
            _ => false,
        },
{
}

/// The two lines that start a definition of `name`: its type and its
/// value, both left open.
pub open spec fn definition(name: Seq<char>) -> Seq<Seq<char>> {
    seq![name + " : ?"@, name + " = ?"@]
}

/// The lines to add to the file for a definition of `name`.
pub fn definition_lines(name: &str) -> (r: Vec<String>)
    ensures
        texts(r@) == definition(name@),
{
    let mut signature = String::from_str(name);
    signature.append(" : ?");
    let mut body = String::from_str(name);
    body.append(" = ?");
    let mut out: Vec<String> = Vec::new();
    out.push(signature);
    out.push(body);
    assert(texts(out@) =~= definition(name@));
    out
}

/// What reading a line from the user came to.
#[derive(Debug, Clone, PartialEq, Eq)]
pub enum ReadEvent {
    /// The user typed this line.
    Line(String),
    /// The user interrupted the line: Ctrl-c.
    Interrupted,
    /// The input has ended: Ctrl-d.
    Eof,
    /// Reading failed; this says how.
    Failed(String),
}

/// What a [`ReadEvent`] says.
pub enum ReadEventView {
    Line(Seq<char>),
    Interrupted,
    Eof,
    Failed(Seq<char>),
}

impl View for ReadEvent {
    type V = ReadEventView;

    open spec fn view(&self) -> ReadEventView {
        match self {
            ReadEvent::Line(text) => ReadEventView::Line(text@),
            ReadEvent::Interrupted => ReadEventView::Interrupted,
            ReadEvent::Eof => ReadEventView::Eof,
            ReadEvent::Failed(how) => ReadEventView::Failed(how@),
        }
    }
}

/// What the loop does after reading.
#[derive(Debug, Clone, PartialEq, Eq)]
pub enum Turn {
    /// Do these operations, then read again, or leave where the plan
    /// says so.
    Run(Plan),
    /// Read again.
    Again,
    /// Show this, and leave.
    Leave(String),
}

/// What a [`Turn`] says.
pub enum TurnView {
    Run(Seq<OperationView>, bool),
    Again,
    Leave(Seq<char>),
}

impl View for Turn {
    type V = TurnView;

    open spec fn view(&self) -> TurnView {
        match self {
            Turn::Run(plan) => TurnView::Run(operation_views(plan.operations@), plan.leave),
            Turn::Again => TurnView::Again,
            Turn::Leave(message) => TurnView::Leave(message@),
        }
    }
}

/// What the loop does after a reading that came to `event`: a line is
/// carried out, an interrupted line is dropped, and the end of the input
/// or a failure ends the loop with a message.
pub open spec fn turned(event: ReadEventView) -> TurnView {
    match event {
        ReadEventView::Line(text) => TurnView::Run(
            planned(parsed_input(text)),
            leaves(parsed_input(text)),
        ),
        ReadEventView::Interrupted => TurnView::Again,
        ReadEventView::Eof => TurnView::Leave("Interrupted by Ctrl-d"@),
        ReadEventView::Failed(how) => TurnView::Leave("Error: "@ + how),
    }
}

/// What the loop does after a reading.
pub fn repl(event: ReadEvent) -> (r: Turn)
    ensures
        r@ == turned(event@),
{
    match event {
        ReadEvent::Line(text) => Turn::Run(line(text.as_str())),
        ReadEvent::Interrupted => Turn::Again,
        ReadEvent::Eof => Turn::Leave(String::from_str("Interrupted by Ctrl-d")),
        ReadEvent::Failed(how) => {
            let mut message = String::from_str("Error: ");
            message.append(how.as_str());
            Turn::Leave(message)
        },
    }
}

/// The prompt: `> ` in the plain loop, a lambda before it in the rich
/// one.
pub fn prompt(plain: bool) -> (r: &'static str)
    ensures
        r@ == (if plain {
            "> "@
        } else {
            "\u{03bb}> "@
        }),
{
    if plain {
        "> "
    } else {
        "\u{03bb}> "
    }
}

/// The help for the plain loop or for the rich one.
pub fn help(plain: bool) -> (r: &'static str)
    ensures
        r@ == (if plain {
            "You're in the plain REPL (with `--plain` flag)."@
        } else {
            "You're in the normal REPL, where there's completion, history command, hints and (in the future) colored output.\nThe rich mode is not compatible with Windows PowerShell ISE and Mintty(Cygwin, MinGW and (possibly, depends on your installation) git-bash).\nIf you're having problems with the rich mode, you may want to switch to the plain mode (restart agda-tac with `--plain` flag)."@
        }),
{
    if plain {
        "You're in the plain REPL (with `--plain` flag)."
    } else {
        "You're in the normal REPL, where there's completion, history command, hints and (in the future) colored output.\nThe rich mode is not compatible with Windows PowerShell ISE and Mintty(Cygwin, MinGW and (possibly, depends on your installation) git-bash).\nIf you're having problems with the rich mode, you may want to switch to the plain mode (restart agda-tac with `--plain` flag)."
    }
}

} // verus!
