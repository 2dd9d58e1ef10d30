//! The life of one conversation with Agda, from the client's side.
//!
//! A [`Session`] does no reading or writing. It is told what happens (the
//! process was started, a line came in, the output ended) and says what
//! that means: the line to write for a command, the response that a line
//! holds, whether the process may be closed. The phases follow one
//! another in one direction: not started, running, aborting, stopped.

use crate::cmd::{
    encode_iotcm, lemma_encoded_is_one_line, Cmd, CmdView, HighlightingLevel, HighlightingMethod,
    IOTCMView, IOTCM,
};
use crate::resp::{decode, decoded_line, DecodeError, Resp, RespView};
use vstd::prelude::*;
use vstd::string::StringExecFns;

verus! {

/// Where a session stands.
#[derive(Debug, Copy, Clone, PartialEq, Eq, Hash, Structural)]
pub enum Phase {
    /// No process yet.
    NotStarted,
    /// Commands go out and responses come in.
    Running,
    /// An abort was sent and its completion has not been seen.
    Aborting,
    /// The abort has completed, or the output has ended.
    Stopped,
}

/// What is shown of the traffic, for whoever drives the session.
#[derive(Debug, Copy, Clone, PartialEq, Eq, Hash, Structural)]
pub struct Settings {
    /// Show each command line that is written.
    pub debug_command: bool,
    /// Show each response line that is read.
    pub debug_response: bool,
}

/// Why a session refuses what it was asked.
#[derive(Debug, Copy, Clone, PartialEq, Eq, Hash, Structural)]
pub enum SessionError {
    /// The session has not been started, or it has stopped.
    NotRunning,
    /// The session is to be shut down while no abort has been sent.
    NotAborted,
    /// The line that was read is no response. The session goes on.
    Decode(DecodeError),
}

/// What to do about a shutdown.
#[derive(Debug, Copy, Clone, PartialEq, Eq, Hash, Structural)]
pub enum Shutdown {
    /// The abort has not completed: read on, and ask again.
    AwaitDone,
    /// Close the process's input and wait for it to exit.
    Close,
}

/// What happens to a session.
pub enum Event {
    /// The process was started.
    Started,
    /// A command was handed over to be written; `abort` says whether it
    /// was the abort command.
    Command { abort: bool },
    /// A line was read, and this is what decoding made of it.
    Line { outcome: Result<RespView, DecodeError> },
    /// The output of the process ended.
    End,
}

/// The phase that follows `phase` when `event` happens. What a session
/// refuses changes nothing.
pub open spec fn phase_after(phase: Phase, event: Event) -> Phase {
    match event {
        Event::Started => if phase == Phase::NotStarted {
            Phase::Running
        } else {
            phase
        },
        Event::Command { abort } => if phase == Phase::Running && abort {
            Phase::Aborting
        } else {
            phase
        },
        Event::Line { outcome } => if phase == Phase::Aborting && outcome == Ok::<
            RespView,
            DecodeError,
        >(RespView::DoneAborting) {
            Phase::Stopped
        } else {
            phase
        },
        Event::End => if phase == Phase::Running || phase == Phase::Aborting {
            Phase::Stopped
        } else {
            phase
        },
    }
}

/// Whether a session in `phase` takes commands and lines.
pub open spec fn is_live(phase: Phase) -> bool {
    phase == Phase::Running || phase == Phase::Aborting
}

/// The line that carries `command`: its envelope and a line end.
pub open spec fn command_line(
    level: HighlightingLevel,
    file: Seq<char>,
    method: HighlightingMethod,
    command: CmdView,
) -> Seq<char> {
    encode_iotcm(IOTCMView { level, file, method, command }) + "\n"@
}

/// What is written for a command is one line: it ends with a line feed
/// and holds no other, whatever the file's name and the command's
/// strings hold.
pub proof fn lemma_command_is_one_line(
    level: HighlightingLevel,
    file: Seq<char>,
    method: HighlightingMethod,
    command: CmdView,
)
    ensures
        ({
            let line = command_line(level, file, method, command);
            &&& line.len() > 0
            &&& line.last() == '\n'
            &&& forall|i: int| 0 <= i < line.len() - 1 ==> line[i] != '\n'
        }),
{
    reveal_strlit("\n");
    lemma_encoded_is_one_line(IOTCMView { level, file, method, command });
}

/// One conversation about one file.
#[derive(Debug, Clone)]
pub struct Session {
    phase: Phase,
    file: String,
    level: HighlightingLevel,
    method: HighlightingMethod,
    settings: Settings,
}

impl Session {
    /// Where the session stands.
    pub closed spec fn phase_of(&self) -> Phase {
        self.phase
    }

    /// The file that the session is about.
    pub closed spec fn file_of(&self) -> Seq<char> {
        self.file@
    }

    /// The highlighting level that its commands ask for.
    pub closed spec fn level_of(&self) -> HighlightingLevel {
        self.level
    }

    /// The highlighting method that its commands ask for.
    pub closed spec fn method_of(&self) -> HighlightingMethod {
        self.method
    }

    /// What is shown of its traffic.
    pub closed spec fn settings_of(&self) -> Settings {
        self.settings
    }

    /// Whether `other` is this session but for the phase.
    pub open spec fn same_configuration(&self, other: &Session) -> bool {
        &&& self.file_of() == other.file_of()
        &&& self.level_of() == other.level_of()
        &&& self.method_of() == other.method_of()
        &&& self.settings_of() == other.settings_of()
    }

    /// A session about `file` that has not been started, with the usual
    /// highlighting: non-interactive, sent directly.
    pub fn new(file: String, settings: Settings) -> (r: Self)
        ensures
            r.phase_of() == Phase::NotStarted,
            r.file_of() == file@,
            r.level_of() == HighlightingLevel::NonInteractive,
            r.method_of() == HighlightingMethod::Direct,
            r.settings_of() == settings,
    {
        Session {
            phase: Phase::NotStarted,
            file,
            level: HighlightingLevel::NonInteractive,
            method: HighlightingMethod::Direct,
            settings,
        }
    }

    /// The same session with other highlighting settings.
    pub fn with_highlighting(self, level: HighlightingLevel, method: HighlightingMethod) -> (r:
        Self)
        ensures
            r.phase_of() == self.phase_of(),
            r.file_of() == self.file_of(),
            r.level_of() == level,
            r.method_of() == method,
            r.settings_of() == self.settings_of(),
    {
        Session { phase: self.phase, file: self.file, level, method, settings: self.settings }
    }

    pub fn phase(&self) -> (r: Phase)
        ensures
            r == self.phase_of(),
    {
        self.phase
    }

    pub fn file(&self) -> (r: &str)
        ensures
            r@ == self.file_of(),
    {
        self.file.as_str()
    }

    pub fn settings(&self) -> (r: Settings)
        ensures
            r == self.settings_of(),
    {
        self.settings
    }

    /// The process was started: a session that was not started is running
    /// from now on. Any other stays as it is.
    pub fn started(&mut self)
        ensures
            final(self).phase_of() == phase_after(old(self).phase_of(), Event::Started),
            final(self).same_configuration(old(self)),
    {
        if self.phase == Phase::NotStarted {
            self.phase = Phase::Running;
        }
    }

    /// The line to write for `command`, line end included.
    ///
    /// A session that is not started or has stopped takes no command. The
    /// abort command turns a running session into an aborting one.
    pub fn command(&mut self, command: Cmd) -> (r: Result<String, SessionError>)
        ensures
            final(self).same_configuration(old(self)),
            r is Ok <==> is_live(old(self).phase_of()),
            r matches Ok(line) ==> line@ == command_line(
                old(self).level_of(),
                old(self).file_of(),
                old(self).method_of(),
                command@,
            ) && final(self).phase_of() == phase_after(
                old(self).phase_of(),
                Event::Command { abort: command@ is Abort },
            ),
            r matches Err(e) ==> e == SessionError::NotRunning && final(self).phase_of() == old(
                self,
            ).phase_of(),
    {
        match self.phase {
            Phase::NotStarted | Phase::Stopped => Err(SessionError::NotRunning),
            Phase::Running | Phase::Aborting => {
                let abort = match &command {
                    Cmd::Abort => true,
                    _ => false,
                };
                let envelope = IOTCM::new(self.level, self.file.clone(), self.method, command);
                let mut line = envelope.encode();
                line.append("\n");
                if abort && self.phase == Phase::Running {
                    self.phase = Phase::Aborting;
                }
                Ok(line)
            },
        }
    }

    /// The response that the line `line`, just read, holds.
    ///
    /// A session that is not started or has stopped takes no line. A line
    /// that is no response is reported and changes nothing. The response
    /// that says that the abort has completed stops an aborting session.
    pub fn response(&mut self, line: &str) -> (r: Result<Resp, SessionError>)
        ensures
            final(self).same_configuration(old(self)),
            !is_live(old(self).phase_of()) ==> r == Err::<Resp, SessionError>(
                SessionError::NotRunning,
            ) && final(self).phase_of() == old(self).phase_of(),
            is_live(old(self).phase_of()) ==> final(self).phase_of() == phase_after(
                old(self).phase_of(),
                Event::Line { outcome: decoded_line(line@) },
            ) && match r {
                Ok(resp) => decoded_line(line@) == Ok::<RespView, DecodeError>(resp@),
                Err(e) => decoded_line(line@) is Err && e == SessionError::Decode(
                    decoded_line(line@)->Err_0,
                ),
            },
    {
        match self.phase {
            Phase::NotStarted | Phase::Stopped => Err(SessionError::NotRunning),
            Phase::Running | Phase::Aborting => match decode(line) {
                Ok(resp) => {
                    let done = match &resp {
                        Resp::DoneAborting => true,
                        _ => false,
                    };
                    if done && self.phase == Phase::Aborting {
                        self.phase = Phase::Stopped;
                    }
                    Ok(resp)
                },
                Err(e) => Err(SessionError::Decode(e)),
            },
        }
    }

    /// The output of the process has ended: a session that was running or
    /// aborting has stopped.
    pub fn ended(&mut self)
        ensures
            final(self).phase_of() == phase_after(old(self).phase_of(), Event::End),
            final(self).same_configuration(old(self)),
    {
        if self.phase == Phase::Running || self.phase == Phase::Aborting {
            self.phase = Phase::Stopped;
        }
    }

    /// Whether the process may be closed now.
    ///
    /// It may once the session has stopped, and then as often as asked. An
    /// aborting session has to read on first. A session that is running
    /// has to be aborted first, and one that was never started has
    /// nothing to close: both are refused.
    pub fn shutdown(&self) -> (r: Result<Shutdown, SessionError>)
        ensures
            r == shutdown_of(self.phase_of()),
    {
        match self.phase {
            Phase::NotStarted => Err(SessionError::NotRunning),
            Phase::Running => Err(SessionError::NotAborted),
            Phase::Aborting => Ok(Shutdown::AwaitDone),
            Phase::Stopped => Ok(Shutdown::Close),
        }
    }
}

/// What a session in `phase` answers to a shutdown.
pub open spec fn shutdown_of(phase: Phase) -> Result<Shutdown, SessionError> {
    match phase {
        Phase::NotStarted => Err(SessionError::NotRunning),
        Phase::Running => Err(SessionError::NotAborted),
        Phase::Aborting => Ok(Shutdown::AwaitDone),
        Phase::Stopped => Ok(Shutdown::Close),
    }
}

/// The phase after all of `events` have happened, in order, to a session
/// in `phase`.
pub open spec fn phase_after_all(phase: Phase, events: Seq<Event>) -> Phase
    decreases events.len(),
{
    if events.len() == 0 {
        phase
    } else {
        phase_after(phase_after_all(phase, events.drop_last()), events.last())
    }
}

/// Whether an abort was handed over at `i` and its completion read at `j`.
pub open spec fn abort_completed(events: Seq<Event>, i: int, j: int) -> bool {
    &&& 0 <= i < j < events.len()
    &&& events[i] == (Event::Command { abort: true })
    &&& events[j] == (Event::Line {
        outcome: Ok::<RespView, DecodeError>(RespView::DoneAborting),
    })
}

/// Whether the output ended at `i`.
pub open spec fn output_ended(events: Seq<Event>, i: int) -> bool {
    0 <= i < events.len() && events[i] == Event::End
}

/// Whether an abort was handed over at `i`.
pub open spec fn abort_sent(events: Seq<Event>, i: int) -> bool {
    0 <= i < events.len() && events[i] == (Event::Command { abort: true })
}

/// A session is closed only after the abort that was sent has completed,
/// or after the output has ended: whatever happens to a session that was
/// not started, a shutdown is answered with `Close` only if, among what
/// happened, the completion of an abort was read after an abort was
/// handed over, or the output ended. Until then a shutdown is refused or
/// told to read on.
pub proof fn lemma_close_only_after_abort_completed(events: Seq<Event>)
    requires
        shutdown_of(phase_after_all(Phase::NotStarted, events)) == Ok::<Shutdown, SessionError>(
            Shutdown::Close,
        ),
    ensures
        (exists|i: int, j: int| abort_completed(events, i, j)) || (exists|i: int|
            output_ended(events, i)),
{
    lemma_phase_history(events);
}

/// What the phase says of what has happened: an aborting session was sent
/// an abort, and a stopped one has seen it complete or its output end.
pub proof fn lemma_phase_history(events: Seq<Event>)
    ensures
        phase_after_all(Phase::NotStarted, events) == Phase::Aborting ==> exists|i: int|
            abort_sent(events, i),
        phase_after_all(Phase::NotStarted, events) == Phase::Stopped ==> (exists|i: int, j: int|
            abort_completed(events, i, j)) || (exists|i: int| output_ended(events, i)),
    decreases events.len(),
{
    if events.len() > 0 {
        let before = events.drop_last();
        let last = events.len() - 1;
        lemma_phase_history(before);
        let phase = phase_after_all(Phase::NotStarted, before);
        let after = phase_after_all(Phase::NotStarted, events);
        if after == Phase::Aborting {
            if phase == Phase::Aborting {
                let i = choose|i: int| abort_sent(before, i);
                assert(abort_sent(events, i));
            } else {
                assert(abort_sent(events, last));
            }
        }
        if after == Phase::Stopped {
            if phase == Phase::Stopped {
                if exists|i: int, j: int| abort_completed(before, i, j) {
                    let (i, j) = choose|i: int, j: int| abort_completed(before, i, j);
                    assert(abort_completed(events, i, j));
                } else {
                    let i = choose|i: int| output_ended(before, i);
                    assert(output_ended(events, i));
                }
            } else if events.last() == Event::End {
                assert(output_ended(events, last));
            } else {
                let i = choose|i: int| abort_sent(before, i);
                assert(abort_completed(events, i, last));
            }
        }
    }
}

} // verus!
