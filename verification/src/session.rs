//! The session loop as a state machine. The caller does the outside work (it
//! writes downstream, opens and drops the connection, reads frames) and
//! reports how each action ended; the machine decides what comes next.
//!
//! One session is: write the reset notice, connect, then read, validate and
//! forward until something fails. A failure of the feed (a read error, a frame
//! that is no text, a rejected message) ends the session and starts the next
//! one. A failure to write downstream or to connect is fatal: the closing
//! notice is attempted once, then the machine asks for the exit.

use crate::connector::{df2txt, DataFrame};
use crate::continuity::Continuity;
use crate::matcher::Matchers;
use crate::packet::{field_text, Packet};
use vstd::prelude::*;

verus! {

/// The notice written downstream at the start of every session.
pub const RESETMSG: &'static str = r#"{"type":"reset"}"#;

/// The notice written downstream before the process ends.
pub const ENDMSG: &'static str = r#"{"type":"closing"}"#;

/// What the caller reports: how the action it was asked for has ended.
#[derive(Debug, Clone, PartialEq)]
pub enum Event {
    /// The action was carried out.
    Done,
    /// The action failed, with the cause.
    Failed(String),
    /// The read returned this frame.
    Frame(DataFrame),
}

/// A report after the frame in it, if any, has been narrowed to its text and
/// classified.
#[derive(Debug, Clone, PartialEq)]
pub enum Input {
    /// The action was carried out.
    Done,
    /// The action failed, with the cause.
    Failed(String),
    /// The read returned a text frame with this text and classification.
    Message(String, Packet),
    /// The read returned a frame that is no text.
    NotText,
}

/// What the caller is asked to do next.
#[derive(Debug, Clone, PartialEq)]
pub enum Action {
    /// Write [`RESETMSG`] downstream.
    SendReset,
    /// Open a session with the feed.
    Connect,
    /// Read the next frame of the session.
    ReadFrame,
    /// Write this text, an accepted message, downstream as it is.
    Forward(String),
    /// Drop the connection of the session.
    Disconnect,
    /// Write [`ENDMSG`] downstream; how that ends changes nothing.
    SendClosing,
    /// End the process with this cause.
    Exit(String),
}

/// Where the loop stands: the action that is under way.
#[derive(Debug, Clone, PartialEq)]
pub enum Phase {
    /// The reset notice is being written.
    Resetting,
    /// The session is being opened.
    Connecting,
    /// The next frame is being read.
    Reading,
    /// This accepted message is being written downstream.
    Forwarding(String),
    /// The connection is being dropped.
    Disconnecting,
    /// The closing notice is being written after a fatal failure with this
    /// cause.
    Closing(String),
    /// The process is to end with this cause.
    Terminated(String),
}

/// The session loop: where it stands and the continuity state of the
/// current session.
#[derive(Debug, Clone, PartialEq)]
pub struct Session {
    phase: Phase,
    continuity: Continuity,
}

/// The model of an [`Input`].
pub enum InputView {
    Done,
    Failed(Seq<char>),
    Message(Seq<char>, Packet),
    NotText,
}

/// The model of an [`Action`].
pub enum ActionView {
    SendReset,
    Connect,
    ReadFrame,
    Forward(Seq<char>),
    Disconnect,
    SendClosing,
    Exit(Seq<char>),
}

/// The model of a [`Phase`].
pub enum PhaseView {
    Resetting,
    Connecting,
    Reading,
    Forwarding(Seq<char>),
    Disconnecting,
    Closing(Seq<char>),
    Terminated(Seq<char>),
}

/// The model of a [`Session`].
pub struct SessionView {
    pub phase: PhaseView,
    pub continuity: Continuity,
}

impl View for Input {
    type V = InputView;

    open spec fn view(&self) -> InputView {
        match *self {
            Input::Done => InputView::Done,
            Input::Failed(cause) => InputView::Failed(cause@),
            Input::Message(text, packet) => InputView::Message(text@, packet),
            Input::NotText => InputView::NotText,
        }
    }
}

impl View for Action {
    type V = ActionView;

    open spec fn view(&self) -> ActionView {
        match *self {
            Action::SendReset => ActionView::SendReset,
            Action::Connect => ActionView::Connect,
            Action::ReadFrame => ActionView::ReadFrame,
            Action::Forward(text) => ActionView::Forward(text@),
            Action::Disconnect => ActionView::Disconnect,
            Action::SendClosing => ActionView::SendClosing,
            Action::Exit(cause) => ActionView::Exit(cause@),
        }
    }
}

impl View for Phase {
    type V = PhaseView;

    open spec fn view(&self) -> PhaseView {
        match *self {
            Phase::Resetting => PhaseView::Resetting,
            Phase::Connecting => PhaseView::Connecting,
            Phase::Reading => PhaseView::Reading,
            Phase::Forwarding(text) => PhaseView::Forwarding(text@),
            Phase::Disconnecting => PhaseView::Disconnecting,
            Phase::Closing(cause) => PhaseView::Closing(cause@),
            Phase::Terminated(cause) => PhaseView::Terminated(cause@),
        }
    }
}

impl View for Session {
    type V = SessionView;

    closed spec fn view(&self) -> SessionView {
        SessionView { phase: self.phase@, continuity: self.continuity }
    }
}

impl Event {
    /// The report with its frame narrowed to text and classified: a frame
    /// that is text becomes a message with the classification that the
    /// matchers give, any other frame is no text.
    pub open spec fn classified(self, matchers: Matchers) -> InputView {
        match self {
            Event::Done => InputView::Done,
            Event::Failed(cause) => InputView::Failed(cause@),
            Event::Frame(frame) => match frame.text() {
                Some(text) => InputView::Message(text, Packet::spec_new(text, matchers)),
                None => InputView::NotText,
            },
        }
    }

    /// Narrows the frame of a report to its text and classifies it.
    pub fn classify(self, matchers: &Matchers) -> (input: Input)
        ensures
            input@ == self.classified(*matchers),
    {
        match self {
            Event::Done => Input::Done,
            Event::Failed(cause) => Input::Failed(cause),
            Event::Frame(frame) => match df2txt(&frame) {
                Ok(text) => {
                    let packet = Packet::new(text, matchers);
                    Input::Message(text.to_owned(), packet)
                },
                Err(_) => Input::NotText,
            },
        }
    }
}

impl ActionView {
    /// What an action writes downstream: the reset notice, an accepted
    /// message as it was received, or the closing notice. No other action
    /// writes.
    pub open spec fn written(self) -> Option<Seq<char>> {
        match self {
            ActionView::SendReset => Some(RESETMSG@),
            ActionView::Forward(text) => Some(text),
            ActionView::SendClosing => Some(ENDMSG@),
            _ => None,
        }
    }
}

impl Action {
    /// The text that this action writes downstream, if it writes.
    pub fn downstream_text(&self) -> (text: Option<&str>)
        ensures
            field_text(text) == self@.written(),
    {
        match self {
            Action::SendReset => Some(RESETMSG),
            Action::Forward(text) => Some(text.as_str()),
            Action::SendClosing => Some(ENDMSG),
            _ => None,
        }
    }
}

impl SessionView {
    /// The state in which every run starts: the first reset notice is to be
    /// written, and nothing has been accepted.
    pub open spec fn start() -> SessionView {
        SessionView { phase: PhaseView::Resetting, continuity: Continuity::Uninitialized }
    }

    /// The action that is under way in this state.
    pub open spec fn pending(self) -> ActionView {
        match self.phase {
            PhaseView::Resetting => ActionView::SendReset,
            PhaseView::Connecting => ActionView::Connect,
            PhaseView::Reading => ActionView::ReadFrame,
            PhaseView::Forwarding(text) => ActionView::Forward(text),
            PhaseView::Disconnecting => ActionView::Disconnect,
            PhaseView::Closing(_) => ActionView::SendClosing,
            PhaseView::Terminated(cause) => ActionView::Exit(cause),
        }
    }

    /// Whether a report answers the action that is under way: a read is
    /// answered by a frame or a failure, every other action by its success or
    /// failure, and the exit by nothing.
    pub open spec fn awaits(self, input: InputView) -> bool {
        match self.phase {
            PhaseView::Terminated(_) => false,
            PhaseView::Reading => !(input is Done),
            _ => input is Done || input is Failed,
        }
    }

    /// The state after a report. A report that does not answer the action
    /// under way changes nothing.
    pub open spec fn next(self, input: InputView) -> SessionView {
        if !self.awaits(input) {
            self
        } else {
            match (self.phase, input) {
                (PhaseView::Resetting, InputView::Done) => SessionView {
                    phase: PhaseView::Connecting,
                    ..self
                },
                (PhaseView::Connecting, InputView::Done) => SessionView {
                    phase: PhaseView::Reading,
                    ..self
                },
                (PhaseView::Forwarding(_), InputView::Done) => SessionView {
                    phase: PhaseView::Reading,
                    ..self
                },
                (PhaseView::Reading, InputView::Message(text, packet)) => if self.continuity.accepts(
                    packet,
                ) {
                    SessionView {
                        phase: PhaseView::Forwarding(text),
                        continuity: self.continuity.after(packet),
                    }
                } else {
                    SessionView { phase: PhaseView::Disconnecting, ..self }
                },
                (PhaseView::Reading, _) => SessionView { phase: PhaseView::Disconnecting, ..self },
                (PhaseView::Disconnecting, _) => SessionView::start(),
                (PhaseView::Closing(cause), _) => SessionView {
                    phase: PhaseView::Terminated(cause),
                    ..self
                },
                (_, InputView::Failed(cause)) => SessionView {
                    phase: PhaseView::Closing(cause),
                    ..self
                },
                _ => self,
            }
        }
    }
}

impl SessionView {
    /// A message is handed on for forwarding only from a read, only as it was
    /// received, and only where the continuity tracker accepts its
    /// classification; the tracker then stands where that acceptance leaves
    /// it.
    pub proof fn forwarded_was_accepted(self, input: InputView)
        requires
            self.awaits(input),
            self.next(input).phase is Forwarding,
        ensures
            self.phase is Reading,
            input matches InputView::Message(text, packet) && self.continuity.accepts(packet)
                && self.next(input).phase == PhaseView::Forwarding(text) && self.next(
                input,
            ).continuity == self.continuity.after(packet),
    {
    }

    /// A read that fails, a frame that is no text and a rejected message each
    /// end the session without forwarding anything and without touching the
    /// continuity state.
    pub proof fn feed_failure_ends_session(self, input: InputView)
        requires
            self.phase is Reading,
            input is Failed || input is NotText || (input matches InputView::Message(_, packet)
                && !self.continuity.accepts(packet)),
        ensures
            self.next(input) == (SessionView { phase: PhaseView::Disconnecting, ..self }),
            self.next(input).pending() == ActionView::Disconnect,
    {
    }

    /// The connection is opened only in answer to a reset notice that was
    /// written, and a reset notice is due only at the start of a run and
    /// after a session was torn down, each time with nothing accepted yet.
    pub proof fn reset_precedes_connect(self, input: InputView)
        ensures
            self.next(input).phase is Connecting ==> (self.phase is Connecting && !self.awaits(
                input,
            )) || (self.phase is Resetting && input is Done),
            self.next(input).phase is Resetting ==> (self.phase is Resetting && !self.awaits(
                input,
            )) || (self.phase is Disconnecting && self.next(input) == SessionView::start()),
            SessionView::start().pending() == ActionView::SendReset,
    {
    }

    /// A failed reset, connect or forward is fatal, and nothing else is. The
    /// closing notice is then asked for once: however that ends, the exit
    /// follows with the cause of the failure, and the exit is final.
    pub proof fn closing_once_then_exit(self, input: InputView)
        ensures
            self.next(input).phase is Closing && !(self.phase is Closing) ==> input is Failed && (
            self.phase is Resetting || self.phase is Connecting || self.phase is Forwarding)
                && self.next(input).phase == PhaseView::Closing(input->Failed_0),
            self.phase matches PhaseView::Closing(cause) ==> (self.awaits(input) ==> self.next(
                input,
            ).phase == PhaseView::Terminated(cause)),
            self.phase is Terminated ==> self.next(input) == self,
            self.next(input).phase is Terminated ==> self.phase is Closing || self.phase
                is Terminated,
    {
    }

    /// The continuity state changes in two ways only: a read accepts a
    /// message, or a session that was torn down gives way to a new one.
    pub proof fn continuity_changes(self, input: InputView)
        requires
            self.next(input).continuity != self.continuity,
        ensures
            self.phase is Reading || self.phase is Disconnecting,
            self.phase is Reading ==> (input matches InputView::Message(_, packet)
                && self.continuity.accepts(packet) && self.next(input).continuity
                == self.continuity.after(packet)),
            self.phase is Disconnecting ==> self.next(input).continuity is Uninitialized,
    {
    }
}

impl Session {
    /// The loop before anything has happened.
    pub fn new() -> (session: Session)
        ensures
            session@ == SessionView::start(),
    {
        Session { phase: Phase::Resetting, continuity: Continuity::new() }
    }

    /// The continuity state of the current session.
    pub fn continuity(&self) -> (state: Continuity)
        ensures
            state == self@.continuity,
    {
        self.continuity
    }

    /// Where the loop stands.
    pub fn phase(&self) -> (phase: &Phase)
        ensures
            phase@ == self@.phase,
    {
        &self.phase
    }

    /// The action that is under way.
    pub fn pending(&self) -> (action: Action)
        ensures
            action@ == self@.pending(),
    {
        match &self.phase {
            Phase::Resetting => Action::SendReset,
            Phase::Connecting => Action::Connect,
            Phase::Reading => Action::ReadFrame,
            Phase::Forwarding(text) => Action::Forward(text.clone()),
            Phase::Disconnecting => Action::Disconnect,
            Phase::Closing(_) => Action::SendClosing,
            Phase::Terminated(cause) => Action::Exit(cause.clone()),
        }
    }

    /// Takes a classified report and returns the action to carry out next.
    ///
    /// Only an accepted message is forwarded, and it is forwarded as it was
    /// received. A frame that is no text, a rejected message and a failed
    /// read end the session; the continuity state is left as it was until
    /// the next session starts from nothing. A failed write or connect leads
    /// to the closing notice and then, however that goes, to the exit.
    pub fn advance(&mut self, input: Input) -> (action: Action)
        ensures
            final(self)@ == old(self)@.next(input@),
            action@ == final(self)@.pending(),
    {
        match &self.phase {
            Phase::Terminated(_) => {},
            Phase::Reading => match input {
                Input::Done => {},
                Input::Message(text, packet) => {
                    if packet.handle(&mut self.continuity) {
                        self.phase = Phase::Forwarding(text);
                    } else {
                        self.phase = Phase::Disconnecting;
                    }
                },
                _ => {
                    self.phase = Phase::Disconnecting;
                },
            },
            Phase::Disconnecting => match input {
                Input::Done | Input::Failed(_) => {
                    self.phase = Phase::Resetting;
                    self.continuity = Continuity::new();
                },
                _ => {},
            },
            Phase::Closing(cause) => match input {
                Input::Done | Input::Failed(_) => {
                    let cause = cause.clone();
                    self.phase = Phase::Terminated(cause);
                },
                _ => {},
            },
            Phase::Resetting => match input {
                Input::Done => {
                    self.phase = Phase::Connecting;
                },
                Input::Failed(cause) => {
                    self.phase = Phase::Closing(cause);
                },
                _ => {},
            },
            Phase::Connecting | Phase::Forwarding(_) => match input {
                Input::Done => {
                    self.phase = Phase::Reading;
                },
                Input::Failed(cause) => {
                    self.phase = Phase::Closing(cause);
                },
                _ => {},
            },
        }
        self.pending()
    }

    /// Takes a report and returns the action to carry out next: the frame of
    /// the report, if any, is narrowed to its text and classified, and the
    /// loop advances on the result.
    pub fn step(&mut self, event: Event, matchers: &Matchers) -> (action: Action)
        ensures
            final(self)@ == old(self)@.next(event.classified(*matchers)),
            action@ == final(self)@.pending(),
    {
        let input = event.classify(matchers);
        self.advance(input)
    }
}

} // verus!
