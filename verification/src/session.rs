//! One session from end to end: the two state machines, and the strict
//! alternation of operation and response while a session is served.
//!
//! The host sends exactly one operation and then waits for exactly one
//! response of the matching kind; the client reads one operation, carries it
//! out, and sends exactly one response before it reads the next. There are no
//! request identifiers and nothing is ever in flight twice, so a value that is
//! sent or awaited out of turn leaves the two ends out of step for good: it is
//! a protocol fault and ends the channel.
//!
//! Nothing here touches the network, the file system or a process. The loop
//! around these functions performs what they ask and hands back what came.

use crate::cipher::encrypted;
use crate::handshake::{
    claimed_name, Handshake, HandshakeOutcome, HostRejectionReason, perform_host_handshake,
};
use crate::operation::{
    category_of_operation, category_of_response, Fault, FaultView, lemma_operation_round_trip,
    lemma_response_round_trip, Operation, operation_encoding, operation_fits, OperationView,
    outcome_view, parse_operation, parse_response, Response, response_encoding, response_fits,
    ResponseCategory, ResponseView,
};
use crate::stream::{ChannelFault, opened, sealed, SecureChannel};
use crate::wire::{fits_prefix, flag_byte, lemma_has_at_whole};
use vstd::prelude::*;

verus! {

// ---------------------------------------------------------------------------
// The two state machines
// ---------------------------------------------------------------------------

/// Where the host's loop stands.
#[derive(Debug, Clone, Copy, PartialEq, Eq, Structural)]
pub enum ControllerState {
    /// Not started.
    Idle,
    /// Waiting for a client to connect.
    Listening,
    /// A client has connected; its handshake is under way.
    Handshaking,
    /// A client was accepted; operations are sent to it.
    Serving,
}

/// What can happen to the host's loop.
#[derive(Debug, Clone, Copy, PartialEq, Eq, Structural)]
pub enum ControllerEvent {
    /// The listener is bound.
    Started,
    /// A client has connected.
    Connected,
    /// The handshake accepted the client.
    Accepted,
    /// The handshake turned the client away, by an answer or by a fault.
    Rejected,
    /// The channel of the session ended in a fault, or the client closed the
    /// connection.
    ChannelLost,
}

/// The state of the host's loop after `event`: from idle to listening, from
/// listening to the handshake, from there on to serving or back to
/// listening, and from serving back to listening when the channel is lost.
/// An event that has no meaning in a state leaves the state as it is; a
/// client that connects while another is served is one of them.
pub open spec fn controller_after(state: ControllerState, event: ControllerEvent) -> ControllerState {
    match (state, event) {
        (ControllerState::Idle, ControllerEvent::Started) => ControllerState::Listening,
        (ControllerState::Listening, ControllerEvent::Connected) => ControllerState::Handshaking,
        (ControllerState::Handshaking, ControllerEvent::Accepted) => ControllerState::Serving,
        (ControllerState::Handshaking, ControllerEvent::Rejected) => ControllerState::Listening,
        (ControllerState::Handshaking, ControllerEvent::ChannelLost) => ControllerState::Listening,
        (ControllerState::Serving, ControllerEvent::ChannelLost) => ControllerState::Listening,
        _ => state,
    }
}

/// The next state of the host's loop.
pub fn controller_step(state: ControllerState, event: ControllerEvent) -> (r: ControllerState)
    ensures
        r == controller_after(state, event),
{
    match (state, event) {
        (ControllerState::Idle, ControllerEvent::Started) => ControllerState::Listening,
        (ControllerState::Listening, ControllerEvent::Connected) => ControllerState::Handshaking,
        (ControllerState::Handshaking, ControllerEvent::Accepted) => ControllerState::Serving,
        (ControllerState::Handshaking, ControllerEvent::Rejected) => ControllerState::Listening,
        (ControllerState::Handshaking, ControllerEvent::ChannelLost) => ControllerState::Listening,
        (ControllerState::Serving, ControllerEvent::ChannelLost) => ControllerState::Listening,
        _ => state,
    }
}

/// Where the client's loop stands.
#[derive(Debug, Clone, Copy, PartialEq, Eq, Structural)]
pub enum AgentState {
    /// Not started.
    Idle,
    /// Trying to reach the host.
    Connecting,
    /// Connected; the handshake is under way.
    Handshaking,
    /// Accepted; operations are read and answered.
    Serving,
}

/// What can happen to the client's loop.
#[derive(Debug, Clone, Copy, PartialEq, Eq, Structural)]
pub enum AgentEvent {
    /// The configuration is loaded.
    Started,
    /// The host was reached.
    Connected,
    /// The host accepted the client.
    Accepted,
    /// The host turned the client away.
    Rejected,
    /// The connection failed or was closed, or the channel ended in a fault.
    ChannelLost,
}

/// The state of the client's loop after `event`: from idle to connecting,
/// from connecting to the handshake, from there on to serving, and back to
/// connecting whenever the host turns the client away or the connection is
/// lost. An event that has no meaning in a state leaves the state as it is.
pub open spec fn agent_after(state: AgentState, event: AgentEvent) -> AgentState {
    match (state, event) {
        (AgentState::Idle, AgentEvent::Started) => AgentState::Connecting,
        (AgentState::Connecting, AgentEvent::Connected) => AgentState::Handshaking,
        (AgentState::Handshaking, AgentEvent::Accepted) => AgentState::Serving,
        (AgentState::Handshaking, AgentEvent::Rejected) => AgentState::Connecting,
        (AgentState::Handshaking, AgentEvent::ChannelLost) => AgentState::Connecting,
        (AgentState::Serving, AgentEvent::ChannelLost) => AgentState::Connecting,
        _ => state,
    }
}

/// The next state of the client's loop.
pub fn agent_step(state: AgentState, event: AgentEvent) -> (r: AgentState)
    ensures
        r == agent_after(state, event),
{
    match (state, event) {
        (AgentState::Idle, AgentEvent::Started) => AgentState::Connecting,
        (AgentState::Connecting, AgentEvent::Connected) => AgentState::Handshaking,
        (AgentState::Handshaking, AgentEvent::Accepted) => AgentState::Serving,
        (AgentState::Handshaking, AgentEvent::Rejected) => AgentState::Connecting,
        (AgentState::Handshaking, AgentEvent::ChannelLost) => AgentState::Connecting,
        (AgentState::Serving, AgentEvent::ChannelLost) => AgentState::Connecting,
        _ => state,
    }
}

// ---------------------------------------------------------------------------
// What a frame holds
// ---------------------------------------------------------------------------

/// The operation that a frame holds at its front, read under `secret`, and
/// the position behind it. A frame that does not open is the fault of
/// [`opened`]; a plaintext that is no operation is a protocol fault.
pub open spec fn operation_in(secret: Seq<char>, frame: Seq<u8>) -> Result<
    (OperationView, int),
    ChannelFault,
> {
    match opened(secret, frame) {
        Ok(plain) => match parse_operation(plain, 0) {
            Some(found) => Ok(found),
            None => Err(ChannelFault::ProtocolFault),
        },
        Err(fault) => Err(fault),
    }
}

/// The response that a frame holds at its front, read under `secret`, and
/// the position behind it.
pub open spec fn response_in(secret: Seq<char>, frame: Seq<u8>) -> Result<
    (ResponseView, int),
    ChannelFault,
> {
    match opened(secret, frame) {
        Ok(plain) => match parse_response(plain, 0) {
            Some(found) => Ok(found),
            None => Err(ChannelFault::ProtocolFault),
        },
        Err(fault) => Err(fault),
    }
}

// ---------------------------------------------------------------------------
// The host's end of a session
// ---------------------------------------------------------------------------

/// Whose turn it is on the host's end, and what went before.
struct Turn {
    awaited: Option<ResponseCategory>,
    sent: Ghost<Seq<ResponseCategory>>,
    answered: Ghost<Seq<ResponseCategory>>,
}

impl Turn {
    #[verifier::type_invariant]
    spec fn well_formed(&self) -> bool {
        match self.awaited {
            Some(category) => self.sent@ == self.answered@.push(category),
            None => self.sent@ == self.answered@,
        }
    }
}

/// A secure connection to the client.
pub struct ClientConnection {
    stream: SecureChannel,
    turn: Turn,
}

/// What the host's end of a session holds.
pub struct ClientConnectionView {
    /// The shared secret.
    pub secret: Seq<char>,
    /// The fault that ended the session, if one did.
    pub fault: Option<ChannelFault>,
    /// The kind of response that is awaited, while an operation is
    /// unanswered.
    pub awaited: Option<ResponseCategory>,
    /// For each operation sent so far, the kind of response that answers it.
    pub sent: Seq<ResponseCategory>,
    /// The kind of each response read so far.
    pub answered: Seq<ResponseCategory>,
}

/// Alternation on the host's end: the responses read answer, one for one and
/// in order, the operations sent, but for the one operation that is still
/// unanswered, if there is one.
pub open spec fn alternates(view: ClientConnectionView) -> bool {
    match view.awaited {
        Some(category) => view.sent == view.answered.push(category),
        None => view.sent == view.answered,
    }
}

impl View for ClientConnection {
    type V = ClientConnectionView;

    closed spec fn view(&self) -> ClientConnectionView {
        ClientConnectionView {
            secret: self.stream@.secret,
            fault: self.stream@.fault,
            awaited: self.turn.awaited,
            sent: self.turn.sent@,
            answered: self.turn.answered@,
        }
    }
}

impl ClientConnection {
    /// The host's end of a session over `stream`. Nothing was sent yet.
    /// Whatever was written to `stream` and not flushed is never sent.
    pub fn new(stream: SecureChannel) -> (r: Self)
        ensures
            r@ == (ClientConnectionView {
                secret: stream@.secret,
                fault: stream@.fault,
                awaited: None,
                sent: Seq::empty(),
                answered: Seq::empty(),
            }),
            alternates(r@),
    {
        Self {
            stream,
            turn: Turn { awaited: None, sent: Ghost(Seq::empty()), answered: Ghost(Seq::empty()) },
        }
    }

    /// The fault that ended the session, if one did.
    pub fn fault(&self) -> (r: Option<ChannelFault>)
        ensures
            r == self@.fault,
    {
        self.stream.fault()
    }

    /// Whether an operation was sent and its response not read yet.
    pub fn is_awaiting(&self) -> (r: bool)
        ensures
            r == (self@.awaited is Some),
    {
        self.turn.awaited.is_some()
    }

    /// Serializes the given operation and seals it in one frame, which is
    /// returned to be sent. The connection then awaits the response of the
    /// matching kind.
    ///
    /// - On a session that a fault has ended: that fault; nothing changes.
    /// - While an earlier operation is unanswered: a protocol fault, which
    ///   ends the session.
    /// - Where the operation or its ciphertext is too long for the wire:
    ///   [`ChannelFault::TooLarge`]; nothing changes, and another operation
    ///   can be sent.
    pub fn send_operation(&mut self, operation: &Operation) -> (r: Result<Vec<u8>, ChannelFault>)
        ensures
            alternates(final(self)@),
            match old(self)@.fault {
                Some(fault) => r matches Err(found) && found == fault && final(self)@ == old(
                    self,
                )@,
                None => if old(self)@.awaited is Some {
                    &&& r matches Err(ChannelFault::ProtocolFault)
                    &&& final(self)@ == (ClientConnectionView {
                        fault: Some(ChannelFault::ProtocolFault),
                        ..old(self)@
                    })
                } else if operation_fits(operation@) && fits_prefix(
                    encrypted(old(self)@.secret, operation_encoding(operation@)).len(),
                ) {
                    &&& r matches Ok(frame)
                    &&& frame@ == sealed(old(self)@.secret, operation_encoding(operation@))
                    &&& operation_in(old(self)@.secret, frame@) == Ok::<_, ChannelFault>(
                        (operation@, operation_encoding(operation@).len() as int),
                    )
                    &&& final(self)@ == (ClientConnectionView {
                        awaited: Some(category_of_operation(operation@)),
                        sent: old(self)@.sent.push(category_of_operation(operation@)),
                        ..old(self)@
                    })
                } else {
                    r matches Err(ChannelFault::TooLarge) && final(self)@ == old(self)@
                },
            },
    {
        proof {
            use_type_invariant(&self.turn);
        }
        if let Some(fault) = self.stream.fault() {
            return Err(fault);
        }
        if self.turn.awaited.is_some() {
            self.stream.poison(ChannelFault::ProtocolFault);
            return Err(ChannelFault::ProtocolFault);
        }
        self.stream.discard();
        match self.stream.writes_operation(operation) {
            Err(fault) => { return Err(fault); },
            Ok(_) => {},
        }
        match self.stream.flush() {
            Err(fault) => {
                self.stream.discard();
                Err(fault)
            },
            Ok(frame) => {
                let category = operation.category();
                proof {
                    law_operation_round_trip(self.stream@.secret, operation@, frame@);
                }
                self.turn = Turn {
                    awaited: Some(category),
                    sent: Ghost(self.turn.sent@.push(category)),
                    answered: self.turn.answered,
                };
                Ok(frame)
            },
        }
    }

    /// Reads and deserializes the [Response] that `frame` holds, and checks
    /// that it is of the kind that the operation sent last is answered by.
    ///
    /// - On a session that a fault has ended: that fault; nothing changes.
    /// - While no operation is unanswered: a protocol fault.
    /// - Where the frame does not open: the fault of [`opened`].
    /// - Where its plaintext is no response, or a response of another kind:
    ///   a protocol fault.
    ///
    /// Each of the last three ends the session.
    pub fn read_response(&mut self, frame: &[u8]) -> (r: Result<Response, ChannelFault>)
        ensures
            alternates(final(self)@),
            match old(self)@.fault {
                Some(fault) => r matches Err(found) && found == fault && final(self)@ == old(
                    self,
                )@,
                None => match old(self)@.awaited {
                    None => {
                        &&& r matches Err(ChannelFault::ProtocolFault)
                        &&& final(self)@ == (ClientConnectionView {
                            fault: Some(ChannelFault::ProtocolFault),
                            ..old(self)@
                        })
                    },
                    Some(category) => match response_in(old(self)@.secret, frame@) {
                        Err(fault) => {
                            &&& r matches Err(found)
                            &&& found == fault
                            &&& final(self)@ == (ClientConnectionView {
                                fault: Some(fault),
                                ..old(self)@
                            })
                        },
                        Ok((response, _)) => if category_of_response(response) == category {
                            &&& r matches Ok(found)
                            &&& found@ == response
                            &&& final(self)@ == (ClientConnectionView {
                                awaited: None,
                                answered: old(self)@.answered.push(category),
                                ..old(self)@
                            })
                        } else {
                            &&& r matches Err(ChannelFault::ProtocolFault)
                            &&& final(self)@ == (ClientConnectionView {
                                fault: Some(ChannelFault::ProtocolFault),
                                ..old(self)@
                            })
                        },
                    },
                },
            },
    {
        proof {
            use_type_invariant(&self.turn);
        }
        if let Some(fault) = self.stream.fault() {
            return Err(fault);
        }
        let category = match self.turn.awaited {
            None => {
                self.stream.poison(ChannelFault::ProtocolFault);
                return Err(ChannelFault::ProtocolFault);
            },
            Some(category) => category,
        };
        match self.stream.receive(frame) {
            Err(fault) => { return Err(fault); },
            Ok(_) => {},
        }
        let response = match self.stream.reads_response() {
            Err(fault) => { return Err(fault); },
            Ok(response) => response,
        };
        if response.category() == category {
            self.turn = Turn {
                awaited: None,
                sent: self.turn.sent,
                answered: Ghost(self.turn.answered@.push(category)),
            };
            Ok(response)
        } else {
            self.stream.poison(ChannelFault::ProtocolFault);
            Err(ChannelFault::ProtocolFault)
        }
    }
}

// ---------------------------------------------------------------------------
// The client's end of a session
// ---------------------------------------------------------------------------

/// A secure connection to the host.
pub struct HostConnection {
    stream: SecureChannel,
    owed: Option<ResponseCategory>,
}

/// What the client's end of a session holds.
pub struct HostConnectionView {
    /// The shared secret.
    pub secret: Seq<char>,
    /// The fault that ended the session, if one did.
    pub fault: Option<ChannelFault>,
    /// The kind of response that the client owes, while an operation that it
    /// read is unanswered.
    pub owed: Option<ResponseCategory>,
}

impl View for HostConnection {
    type V = HostConnectionView;

    closed spec fn view(&self) -> HostConnectionView {
        HostConnectionView {
            secret: self.stream@.secret,
            fault: self.stream@.fault,
            owed: self.owed,
        }
    }
}

impl HostConnection {
    /// Instantiates a new HostConnection. No response is owed yet. Whatever
    /// was written to `stream` and not flushed is never sent.
    pub fn new(stream: SecureChannel) -> (r: Self)
        ensures
            r@ == (HostConnectionView {
                secret: stream@.secret,
                fault: stream@.fault,
                owed: None,
            }),
    {
        Self { stream, owed: None }
    }

    /// The fault that ended the session, if one did.
    pub fn fault(&self) -> (r: Option<ChannelFault>)
        ensures
            r == self@.fault,
    {
        self.stream.fault()
    }

    /// Whether an operation was read and its response not sent yet.
    pub fn is_owing(&self) -> (r: bool)
        ensures
            r == (self@.owed is Some),
    {
        self.owed.is_some()
    }

    /// Reads and deserializes the operation that `frame` holds. The client
    /// then owes the response of the matching kind.
    ///
    /// - On a session that a fault has ended: that fault; nothing changes.
    /// - While the response to an earlier operation is owed: a protocol
    ///   fault.
    /// - Where the frame does not open: the fault of [`opened`].
    /// - Where its plaintext is no operation: a protocol fault.
    ///
    /// Each of the last three ends the session.
    pub fn read_operation(&mut self, frame: &[u8]) -> (r: Result<Operation, ChannelFault>)
        ensures
            match old(self)@.fault {
                Some(fault) => r matches Err(found) && found == fault && final(self)@ == old(
                    self,
                )@,
                None => if old(self)@.owed is Some {
                    &&& r matches Err(ChannelFault::ProtocolFault)
                    &&& final(self)@ == (HostConnectionView {
                        fault: Some(ChannelFault::ProtocolFault),
                        ..old(self)@
                    })
                } else {
                    match operation_in(old(self)@.secret, frame@) {
                        Err(fault) => {
                            &&& r matches Err(found)
                            &&& found == fault
                            &&& final(self)@ == (HostConnectionView {
                                fault: Some(fault),
                                ..old(self)@
                            })
                        },
                        Ok((operation, _)) => {
                            &&& r matches Ok(found)
                            &&& found@ == operation
                            &&& final(self)@ == (HostConnectionView {
                                owed: Some(category_of_operation(operation)),
                                ..old(self)@
                            })
                        },
                    }
                },
            },
    {
        if let Some(fault) = self.stream.fault() {
            return Err(fault);
        }
        if self.owed.is_some() {
            self.stream.poison(ChannelFault::ProtocolFault);
            return Err(ChannelFault::ProtocolFault);
        }
        match self.stream.receive(frame) {
            Err(fault) => { return Err(fault); },
            Ok(_) => {},
        }
        match self.stream.reads_operation() {
            Err(fault) => Err(fault),
            Ok(operation) => {
                self.owed = Some(operation.category());
                Ok(operation)
            },
        }
    }

    /// Serializes the given response and seals it in one frame, which is
    /// returned to be sent to the host. Nothing is owed after that, and the
    /// next operation can be read.
    ///
    /// - On a session that a fault has ended: that fault; nothing changes.
    /// - While no response is owed, or one of another kind: a protocol
    ///   fault, which ends the session.
    /// - Where the response or its ciphertext is too long for the wire:
    ///   [`ChannelFault::TooLarge`]; nothing changes, and the response is
    ///   still owed.
    pub fn send_response(&mut self, response: &Response) -> (r: Result<Vec<u8>, ChannelFault>)
        ensures
            match old(self)@.fault {
                Some(fault) => r matches Err(found) && found == fault && final(self)@ == old(
                    self,
                )@,
                None => if old(self)@.owed != Some(category_of_response(response@)) {
                    &&& r matches Err(ChannelFault::ProtocolFault)
                    &&& final(self)@ == (HostConnectionView {
                        fault: Some(ChannelFault::ProtocolFault),
                        ..old(self)@
                    })
                } else if response_fits(response@) && fits_prefix(
                    encrypted(old(self)@.secret, response_encoding(response@)).len(),
                ) {
                    &&& r matches Ok(frame)
                    &&& frame@ == sealed(old(self)@.secret, response_encoding(response@))
                    &&& response_in(old(self)@.secret, frame@) == Ok::<_, ChannelFault>(
                        (response@, response_encoding(response@).len() as int),
                    )
                    &&& final(self)@ == (HostConnectionView { owed: None, ..old(self)@ })
                } else {
                    r matches Err(ChannelFault::TooLarge) && final(self)@ == old(self)@
                },
            },
    {
        if let Some(fault) = self.stream.fault() {
            return Err(fault);
        }
        let in_turn = match self.owed {
            None => false,
            Some(category) => category == response.category(),
        };
        if !in_turn {
            self.stream.poison(ChannelFault::ProtocolFault);
            return Err(ChannelFault::ProtocolFault);
        }
        self.stream.discard();
        match self.stream.writes_response(response) {
            Err(fault) => { return Err(fault); },
            Ok(_) => {},
        }
        match self.stream.flush() {
            Err(fault) => {
                self.stream.discard();
                Err(fault)
            },
            Ok(frame) => {
                proof {
                    law_response_round_trip(self.stream@.secret, response@, frame@);
                }
                self.owed = None;
                Ok(frame)
            },
        }
    }
}

// ---------------------------------------------------------------------------
// What the client does with an operation
// ---------------------------------------------------------------------------

/// What an operation asks the client to do before it answers.
#[derive(Debug, Clone, Copy, PartialEq, Eq, Structural)]
pub enum SideEffect {
    /// Write the bytes to the file at the path.
    WriteFile,
    /// Read the file at the path.
    ReadFile,
    /// Run the command and wait for it.
    Execute,
    /// Hand the command to a background worker and go on.
    ExecuteInBackground,
    /// Nothing at all.
    Nothing,
}

/// The side effect of an operation.
pub open spec fn side_effect_of(operation: OperationView) -> SideEffect {
    match operation {
        OperationView::Upload { .. } => SideEffect::WriteFile,
        OperationView::Download { .. } => SideEffect::ReadFile,
        OperationView::Command { .. } => SideEffect::Execute,
        OperationView::ThreadedCommand { .. } => SideEffect::ExecuteInBackground,
        OperationView::Ping => SideEffect::Nothing,
    }
}

/// The one response to an operation whose side effect ended in `outcome`:
/// of the matching kind, and carrying the outcome as it is. A ping has no
/// outcome to carry.
pub open spec fn reply_to(operation: OperationView, outcome: Result<(), FaultView>) -> ResponseView {
    match category_of_operation(operation) {
        ResponseCategory::Upload => ResponseView::UploadResult(outcome),
        ResponseCategory::Download => ResponseView::DownloadResult(outcome),
        ResponseCategory::Pong => ResponseView::Pong,
    }
}

/// What the client has to do to carry out `operation`.
pub fn side_effect(operation: &Operation) -> (r: SideEffect)
    ensures
        r == side_effect_of(operation@),
{
    match operation {
        Operation::Upload(_) => SideEffect::WriteFile,
        Operation::Download { .. } => SideEffect::ReadFile,
        Operation::Command { .. } => SideEffect::Execute,
        Operation::ThreadedCommand { .. } => SideEffect::ExecuteInBackground,
        Operation::Ping => SideEffect::Nothing,
    }
}

/// The response that answers `operation`, given how its side effect ended.
/// A failure of the side effect travels in the response as the fault that it
/// is; it does not end the session. An operation that the client cannot
/// carry out is answered in the same way, with a fault that says so.
pub fn reply(operation: &Operation, outcome: Result<(), Fault>) -> (r: Response)
    ensures
        r@ == reply_to(operation@, outcome_view(outcome)),
        category_of_response(r@) == category_of_operation(operation@),
{
    match operation.category() {
        ResponseCategory::Upload => Response::UploadResult(outcome),
        ResponseCategory::Download => Response::DownloadResult(outcome),
        ResponseCategory::Pong => Response::Pong,
    }
}

// ---------------------------------------------------------------------------
// Admitting a client
// ---------------------------------------------------------------------------

/// What the host does with a client that has connected.
pub enum Admission {
    /// The client is served. `answer` is the frame to send to it first.
    Serve { connection: ClientConnection, answer: Vec<u8> },
    /// The client is turned away and the host goes on listening. `answer` is
    /// the frame to send to it before the connection is closed; there is
    /// none where the client's frame could not be read.
    TurnAway { reason: HostRejectionReason, answer: Option<Vec<u8>> },
}

/// Decides on one client from the first frame that it sent: only a client
/// with the given name, whose frame opens under the given key, is served.
///
/// - The frame opens to the name expected: the client is served.
/// - It opens to another name: the client is turned away for a wrong name,
///   with an answer that says so.
/// - The handshake ends in a fault: the client is turned away without an
///   answer, as one whose frame could not be decrypted.
pub fn accept_from(client_name: String, key: String, hello: &[u8]) -> (r: Admission)
    ensures
        match claimed_name(key@, hello@) {
            Ok((name, _)) => {
                let accepted = name == client_name@;
                if fits_prefix(encrypted(key@, seq![flag_byte(accepted)]).len()) {
                    if accepted {
                        &&& r matches Admission::Serve { connection, answer }
                        &&& answer@ == sealed(key@, seq![flag_byte(true)])
                        &&& connection@ == (ClientConnectionView {
                            secret: key@,
                            fault: None,
                            awaited: None,
                            sent: Seq::empty(),
                            answered: Seq::empty(),
                        })
                    } else {
                        &&& r matches Admission::TurnAway { reason, answer }
                        &&& reason == HostRejectionReason::WrongClientName
                        &&& answer matches Some(frame)
                        &&& frame@ == sealed(key@, seq![flag_byte(false)])
                    }
                } else {
                    &&& r matches Admission::TurnAway { reason, answer }
                    &&& reason == HostRejectionReason::DecryptionError
                    &&& answer is None
                }
            },
            Err(_) => {
                &&& r matches Admission::TurnAway { reason, answer }
                &&& reason == HostRejectionReason::DecryptionError
                &&& answer is None
            },
        },
{
    match perform_host_handshake(Handshake::new(client_name, key), hello) {
        Err(_) => Admission::TurnAway { reason: HostRejectionReason::DecryptionError, answer: None },
        Ok(done) => match done.outcome {
            HandshakeOutcome::Accepted(stream) => Admission::Serve {
                connection: ClientConnection::new(stream),
                answer: done.answer,
            },
            HandshakeOutcome::Rejected(reason) => Admission::TurnAway {
                reason,
                answer: Some(done.answer),
            },
        },
    }
}

// ---------------------------------------------------------------------------
// Laws
// ---------------------------------------------------------------------------

/// Round trip of an operation through the channel: a frame that opens under
/// the secret to the encoding of an operation, as `send_operation` makes it,
/// is read under the same secret as that operation, equal in every field,
/// with nothing left behind it.
pub proof fn law_operation_round_trip(secret: Seq<char>, operation: OperationView, frame: Seq<u8>)
    requires
        operation_fits(operation),
        opened(secret, frame) == Ok::<_, ChannelFault>(operation_encoding(operation)),
    ensures
        operation_in(secret, frame) == Ok::<_, ChannelFault>(
            (operation, operation_encoding(operation).len() as int),
        ),
{
    lemma_has_at_whole(operation_encoding(operation));
    lemma_operation_round_trip(operation_encoding(operation), 0, operation);
}

/// Round trip of a response through the channel: a frame that opens under
/// the secret to the encoding of a response, as `send_response` makes it, is
/// read under the same secret as that response, equal in every field, with
/// nothing left behind it.
pub proof fn law_response_round_trip(secret: Seq<char>, response: ResponseView, frame: Seq<u8>)
    requires
        response_fits(response),
        opened(secret, frame) == Ok::<_, ChannelFault>(response_encoding(response)),
    ensures
        response_in(secret, frame) == Ok::<_, ChannelFault>(
            (response, response_encoding(response).len() as int),
        ),
{
    lemma_has_at_whole(response_encoding(response));
    lemma_response_round_trip(response_encoding(response), 0, response);
}

/// The responses to a run of operations, one for each, in order.
pub open spec fn replies(
    operations: Seq<OperationView>,
    outcomes: Seq<Result<(), FaultView>>,
) -> Seq<ResponseView>
    recommends
        outcomes.len() == operations.len(),
{
    Seq::new(operations.len(), |i: int| reply_to(operations[i], outcomes[i]))
}

/// Ping and pong: however many pings come in a row, each is answered by
/// exactly one pong, whatever the outcomes handed in, and none of them asks
/// for a side effect.
pub proof fn law_ping_pong(operations: Seq<OperationView>, outcomes: Seq<Result<(), FaultView>>)
    requires
        outcomes.len() == operations.len(),
        forall|i: int| 0 <= i < operations.len() ==> operations[i] is Ping,
    ensures
        replies(operations, outcomes).len() == operations.len(),
        forall|i: int|
            0 <= i < operations.len() ==> #[trigger] replies(operations, outcomes)[i]
                == ResponseView::Pong,
        forall|i: int|
            0 <= i < operations.len() ==> side_effect_of(#[trigger] operations[i])
                == SideEffect::Nothing,
{
}

/// Upload: the response to an upload reports a success exactly where the
/// write ended in one, and else carries the fault of the write as it is.
pub proof fn law_upload_reply(path: Seq<char>, bytes: Seq<u8>, outcome: Result<(), FaultView>)
    ensures
        reply_to(OperationView::Upload { path, bytes }, outcome) == ResponseView::UploadResult(
            outcome,
        ),
{
}

/// Every operation is answered by a response of its own kind.
pub proof fn law_reply_matches(operation: OperationView, outcome: Result<(), FaultView>)
    ensures
        category_of_response(reply_to(operation, outcome)) == category_of_operation(operation),
{
}

/// Alternation: on a host's end that alternates, the responses read are,
/// one for one and in order, of the kinds that the operations sent are
/// answered by; at most one operation is unanswered; and while none is, as
/// many responses were read as operations were sent.
pub proof fn law_alternation(view: ClientConnectionView)
    requires
        alternates(view),
    ensures
        view.answered.len() <= view.sent.len() <= view.answered.len() + 1,
        view.awaited is None ==> view.answered.len() == view.sent.len(),
        view.awaited is Some ==> view.sent.len() == view.answered.len() + 1,
        forall|i: int| 0 <= i < view.answered.len() ==> view.answered[i] == view.sent[i],
{
}

} // verus!
