//! The bridge between one client and the bus device, as a state machine.
//!
//! The bridge itself neither reads nor writes. The program that owns the
//! connection and the device hands it one [`Event`] at a time and gets back
//! the one [`Action`] to perform. While the bridge is idle the program waits
//! for the client, the device and the timer, and hands over whichever comes
//! first. An action that can fail is answered by the event that tells how it
//! ended, before anything else is handed over.
//!
//! [`step_spec`] is the whole machine; [`Bridge::step`] computes it.

use crate::envelope::{ClientEnvelope, EnvelopeView};
use crate::frame::{
    format_frame, frame_text, parse_frame, parse_text, BusFrame, FormatError, FrameView,
};
use crate::session::{DeviceSession, OpenError};
use vstd::prelude::*;

verus! {

/// What the bridge is busy with.
#[derive(Clone, Copy, Debug, PartialEq, Eq, Structural)]
pub enum Phase {
    /// Nothing: the next event comes from the client, the device or the timer.
    Idle,
    /// An envelope is on its way to the client.
    Sending,
    /// The heartbeat is on its way to the client, and the device is to be
    /// reopened once it has arrived.
    SendingBeforeReopen,
    /// A frame is on its way to the device.
    Writing,
    /// The device is being reopened.
    Opening,
    /// The bridge has ended.
    Stopped,
}

/// The status messages of the bridge.
#[derive(Clone, Copy, Debug, PartialEq, Eq, Structural)]
pub enum Notice {
    /// There is no device to talk to.
    DeviceMissing,
    /// The device has been opened.
    DeviceConnected,
    /// Reading from or writing to the device failed, and it was given up.
    DeviceDisconnected,
    /// The timer fired.
    Heartbeat,
}

impl Notice {
    /// The text of the message.
    pub open spec fn text_spec(self) -> Seq<char> {
        match self {
            Notice::DeviceMissing => "missing CAN device"@,
            Notice::DeviceConnected => "connected to CAN device"@,
            Notice::DeviceDisconnected => "disconnected from CAN device"@,
            Notice::Heartbeat => "heartbeat"@,
        }
    }

    /// The text of the message.
    pub fn text(self) -> (text: &'static str)
        ensures
            text@ == self.text_spec(),
    {
        match self {
            Notice::DeviceMissing => "missing CAN device",
            Notice::DeviceConnected => "connected to CAN device",
            Notice::DeviceDisconnected => "disconnected from CAN device",
            Notice::Heartbeat => "heartbeat",
        }
    }
}

/// Why the bridge ended.
#[derive(Clone, Copy, Debug, PartialEq, Eq, Structural)]
pub enum StopReason {
    /// The client sent a close message.
    ClientClosed,
    /// Nothing more can be received from the client.
    ClientLost,
    /// An envelope could not be delivered to the client.
    SendFailed,
    /// An event was handed over that the phase does not admit.
    OutOfTurn,
    /// The sequence numbers are used up.
    SequenceExhausted,
}

/// A message from the client.
#[derive(Debug, PartialEq, Eq)]
pub enum ClientMessage {
    Text(String),
    Binary,
    Ping,
    Pong,
    Close,
}

/// What a [`ClientMessage`] holds.
pub enum MessageView {
    Text(Seq<char>),
    Binary,
    Ping,
    Pong,
    Close,
}

impl View for ClientMessage {
    type V = MessageView;

    open spec fn view(&self) -> MessageView {
        match self {
            ClientMessage::Text(text) => MessageView::Text(text@),
            ClientMessage::Binary => MessageView::Binary,
            ClientMessage::Ping => MessageView::Ping,
            ClientMessage::Pong => MessageView::Pong,
            ClientMessage::Close => MessageView::Close,
        }
    }
}

/// What happened outside the bridge.
#[derive(Debug, PartialEq, Eq)]
pub enum Event {
    /// The client sent a message.
    Message(ClientMessage),
    /// Receiving from the client failed, or the client is gone.
    ClientLost,
    /// The device delivered a frame.
    Frame(BusFrame),
    /// Reading from the device failed.
    ReadFailed,
    /// The timer fired.
    Tick,
    /// The envelope of the last [`Action::Send`] reached the client.
    Sent,
    /// The envelope of the last [`Action::Send`] could not be delivered.
    SendFailed,
    /// The frame of the last [`Action::Write`] reached the device.
    Written,
    /// The frame of the last [`Action::Write`] could not be written.
    WriteFailed,
    /// How opening the device, asked for by the last [`Action::Open`], ended.
    Reopened(Result<DeviceSession, OpenError>),
}

/// What an [`Event`] holds.
pub enum EventView {
    Message(MessageView),
    ClientLost,
    Frame(FrameView),
    ReadFailed,
    Tick,
    Sent,
    SendFailed,
    Written,
    WriteFailed,
    /// Whether the device is now held.
    Reopened(bool),
}

/// Whether an attempt to open the device left an open session.
pub open spec fn holds_device(opened: Result<DeviceSession, OpenError>) -> bool {
    match opened {
        Ok(session) => session.is_open(),
        Err(_) => false,
    }
}

impl View for Event {
    type V = EventView;

    open spec fn view(&self) -> EventView {
        match self {
            Event::Message(message) => EventView::Message(message@),
            Event::ClientLost => EventView::ClientLost,
            Event::Frame(frame) => EventView::Frame(frame@),
            Event::ReadFailed => EventView::ReadFailed,
            Event::Tick => EventView::Tick,
            Event::Sent => EventView::Sent,
            Event::SendFailed => EventView::SendFailed,
            Event::Written => EventView::Written,
            Event::WriteFailed => EventView::WriteFailed,
            Event::Reopened(opened) => EventView::Reopened(holds_device(*opened)),
        }
    }
}

/// What the program is to do next.
#[derive(Debug, PartialEq, Eq)]
pub enum Action {
    /// Wait for the client, the device (if it is held) and the timer.
    Wait,
    /// The client's text was no frame: report it locally, then wait.
    Reject(FormatError),
    /// Send this envelope to the client, then hand over [`Event::Sent`] or
    /// [`Event::SendFailed`].
    Send(ClientEnvelope),
    /// Write this frame to the device, then hand over [`Event::Written`] or
    /// [`Event::WriteFailed`].
    Write(BusFrame),
    /// Open the device anew, then hand over [`Event::Reopened`].
    Open,
    /// Leave the loop and give up the connection and the device.
    Stop(StopReason),
}

/// What an [`Action`] holds.
pub enum ActionView {
    Wait,
    Reject(FormatError),
    Send(EnvelopeView),
    Write(FrameView),
    Open,
    Stop(StopReason),
}

impl View for Action {
    type V = ActionView;

    open spec fn view(&self) -> ActionView {
        match self {
            Action::Wait => ActionView::Wait,
            Action::Reject(reason) => ActionView::Reject(*reason),
            Action::Send(envelope) => ActionView::Send(envelope@),
            Action::Write(frame) => ActionView::Write(frame@),
            Action::Open => ActionView::Open,
            Action::Stop(reason) => ActionView::Stop(*reason),
        }
    }
}

/// The state of a bridge.
pub struct BridgeView {
    /// Whether the device is held.
    pub device_up: bool,
    /// The number that the next envelope gets.
    pub next_sequence: u64,
    /// The address that every envelope carries.
    pub service_url: Seq<char>,
    /// What the bridge is busy with.
    pub phase: Phase,
}

/// The bridge ends.
pub open spec fn stop(pre: BridgeView, reason: StopReason) -> (BridgeView, ActionView) {
    (BridgeView { phase: Phase::Stopped, ..pre }, ActionView::Stop(reason))
}

/// The bridge has nothing more to do for this event.
pub open spec fn idle(pre: BridgeView) -> (BridgeView, ActionView) {
    (BridgeView { phase: Phase::Idle, ..pre }, ActionView::Wait)
}

/// An envelope goes out under the next sequence number, and the bridge
/// enters `then`. If no number is left, the bridge ends instead.
pub open spec fn emit(
    pre: BridgeView,
    then: Phase,
    data: Option<Seq<char>>,
    notice: Option<Seq<char>>,
) -> (BridgeView, ActionView) {
    if pre.next_sequence == u64::MAX {
        stop(pre, StopReason::SequenceExhausted)
    } else {
        (
            BridgeView { next_sequence: (pre.next_sequence + 1) as u64, phase: then, ..pre },
            ActionView::Send(
                EnvelopeView {
                    sequence: pre.next_sequence,
                    service_url: pre.service_url,
                    data,
                    notice,
                },
            ),
        )
    }
}

/// A status message goes out.
pub open spec fn notify(pre: BridgeView, then: Phase, notice: Notice) -> (BridgeView, ActionView) {
    emit(pre, then, None, Some(notice.text_spec()))
}

/// Whether the phase fits the device: the bridge writes only to a device
/// that it holds, and reopens only one that it does not hold.
pub open spec fn coherent(state: BridgeView) -> bool {
    &&& state.phase == Phase::Writing ==> state.device_up
    &&& state.phase == Phase::SendingBeforeReopen ==> !state.device_up
    &&& state.phase == Phase::Opening ==> !state.device_up
}

/// A bridge begins: the client is told whether the device is held, in an
/// envelope that has the number `first_sequence`.
pub open spec fn start_spec(service_url: Seq<char>, device_up: bool, first_sequence: u64) -> (
    BridgeView,
    ActionView,
) {
    notify(
        BridgeView { device_up, next_sequence: first_sequence, service_url, phase: Phase::Idle },
        Phase::Sending,
        if device_up {
            Notice::DeviceConnected
        } else {
            Notice::DeviceMissing
        },
    )
}

/// The client sent a message while the bridge was idle. A text that is a
/// frame goes to the device if it is held; if not, the client is told so. A
/// text that is no frame is rejected and changes nothing. A close message
/// ends the bridge; other messages change nothing.
pub open spec fn handle_message_spec(pre: BridgeView, message: MessageView) -> (
    BridgeView,
    ActionView,
) {
    match message {
        MessageView::Text(text) => match parse_text(text) {
            Err(reason) => (pre, ActionView::Reject(reason)),
            Ok(frame) => if pre.device_up {
                (BridgeView { phase: Phase::Writing, ..pre }, ActionView::Write(frame))
            } else {
                notify(pre, Phase::Sending, Notice::DeviceMissing)
            },
        },
        MessageView::Close => stop(pre, StopReason::ClientClosed),
        _ => idle(pre),
    }
}

/// The device delivered a frame while the bridge was idle: its text goes to
/// the client. Without a device there is nothing to relay.
pub open spec fn handle_can_frame_spec(pre: BridgeView, frame: FrameView) -> (
    BridgeView,
    ActionView,
) {
    if pre.device_up {
        emit(pre, Phase::Sending, Some(frame_text(frame)), None)
    } else {
        idle(pre)
    }
}

/// The device is given up, and the client is told so.
pub open spec fn lose_device(pre: BridgeView) -> (BridgeView, ActionView) {
    notify(BridgeView { device_up: false, ..pre }, Phase::Sending, Notice::DeviceDisconnected)
}

/// Reading from the device failed while the bridge was idle.
pub open spec fn handle_read_failure_spec(pre: BridgeView) -> (BridgeView, ActionView) {
    if pre.device_up {
        lose_device(pre)
    } else {
        idle(pre)
    }
}

/// Writing a frame to the device ended. After a failure, and also if the
/// device was not held in the first place, the device counts as given up.
pub open spec fn handle_written_spec(pre: BridgeView, succeeded: bool) -> (
    BridgeView,
    ActionView,
) {
    if pre.device_up && succeeded {
        idle(pre)
    } else {
        lose_device(pre)
    }
}

/// The timer fired while the bridge was idle: a heartbeat goes out, and
/// without a device the bridge will try to reopen it afterwards.
pub open spec fn handle_time_trigger_spec(pre: BridgeView) -> (BridgeView, ActionView) {
    notify(
        pre,
        if pre.device_up {
            Phase::Sending
        } else {
            Phase::SendingBeforeReopen
        },
        Notice::Heartbeat,
    )
}

/// The attempt to reopen the device ended. On success the client is told
/// so; a failure is passed over in silence.
pub open spec fn handle_reopened_spec(pre: BridgeView, device_up: bool) -> (
    BridgeView,
    ActionView,
) {
    if device_up {
        notify(BridgeView { device_up: true, ..pre }, Phase::Sending, Notice::DeviceConnected)
    } else {
        idle(pre)
    }
}

/// The state machine: the state after `event` and the action it asks for.
///
/// An idle bridge admits the events of the three sources. A busy bridge
/// admits the two events that tell how its action ended. A failure to
/// deliver an envelope ends the bridge; so does any event that the phase
/// does not admit. A bridge that has ended stays so.
pub open spec fn step_spec(pre: BridgeView, event: EventView) -> (BridgeView, ActionView) {
    match pre.phase {
        Phase::Idle => match event {
            EventView::Message(message) => handle_message_spec(pre, message),
            EventView::ClientLost => stop(pre, StopReason::ClientLost),
            EventView::Frame(frame) => handle_can_frame_spec(pre, frame),
            EventView::ReadFailed => handle_read_failure_spec(pre),
            EventView::Tick => handle_time_trigger_spec(pre),
            _ => stop(pre, StopReason::OutOfTurn),
        },
        Phase::Sending => match event {
            EventView::Sent => idle(pre),
            EventView::SendFailed => stop(pre, StopReason::SendFailed),
            _ => stop(pre, StopReason::OutOfTurn),
        },
        Phase::SendingBeforeReopen => match event {
            EventView::Sent => (BridgeView { phase: Phase::Opening, ..pre }, ActionView::Open),
            EventView::SendFailed => stop(pre, StopReason::SendFailed),
            _ => stop(pre, StopReason::OutOfTurn),
        },
        Phase::Writing => match event {
            EventView::Written => handle_written_spec(pre, true),
            EventView::WriteFailed => handle_written_spec(pre, false),
            _ => stop(pre, StopReason::OutOfTurn),
        },
        Phase::Opening => match event {
            EventView::Reopened(device_up) => handle_reopened_spec(pre, device_up),
            _ => stop(pre, StopReason::OutOfTurn),
        },
        Phase::Stopped => stop(pre, StopReason::OutOfTurn),
    }
}

/// The bridge of one client connection.
#[derive(Debug)]
pub struct Bridge {
    session: DeviceSession,
    next_sequence: u64,
    service_url: String,
    phase: Phase,
}

impl View for Bridge {
    type V = BridgeView;

    closed spec fn view(&self) -> BridgeView {
        BridgeView {
            device_up: self.session.is_open(),
            next_sequence: self.next_sequence,
            service_url: self.service_url@,
            phase: self.phase,
        }
    }
}

impl Bridge {
    /// Every bridge is coherent.
    #[verifier::type_invariant]
    closed spec fn is_coherent(&self) -> bool {
        coherent(self@)
    }

    /// Begins the bridge of a connection, given its own address and how
    /// opening the device ended. The action tells the client whether the
    /// device is held; its envelope has the number 0.
    pub fn start(service_url: String, opened: Result<DeviceSession, OpenError>) -> (started: (
        Bridge,
        Action,
    ))
        ensures
            started.0@ == start_spec(service_url@, holds_device(opened), 0).0,
            started.1@ == start_spec(service_url@, holds_device(opened), 0).1,
            coherent(started.0@),
    {
        Bridge::start_at(service_url, opened, 0)
    }

    /// Begins a bridge whose first envelope has the number `first_sequence`.
    pub fn start_at(
        service_url: String,
        opened: Result<DeviceSession, OpenError>,
        first_sequence: u64,
    ) -> (started: (Bridge, Action))
        ensures
            started.0@ == start_spec(service_url@, holds_device(opened), first_sequence).0,
            started.1@ == start_spec(service_url@, holds_device(opened), first_sequence).1,
            coherent(started.0@),
    {
        let session = match opened {
            Ok(session) => session,
            Err(_) => DeviceSession::closed(),
        };
        let notice = if session.is_open() {
            Notice::DeviceConnected
        } else {
            Notice::DeviceMissing
        };
        let mut bridge = Bridge {
            session,
            next_sequence: first_sequence,
            service_url,
            phase: Phase::Idle,
        };
        let action = bridge.notify(Phase::Sending, notice);
        (bridge, action)
    }

    /// Takes a new address for the envelopes to come.
    pub fn refresh_service_url(&mut self, service_url: String)
        ensures
            final(self)@ == (BridgeView { service_url: service_url@, ..old(self)@ }),
            coherent(final(self)@),
    {
        proof {
            use_type_invariant(&*self);
        }
        self.service_url = service_url;
    }

    /// Whether the device is held.
    pub fn device_up(&self) -> (up: bool)
        ensures
            up == self@.device_up,
            coherent(self@),
    {
        proof {
            use_type_invariant(self);
        }
        self.session.is_open()
    }

    /// The number that the next envelope gets.
    pub fn next_sequence(&self) -> (next: u64)
        ensures
            next == self@.next_sequence,
    {
        self.next_sequence
    }

    /// The address that every envelope carries.
    pub fn service_url(&self) -> (url: &str)
        ensures
            url@ == self@.service_url,
    {
        self.service_url.as_str()
    }

    /// What the bridge is busy with.
    pub fn phase(&self) -> (phase: Phase)
        ensures
            phase == self@.phase,
            coherent(self@),
    {
        proof {
            use_type_invariant(self);
        }
        self.phase
    }

    /// Whether the bridge has ended.
    pub fn is_stopped(&self) -> (stopped: bool)
        ensures
            stopped == (self@.phase == Phase::Stopped),
    {
        self.phase == Phase::Stopped
    }

    /// Ends the bridge.
    fn stop(&mut self, reason: StopReason) -> (action: Action)
        ensures
            final(self)@ == stop(old(self)@, reason).0,
            action@ == stop(old(self)@, reason).1,
    {
        self.phase = Phase::Stopped;
        Action::Stop(reason)
    }

    /// Goes back to waiting.
    fn idle(&mut self) -> (action: Action)
        ensures
            final(self)@ == idle(old(self)@).0,
            action@ == idle(old(self)@).1,
    {
        self.phase = Phase::Idle;
        Action::Wait
    }

    /// Sends an envelope under the next sequence number.
    fn emit(&mut self, then: Phase, data: Option<String>, notice: Option<String>) -> (action:
        Action)
        requires
            then == Phase::Sending || (then == Phase::SendingBeforeReopen && !old(self)@.device_up),
        ensures
            final(self)@ == emit(
                old(self)@,
                then,
                crate::envelope::optional_text(data),
                crate::envelope::optional_text(notice),
            ).0,
            action@ == emit(
                old(self)@,
                then,
                crate::envelope::optional_text(data),
                crate::envelope::optional_text(notice),
            ).1,
    {
        proof {
            use_type_invariant(&*self);
        }
        if self.next_sequence == u64::MAX {
            return self.stop(StopReason::SequenceExhausted);
        }
        let envelope = ClientEnvelope {
            sequence: self.next_sequence,
            service_url: self.service_url.clone(),
            data,
            notice,
        };
        self.next_sequence = self.next_sequence + 1;
        self.phase = then;
        Action::Send(envelope)
    }

    /// Sends a status message.
    fn notify(&mut self, then: Phase, notice: Notice) -> (action: Action)
        requires
            then == Phase::Sending || (then == Phase::SendingBeforeReopen && !old(self)@.device_up),
        ensures
            final(self)@ == notify(old(self)@, then, notice).0,
            action@ == notify(old(self)@, then, notice).1,
    {
        self.emit(then, None, Some(notice.text().to_owned()))
    }

    /// Takes a message of the client.
    fn handle_message(&mut self, message: ClientMessage) -> (action: Action)
        requires
            old(self)@.phase == Phase::Idle,
        ensures
            final(self)@ == handle_message_spec(old(self)@, message@).0,
            action@ == handle_message_spec(old(self)@, message@).1,
    {
        match message {
            ClientMessage::Text(text) => match parse_frame(text.as_str()) {
                Err(reason) => Action::Reject(reason),
                Ok(frame) => {
                    if self.session.is_open() {
                        self.phase = Phase::Writing;
                        Action::Write(frame)
                    } else {
                        self.notify(Phase::Sending, Notice::DeviceMissing)
                    }
                },
            },
            ClientMessage::Close => self.stop(StopReason::ClientClosed),
            _ => self.idle(),
        }
    }

    /// Takes a frame of the device.
    fn handle_can_frame(&mut self, frame: BusFrame) -> (action: Action)
        requires
            old(self)@.phase == Phase::Idle,
        ensures
            final(self)@ == handle_can_frame_spec(old(self)@, frame@).0,
            action@ == handle_can_frame_spec(old(self)@, frame@).1,
    {
        if self.session.is_open() {
            let text = format_frame(&frame);
            self.emit(Phase::Sending, Some(text), None)
        } else {
            self.idle()
        }
    }

    /// Takes a failure to read from the device.
    fn handle_read_failure(&mut self) -> (action: Action)
        requires
            old(self)@.phase == Phase::Idle,
        ensures
            final(self)@ == handle_read_failure_spec(old(self)@).0,
            action@ == handle_read_failure_spec(old(self)@).1,
    {
        if self.session.is_open() {
            let _ = self.session.frame_read(false);
            self.notify(Phase::Sending, Notice::DeviceDisconnected)
        } else {
            self.idle()
        }
    }

    /// Takes a tick of the timer.
    fn handle_time_trigger(&mut self) -> (action: Action)
        requires
            old(self)@.phase == Phase::Idle,
        ensures
            final(self)@ == handle_time_trigger_spec(old(self)@).0,
            action@ == handle_time_trigger_spec(old(self)@).1,
    {
        let then = if self.session.is_open() {
            Phase::Sending
        } else {
            Phase::SendingBeforeReopen
        };
        self.notify(then, Notice::Heartbeat)
    }

    /// Takes the end of writing a frame to the device.
    fn handle_written(&mut self, succeeded: bool) -> (action: Action)
        requires
            old(self)@.phase == Phase::Writing,
        ensures
            final(self)@ == handle_written_spec(old(self)@, succeeded).0,
            action@ == handle_written_spec(old(self)@, succeeded).1,
    {
        self.phase = Phase::Idle;
        match self.session.frame_written(succeeded) {
            Ok(_) => Action::Wait,
            Err(_) => self.notify(Phase::Sending, Notice::DeviceDisconnected),
        }
    }

    /// Takes the end of an attempt to reopen the device.
    fn handle_reopened(&mut self, opened: Result<DeviceSession, OpenError>) -> (action: Action)
        requires
            old(self)@.phase == Phase::Opening,
        ensures
            final(self)@ == handle_reopened_spec(old(self)@, holds_device(opened)).0,
            action@ == handle_reopened_spec(old(self)@, holds_device(opened)).1,
    {
        match opened {
            Ok(session) => {
                if session.is_open() {
                    self.phase = Phase::Idle;
                    self.session = session;
                    self.notify(Phase::Sending, Notice::DeviceConnected)
                } else {
                    self.idle()
                }
            },
            Err(_) => self.idle(),
        }
    }

    /// Takes one event and says what to do next.
    pub fn step(&mut self, event: Event) -> (action: Action)
        ensures
            final(self)@ == step_spec(old(self)@, event@).0,
            action@ == step_spec(old(self)@, event@).1,
            coherent(final(self)@),
    {
        proof {
            use_type_invariant(&*self);
        }
        match self.phase {
            Phase::Idle => match event {
                Event::Message(message) => self.handle_message(message),
                Event::ClientLost => self.stop(StopReason::ClientLost),
                Event::Frame(frame) => self.handle_can_frame(frame),
                Event::ReadFailed => self.handle_read_failure(),
                Event::Tick => self.handle_time_trigger(),
                _ => self.stop(StopReason::OutOfTurn),
            },
            Phase::Sending => match event {
                Event::Sent => self.idle(),
                Event::SendFailed => self.stop(StopReason::SendFailed),
                _ => self.stop(StopReason::OutOfTurn),
            },
            Phase::SendingBeforeReopen => match event {
                Event::Sent => {
                    self.phase = Phase::Opening;
                    Action::Open
                },
                Event::SendFailed => self.stop(StopReason::SendFailed),
                _ => self.stop(StopReason::OutOfTurn),
            },
            Phase::Writing => match event {
                Event::Written => self.handle_written(true),
                Event::WriteFailed => self.handle_written(false),
                _ => self.stop(StopReason::OutOfTurn),
            },
            Phase::Opening => match event {
                Event::Reopened(opened) => self.handle_reopened(opened),
                _ => self.stop(StopReason::OutOfTurn),
            },
            Phase::Stopped => self.stop(StopReason::OutOfTurn),
        }
    }
}

} // verus!
