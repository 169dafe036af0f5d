//! What holds of every step and of every run of the bridge.
//!
//! A run is a sequence of events handed to [`step_spec`] one after the
//! other, and the sequence of actions that it gave back.

use crate::bridge::{
    coherent, start_spec, step_spec, ActionView, BridgeView, EventView, MessageView, Notice,
    Phase, StopReason,
};
use crate::envelope::EnvelopeView;
use crate::frame::{frame_text, parse_text, FormatError, FrameView};
use vstd::prelude::*;

verus! {

/// The state after `events`, and the actions asked for on the way.
pub open spec fn run(pre: BridgeView, events: Seq<EventView>) -> (BridgeView, Seq<ActionView>)
    decreases events.len(),
{
    if events.len() == 0 {
        (pre, Seq::empty())
    } else {
        let before = run(pre, events.drop_last());
        let last = step_spec(before.0, events.last());
        (last.0, before.1.push(last.1))
    }
}

/// The envelopes among `actions`, in their order.
pub open spec fn envelopes(actions: Seq<ActionView>) -> Seq<EnvelopeView>
    decreases actions.len(),
{
    if actions.len() == 0 {
        Seq::empty()
    } else {
        let before = envelopes(actions.drop_last());
        match actions.last() {
            ActionView::Send(envelope) => before.push(envelope),
            _ => before,
        }
    }
}

/// The actions of a whole connection: the one that begins it, then those of
/// its events.
pub open spec fn connection(
    service_url: Seq<char>,
    device_up: bool,
    first_sequence: u64,
    events: Seq<EventView>,
) -> Seq<ActionView> {
    let started = start_spec(service_url, device_up, first_sequence);
    seq![started.1] + run(started.0, events).1
}

/// Whether exactly one of `data` and `notice` is there.
pub open spec fn carries_one(envelope: EnvelopeView) -> bool {
    envelope.data is Some <==> envelope.notice is None
}

/// An envelope that holds a notice and no data.
pub open spec fn notice_envelope(pre: BridgeView, notice: Notice) -> EnvelopeView {
    EnvelopeView {
        sequence: pre.next_sequence,
        service_url: pre.service_url,
        data: None,
        notice: Some(notice.text_spec()),
    }
}

/// One step sends at most one envelope. If it sends one, the envelope has
/// the next sequence number and the bridge's address, and the number goes up
/// by one; if it sends none, the number stays. The address never changes.
pub proof fn lemma_step_sequence(pre: BridgeView, event: EventView)
    ensures
        step_spec(pre, event).0.service_url == pre.service_url,
        match step_spec(pre, event).1 {
            ActionView::Send(envelope) => {
                &&& envelope.sequence == pre.next_sequence
                &&& envelope.service_url == pre.service_url
                &&& step_spec(pre, event).0.next_sequence == pre.next_sequence + 1
            },
            _ => step_spec(pre, event).0.next_sequence == pre.next_sequence,
        },
{
}

/// The sequence numbers of the envelopes of a run are the numbers from the
/// bridge's next number on, without a gap, and the bridge's next number
/// after the run is the one after the last. Every envelope of the run
/// carries the bridge's address.
pub proof fn lemma_run_sequence(pre: BridgeView, events: Seq<EventView>)
    ensures
        run(pre, events).1.len() == events.len(),
        run(pre, events).0.service_url == pre.service_url,
        run(pre, events).0.next_sequence == pre.next_sequence + envelopes(
            run(pre, events).1,
        ).len(),
        forall|i: int|
            0 <= i < envelopes(run(pre, events).1).len() ==> {
                &&& (#[trigger] envelopes(run(pre, events).1)[i]).sequence == pre.next_sequence
                    + i
                &&& envelopes(run(pre, events).1)[i].service_url == pre.service_url
            },
    decreases events.len(),
{
    if events.len() > 0 {
        let before = run(pre, events.drop_last());
        lemma_run_sequence(pre, events.drop_last());
        lemma_step_sequence(before.0, events.last());
        assert(run(pre, events).1.drop_last() =~= before.1);
    }
}

/// The envelopes of two runs of actions put together are the envelopes of
/// the first, then those of the second.
pub proof fn lemma_envelopes_concat(first: Seq<ActionView>, second: Seq<ActionView>)
    ensures
        envelopes(first + second) == envelopes(first) + envelopes(second),
    decreases second.len(),
{
    if second.len() > 0 {
        lemma_envelopes_concat(first, second.drop_last());
        assert((first + second).drop_last() =~= first + second.drop_last());
    }
}

/// Over a whole connection the sequence numbers that the client sees form a
/// run without a gap that begins with the number of the first envelope, and
/// every envelope carries the address that the bridge began with.
pub proof fn lemma_connection_sequence(
    service_url: Seq<char>,
    device_up: bool,
    first_sequence: u64,
    events: Seq<EventView>,
)
    ensures
        forall|i: int|
            0 <= i < envelopes(connection(service_url, device_up, first_sequence, events)).len()
                ==> {
                &&& (#[trigger] envelopes(
                    connection(service_url, device_up, first_sequence, events),
                )[i]).sequence == first_sequence + i
                &&& envelopes(
                    connection(service_url, device_up, first_sequence, events),
                )[i].service_url == service_url
            },
{
    let started = start_spec(service_url, device_up, first_sequence);
    let first = seq![started.1];
    let rest = run(started.0, events).1;
    lemma_run_sequence(started.0, events);
    lemma_envelopes_concat(first, rest);
    if started.1 is Send {
        assert(envelopes(first) =~= seq![started.1->Send_0]) by {
            reveal_with_fuel(envelopes, 2);
        }
    } else {
        assert(envelopes(first) =~= Seq::<EnvelopeView>::empty()) by {
            reveal_with_fuel(envelopes, 2);
        }
        lemma_stopped_run(started.0, events);
    }
}

/// The first action of a connection is an envelope with a notice and no
/// data, which says whether the device is held. Only where no sequence
/// number is left does the bridge end at once.
pub proof fn lemma_start(service_url: Seq<char>, device_up: bool, first_sequence: u64)
    ensures
        coherent(start_spec(service_url, device_up, first_sequence).0),
        start_spec(service_url, device_up, first_sequence).0.device_up == device_up,
        first_sequence < u64::MAX ==> start_spec(service_url, device_up, first_sequence).1
            == ActionView::Send(
            EnvelopeView {
                sequence: first_sequence,
                service_url,
                data: None,
                notice: Some(
                    if device_up {
                        Notice::DeviceConnected.text_spec()
                    } else {
                        Notice::DeviceMissing.text_spec()
                    },
                ),
            },
        ),
        first_sequence == u64::MAX ==> start_spec(service_url, device_up, first_sequence).1
            == ActionView::Stop(StopReason::SequenceExhausted),
{
}

/// A step keeps a coherent bridge coherent.
pub proof fn lemma_coherent(pre: BridgeView, event: EventView)
    requires
        coherent(pre),
    ensures
        coherent(step_spec(pre, event).0),
{
}

/// A run keeps a coherent bridge coherent.
pub proof fn lemma_run_coherent(pre: BridgeView, events: Seq<EventView>)
    requires
        coherent(pre),
    ensures
        coherent(run(pre, events).0),
    decreases events.len(),
{
    if events.len() > 0 {
        lemma_run_coherent(pre, events.drop_last());
        lemma_coherent(run(pre, events.drop_last()).0, events.last());
    }
}

/// The bridge asks to stop exactly when it ends, and a bridge that has ended
/// stays as it is and asks to stop whatever comes.
pub proof fn lemma_stop(pre: BridgeView, event: EventView)
    ensures
        step_spec(pre, event).1 is Stop <==> step_spec(pre, event).0.phase == Phase::Stopped,
        pre.phase == Phase::Stopped ==> step_spec(pre, event).0 == pre,
{
}

/// After its end a bridge sends nothing more.
pub proof fn lemma_stopped_run(pre: BridgeView, events: Seq<EventView>)
    requires
        pre.phase == Phase::Stopped,
    ensures
        run(pre, events).0 == pre,
        envelopes(run(pre, events).1) == Seq::<EnvelopeView>::empty(),
    decreases events.len(),
{
    if events.len() > 0 {
        lemma_stopped_run(pre, events.drop_last());
        lemma_stop(pre, events.last());
        assert(run(pre, events).1.drop_last() =~= run(pre, events.drop_last()).1);
    }
}

/// A failure to deliver an envelope ends the bridge, whatever it was busy
/// with; so do a close message and the loss of the client. No envelope goes
/// out on the way.
pub proof fn lemma_client_gone(pre: BridgeView, event: EventView)
    requires
        event == EventView::SendFailed || event == EventView::ClientLost || event
            == EventView::Message(MessageView::Close),
    ensures
        step_spec(pre, event).1 is Stop,
        step_spec(pre, event).0.phase == Phase::Stopped,
        step_spec(pre, event).0.device_up == pre.device_up,
        (pre.phase == Phase::Sending || pre.phase == Phase::SendingBeforeReopen) && event
            == EventView::SendFailed ==> step_spec(pre, event).1 == ActionView::Stop(
            StopReason::SendFailed,
        ),
{
}

/// Every envelope carries either the text of a frame or a notice, never
/// both and never neither. One with a frame goes out only when the device,
/// being held, delivered that frame to an idle bridge.
pub proof fn lemma_envelope_shape(pre: BridgeView, event: EventView)
    ensures
        step_spec(pre, event).1 matches ActionView::Send(envelope) ==> {
            &&& carries_one(envelope)
            &&& envelope.data is Some ==> {
                &&& pre.device_up
                &&& pre.phase == Phase::Idle
                &&& event matches EventView::Frame(frame)
                &&& envelope.data == Some(frame_text(frame))
            }
        },
{
}

/// A frame that the device delivers to an idle bridge goes to the client as
/// text, under the next sequence number and without a notice.
pub proof fn lemma_relay(pre: BridgeView, frame: FrameView)
    requires
        pre.phase == Phase::Idle,
        pre.device_up,
        pre.next_sequence < u64::MAX,
    ensures
        step_spec(pre, EventView::Frame(frame)).1 == ActionView::Send(
            EnvelopeView {
                sequence: pre.next_sequence,
                service_url: pre.service_url,
                data: Some(frame_text(frame)),
                notice: None,
            },
        ),
        step_spec(pre, EventView::Frame(frame)).0.phase == Phase::Sending,
        step_spec(pre, EventView::Frame(frame)).0.device_up,
{
}

/// A text of the client that is no frame is rejected for its reason: the
/// bridge stays as it is, sends nothing and goes on.
pub proof fn lemma_malformed_text(pre: BridgeView, text: Seq<char>)
    requires
        pre.phase == Phase::Idle,
        parse_text(text) is Err,
    ensures
        step_spec(pre, EventView::Message(MessageView::Text(text))) == (
            pre,
            ActionView::Reject(parse_text(text)->Err_0),
        ),
{
}

/// A text of the client that is a frame goes to the device if it is held.
/// If it is not, the client gets a notice and stays connected.
pub proof fn lemma_forward(pre: BridgeView, text: Seq<char>)
    requires
        pre.phase == Phase::Idle,
        parse_text(text) is Ok,
        pre.next_sequence < u64::MAX,
    ensures
        pre.device_up ==> step_spec(pre, EventView::Message(MessageView::Text(text)))
            == (BridgeView { phase: Phase::Writing, ..pre }, ActionView::Write(
            parse_text(text)->Ok_0,
        )),
        !pre.device_up ==> step_spec(pre, EventView::Message(MessageView::Text(text))).1
            == ActionView::Send(notice_envelope(pre, Notice::DeviceMissing)),
        !pre.device_up ==> step_spec(pre, EventView::Message(MessageView::Text(text))).0.phase
            == Phase::Sending,
{
}

/// The bridge writes to the device only a frame that the client sent as
/// text while the bridge was idle and held the device.
pub proof fn lemma_write_follows_text(pre: BridgeView, event: EventView)
    ensures
        step_spec(pre, event).1 matches ActionView::Write(frame) ==> {
            &&& pre.phase == Phase::Idle
            &&& pre.device_up
            &&& event matches EventView::Message(MessageView::Text(text))
            &&& parse_text(text) == Ok::<FrameView, FormatError>(frame)
        },
{
}

/// When reading from or writing to the device fails, the device is given
/// up, the client gets a notice without data, and the bridge goes on.
pub proof fn lemma_device_lost(pre: BridgeView, event: EventView)
    requires
        pre.device_up,
        pre.next_sequence < u64::MAX,
        (pre.phase == Phase::Idle && event == EventView::ReadFailed) || (pre.phase
            == Phase::Writing && event == EventView::WriteFailed),
    ensures
        step_spec(pre, event).1 == ActionView::Send(
            notice_envelope(pre, Notice::DeviceDisconnected),
        ),
        !step_spec(pre, event).0.device_up,
        step_spec(pre, event).0.phase == Phase::Sending,
{
}

/// A tick of the timer makes an idle bridge without a device send a
/// heartbeat, then ask for the device to be opened. If that succeeds, the
/// bridge holds the device and tells the client; if it fails, the bridge
/// goes back to waiting without a word.
pub proof fn lemma_tick_reopens(pre: BridgeView, opened: bool)
    requires
        pre.phase == Phase::Idle,
        !pre.device_up,
        pre.next_sequence < u64::MAX - 1,
    ensures
        ({
            let ticked = step_spec(pre, EventView::Tick);
            let sent = step_spec(ticked.0, EventView::Sent);
            let reopened = step_spec(sent.0, EventView::Reopened(opened));
            &&& ticked.1 == ActionView::Send(notice_envelope(pre, Notice::Heartbeat))
            &&& sent.1 == ActionView::Open
            &&& reopened.0.device_up == opened
            &&& opened ==> reopened.1 == ActionView::Send(
                notice_envelope(sent.0, Notice::DeviceConnected),
            ) && reopened.0.phase == Phase::Sending
            &&& !opened ==> reopened.1 == ActionView::Wait && reopened.0.phase == Phase::Idle
        }),
{
}

/// A tick of the timer makes an idle bridge that holds the device send a
/// heartbeat and no more.
pub proof fn lemma_tick_with_device(pre: BridgeView)
    requires
        pre.phase == Phase::Idle,
        pre.device_up,
        pre.next_sequence < u64::MAX,
    ensures
        ({
            let ticked = step_spec(pre, EventView::Tick);
            let sent = step_spec(ticked.0, EventView::Sent);
            &&& ticked.1 == ActionView::Send(notice_envelope(pre, Notice::Heartbeat))
            &&& sent.1 == ActionView::Wait
            &&& sent.0.phase == Phase::Idle
            &&& sent.0.device_up
        }),
{
}

/// The bridge reopens the device only right after a heartbeat has reached
/// the client, so at most once for each tick of the timer, and only a
/// device that it does not hold.
pub proof fn lemma_reopen_follows_heartbeat(pre: BridgeView, event: EventView)
    requires
        coherent(pre),
    ensures
        step_spec(pre, event).1 is Open ==> pre.phase == Phase::SendingBeforeReopen && event
            == EventView::Sent && !pre.device_up,
        step_spec(pre, event).0.phase == Phase::SendingBeforeReopen ==> pre.phase == Phase::Idle
            && event == EventView::Tick,
{
}

/// The device comes to be held only by a reopening that succeeded, and is
/// given up only when reading or writing failed.
pub proof fn lemma_device_changes(pre: BridgeView, event: EventView)
    requires
        coherent(pre),
    ensures
        !pre.device_up && step_spec(pre, event).0.device_up ==> pre.phase == Phase::Opening
            && event == EventView::Reopened(true),
        pre.device_up && !step_spec(pre, event).0.device_up ==> (pre.phase == Phase::Idle && event
            == EventView::ReadFailed) || (pre.phase == Phase::Writing && event
            == EventView::WriteFailed),
{
}

} // verus!
