//! The decisions of the two forwarding loops: the bridge that carries raw
//! notifications from the watcher to the funnel, and the funnel that merges
//! them with job completions into the consumer's stream.
//!
//! A loop hands each thing that happens to the step function of its kind,
//! together with the current value of the shutdown flag, and does what the
//! step function answers. The step functions keep no state.

use vstd::prelude::*;
use crate::events::{
    classified, notify_output, optional_view, process_notify_event, process_operation_event,
    FileEventView, FileSystemEvent, FileSystemEventView, InternalFSEvent, InternalFSEventView,
    OperationEventView, RawEvent, RawEventView,
};

verus! {

/// Whether the closing of a channel is reported as an error. Once shutdown
/// has been requested it is expected, and nothing is reported.
pub open spec fn closure_reported(shutdown: bool) -> bool {
    !shutdown
}

/// Whether the closing of a channel is reported as an error.
pub fn reports_closure(shutdown: bool) -> (r: bool)
    ensures
        r == closure_reported(shutdown),
{
    !shutdown
}

/// What happens to the bridge.
#[derive(Debug, PartialEq, Eq)]
pub enum BridgeEvent {
    /// The watcher delivered a notification.
    Received(RawEvent),
    /// The watcher's channel is closed.
    Closed,
    /// The last notification reached the funnel's queue.
    Forwarded,
    /// The funnel's queue is closed.
    FunnelGone,
}

/// What the bridge does next.
#[derive(Debug, PartialEq, Eq)]
pub enum BridgeAction {
    /// Put the event on the funnel's queue.
    Forward(InternalFSEvent),
    /// Wait for the next notification.
    Wait,
    /// End the thread, reporting an error or not.
    Stop { report: bool },
}

/// The model of a `BridgeEvent`.
pub enum BridgeEventView {
    Received(RawEventView),
    Closed,
    Forwarded,
    FunnelGone,
}

/// The model of a `BridgeAction`.
pub enum BridgeActionView {
    Forward(InternalFSEventView),
    Wait,
    Stop { report: bool },
}

impl View for BridgeEvent {
    type V = BridgeEventView;

    open spec fn view(&self) -> BridgeEventView {
        match *self {
            BridgeEvent::Received(raw) => BridgeEventView::Received(raw@),
            BridgeEvent::Closed => BridgeEventView::Closed,
            BridgeEvent::Forwarded => BridgeEventView::Forwarded,
            BridgeEvent::FunnelGone => BridgeEventView::FunnelGone,
        }
    }
}

impl View for BridgeAction {
    type V = BridgeActionView;

    open spec fn view(&self) -> BridgeActionView {
        match *self {
            BridgeAction::Forward(event) => BridgeActionView::Forward(event@),
            BridgeAction::Wait => BridgeActionView::Wait,
            BridgeAction::Stop { report } => BridgeActionView::Stop { report },
        }
    }
}

/// The bridge is a transport: it passes every notification on as it is and
/// ends when either of its channels closes.
pub open spec fn bridge_action(event: BridgeEventView, shutdown: bool) -> BridgeActionView {
    match event {
        BridgeEventView::Received(raw) => BridgeActionView::Forward(
            InternalFSEventView::Notify(raw),
        ),
        BridgeEventView::Forwarded => BridgeActionView::Wait,
        BridgeEventView::Closed => BridgeActionView::Stop { report: closure_reported(shutdown) },
        BridgeEventView::FunnelGone => BridgeActionView::Stop {
            report: closure_reported(shutdown),
        },
    }
}

/// What the bridge does about `event`.
pub fn bridge_step(event: BridgeEvent, shutdown: bool) -> (r: BridgeAction)
    ensures
        r@ == bridge_action(event@, shutdown),
{
    match event {
        BridgeEvent::Received(raw) => BridgeAction::Forward(InternalFSEvent::Notify(raw)),
        BridgeEvent::Forwarded => BridgeAction::Wait,
        BridgeEvent::Closed => BridgeAction::Stop { report: reports_closure(shutdown) },
        BridgeEvent::FunnelGone => BridgeAction::Stop { report: reports_closure(shutdown) },
    }
}

/// What happens to the funnel.
#[derive(Debug, PartialEq, Eq)]
pub enum FunnelEvent {
    /// One of the two inputs delivered an event.
    Received(InternalFSEvent),
    /// The input that looked ready had nothing after all.
    Empty,
    /// An input's senders are all gone.
    Disconnected,
    /// The last event reached the consumer's channel.
    Delivered,
    /// The consumer is gone.
    ConsumerGone,
}

/// What the funnel does next.
#[derive(Debug, PartialEq, Eq)]
pub enum FunnelAction {
    /// Send the event to the consumer.
    Forward(FileSystemEvent),
    /// Invoke the repaint hook once, then wait for the next input.
    Notify,
    /// Wait for the next input.
    Wait,
    /// End the thread, reporting an error or not.
    Stop { report: bool },
}

/// The model of a `FunnelEvent`.
pub enum FunnelEventView {
    Received(InternalFSEventView),
    Empty,
    Disconnected,
    Delivered,
    ConsumerGone,
}

/// The model of a `FunnelAction`.
pub enum FunnelActionView {
    Forward(FileSystemEventView),
    Notify,
    Wait,
    Stop { report: bool },
}

impl View for FunnelEvent {
    type V = FunnelEventView;

    open spec fn view(&self) -> FunnelEventView {
        match *self {
            FunnelEvent::Received(event) => FunnelEventView::Received(event@),
            FunnelEvent::Empty => FunnelEventView::Empty,
            FunnelEvent::Disconnected => FunnelEventView::Disconnected,
            FunnelEvent::Delivered => FunnelEventView::Delivered,
            FunnelEvent::ConsumerGone => FunnelEventView::ConsumerGone,
        }
    }
}

impl View for FunnelAction {
    type V = FunnelActionView;

    open spec fn view(&self) -> FunnelActionView {
        match *self {
            FunnelAction::Forward(event) => FunnelActionView::Forward(event@),
            FunnelAction::Notify => FunnelActionView::Notify,
            FunnelAction::Wait => FunnelActionView::Wait,
            FunnelAction::Stop { report } => FunnelActionView::Stop { report },
        }
    }
}

/// What the funnel forwards for an event from one of its inputs: a raw
/// notification is classified and may be dropped, a job's completion passes
/// through as it is.
pub open spec fn funnel_output(event: InternalFSEventView) -> Option<FileSystemEventView> {
    match event {
        InternalFSEventView::Notify(raw) => notify_output(raw),
        InternalFSEventView::Op(operation) => Some(FileSystemEventView::OperationEvent(operation)),
    }
}

/// The funnel's rule. An event is forwarded or dropped; the hook is invoked
/// after a delivery and at no other time; a lost input ends the thread with
/// a report unless shutdown was requested; a lost consumer ends it quietly.
pub open spec fn funnel_action(event: FunnelEventView, shutdown: bool) -> FunnelActionView {
    match event {
        FunnelEventView::Received(received) => match funnel_output(received) {
            Some(output) => FunnelActionView::Forward(output),
            None => FunnelActionView::Wait,
        },
        FunnelEventView::Empty => FunnelActionView::Wait,
        FunnelEventView::Disconnected => FunnelActionView::Stop {
            report: closure_reported(shutdown),
        },
        FunnelEventView::Delivered => FunnelActionView::Notify,
        FunnelEventView::ConsumerGone => FunnelActionView::Stop { report: false },
    }
}

/// What the funnel forwards for `event`, if anything.
pub fn forward(event: InternalFSEvent) -> (r: Option<FileSystemEvent>)
    ensures
        optional_view(r) == funnel_output(event@),
{
    match event {
        InternalFSEvent::Notify(raw) => process_notify_event(raw),
        InternalFSEvent::Op(operation) => Some(process_operation_event(operation)),
    }
}

/// What the funnel does about `event`.
pub fn funnel_step(event: FunnelEvent, shutdown: bool) -> (r: FunnelAction)
    ensures
        r@ == funnel_action(event@, shutdown),
{
    match event {
        FunnelEvent::Received(received) => match forward(received) {
            Some(output) => FunnelAction::Forward(output),
            None => FunnelAction::Wait,
        },
        FunnelEvent::Empty => FunnelAction::Wait,
        FunnelEvent::Disconnected => FunnelAction::Stop { report: reports_closure(shutdown) },
        FunnelEvent::Delivered => FunnelAction::Notify,
        FunnelEvent::ConsumerGone => FunnelAction::Stop { report: false },
    }
}

/// What the funnel forwards for a run of inputs, in the order it observed
/// them.
pub open spec fn funnel_stream(inputs: Seq<InternalFSEventView>) -> Seq<FileSystemEventView>
    decreases inputs.len(),
{
    if inputs.len() == 0 {
        Seq::empty()
    } else {
        let front = funnel_stream(inputs.drop_last());
        match funnel_output(inputs.last()) {
            Some(output) => front.push(output),
            None => front,
        }
    }
}

/// The funnel keeps the order of what it observes: the output for a run of
/// inputs followed by another is the output for the first followed by the
/// output for the second. Each input gives at most one output.
pub proof fn lemma_funnel_keeps_order(
    first: Seq<InternalFSEventView>,
    second: Seq<InternalFSEventView>,
)
    ensures
        funnel_stream(first + second) == funnel_stream(first) + funnel_stream(second),
        funnel_stream(first).len() <= first.len(),
    decreases second.len(), first.len(),
{
    if second.len() == 0 {
        assert(first + second =~= first);
        assert(funnel_stream(first) + funnel_stream(second) =~= funnel_stream(first));
        if first.len() > 0 {
            lemma_funnel_keeps_order(first.drop_last(), second);
        }
    } else {
        lemma_funnel_keeps_order(first, second.drop_last());
        assert((first + second).drop_last() =~= first + second.drop_last());
        assert((first + second).last() == second.last());
        match funnel_output(second.last()) {
            Some(output) => {
                assert(funnel_stream(first + second) =~= funnel_stream(first) + funnel_stream(
                    second,
                ));
            },
            None => {},
        }
    }
}

/// Once shutdown has been requested, no step of either loop asks for an
/// error report, whatever happens.
pub proof fn lemma_quiet_after_shutdown(funnel: FunnelEventView, bridge: BridgeEventView)
    ensures
        !closure_reported(true),
        funnel_action(funnel, true) is Stop ==> !funnel_action(funnel, true)->report,
        bridge_action(bridge, true) is Stop ==> !bridge_action(bridge, true)->report,
{
}

/// A rename is forwarded as one rename, with both paths, whatever the paths
/// are: never as a removal followed by an addition.
pub proof fn lemma_rename_is_one_event(old: Seq<char>, new: Seq<char>)
    ensures
        classified(RawEventView::Rename(old, new)) == Some(FileEventView::Renamed(old, new)),
        funnel_stream(seq![InternalFSEventView::Notify(RawEventView::Rename(old, new))]) == seq![
            FileSystemEventView::FileEvent(FileEventView::Renamed(old, new)),
        ],
{
    let input = seq![InternalFSEventView::Notify(RawEventView::Rename(old, new))];
    assert(input.drop_last() =~= Seq::<InternalFSEventView>::empty());
    assert(funnel_stream(input.drop_last()) =~= Seq::<FileSystemEventView>::empty());
    assert(funnel_stream(input) =~= seq![
        FileSystemEventView::FileEvent(FileEventView::Renamed(old, new)),
    ]);
}

/// A job's completion is forwarded as it is, a failed one too: the decode
/// error arrives inside the event and nothing is dropped.
pub proof fn lemma_completion_is_forwarded(operation: OperationEventView)
    ensures
        funnel_output(InternalFSEventView::Op(operation)) == Some(
            FileSystemEventView::OperationEvent(operation),
        ),
        forall|shutdown: bool| #[trigger]
            funnel_action(
                FunnelEventView::Received(InternalFSEventView::Op(operation)),
                shutdown,
            ) == FunnelActionView::Forward(FileSystemEventView::OperationEvent(operation)),
{
}

/// Two completions give two events, in order, also where both are for the
/// same path: the funnel does not merge them.
pub proof fn lemma_completions_are_not_merged(first: OperationEventView, second: OperationEventView)
    ensures
        funnel_stream(seq![InternalFSEventView::Op(first), InternalFSEventView::Op(second)])
            == seq![
            FileSystemEventView::OperationEvent(first),
            FileSystemEventView::OperationEvent(second),
        ],
{
    let input = seq![InternalFSEventView::Op(first), InternalFSEventView::Op(second)];
    let front = input.drop_last();
    assert(front =~= seq![InternalFSEventView::Op(first)]);
    assert(front.drop_last() =~= Seq::<InternalFSEventView>::empty());
    assert(funnel_stream(front.drop_last()) =~= Seq::<FileSystemEventView>::empty());
    assert(funnel_stream(front) =~= seq![FileSystemEventView::OperationEvent(first)]);
    assert(funnel_stream(input) =~= seq![
        FileSystemEventView::OperationEvent(first),
        FileSystemEventView::OperationEvent(second),
    ]);
}

} // verus!
