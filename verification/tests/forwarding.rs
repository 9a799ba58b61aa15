use imview::error::{DecodeError, DecodeStage};
use imview::events::{FileEvent, FileSystemEvent, InternalFSEvent, OperationEvent, RawEvent};
use imview::funnel::{
    bridge_step, forward, funnel_step, reports_closure, BridgeAction, BridgeEvent, FunnelAction,
    FunnelEvent,
};
use imview::pixels::PixelBuffer;

fn s(text: &str) -> String {
    text.to_string()
}

#[test]
fn a_closed_channel_is_reported_until_shutdown() {
    assert!(reports_closure(false));
    assert!(!reports_closure(true));
}

#[test]
fn bridge_passes_every_notification_on() {
    assert_eq!(
        bridge_step(BridgeEvent::Received(RawEvent::Create(s("/a/notes.txt"))), false),
        BridgeAction::Forward(InternalFSEvent::Notify(RawEvent::Create(s("/a/notes.txt"))))
    );
    assert_eq!(
        bridge_step(BridgeEvent::Received(RawEvent::Other), true),
        BridgeAction::Forward(InternalFSEvent::Notify(RawEvent::Other))
    );
}

#[test]
fn bridge_waits_after_forwarding() {
    assert_eq!(bridge_step(BridgeEvent::Forwarded, false), BridgeAction::Wait);
    assert_eq!(bridge_step(BridgeEvent::Forwarded, true), BridgeAction::Wait);
}

#[test]
fn bridge_reports_a_closed_channel_before_shutdown() {
    assert_eq!(bridge_step(BridgeEvent::Closed, false), BridgeAction::Stop { report: true });
    assert_eq!(bridge_step(BridgeEvent::FunnelGone, false), BridgeAction::Stop { report: true });
}

#[test]
fn bridge_ends_quietly_after_shutdown() {
    assert_eq!(bridge_step(BridgeEvent::Closed, true), BridgeAction::Stop { report: false });
    assert_eq!(bridge_step(BridgeEvent::FunnelGone, true), BridgeAction::Stop { report: false });
}

#[test]
fn funnel_forwards_a_classified_notification() {
    let event = FunnelEvent::Received(InternalFSEvent::Notify(RawEvent::Create(s("/a/x.png"))));
    assert_eq!(
        funnel_step(event, false),
        FunnelAction::Forward(FileSystemEvent::FileEvent(FileEvent::Added(s("/a/x.png"))))
    );
}

#[test]
fn funnel_waits_again_after_a_dropped_notification() {
    let event = FunnelEvent::Received(InternalFSEvent::Notify(RawEvent::Create(s("/a/x.txt"))));
    assert_eq!(funnel_step(event, false), FunnelAction::Wait);
    let event = FunnelEvent::Received(InternalFSEvent::Notify(RawEvent::Other));
    assert_eq!(funnel_step(event, false), FunnelAction::Wait);
}

#[test]
fn funnel_forwards_a_rename_as_one_rename() {
    let raw = RawEvent::Rename(s("/a/old.png"), s("/a/new.png"));
    assert_eq!(
        funnel_step(FunnelEvent::Received(InternalFSEvent::Notify(raw)), false),
        FunnelAction::Forward(FileSystemEvent::FileEvent(FileEvent::Renamed(
            s("/a/old.png"),
            s("/a/new.png")
        )))
    );
}

#[test]
fn funnel_forwards_a_completion_as_it_is() {
    let image = PixelBuffer::from_raw(1, 1, vec![1, 2, 3, 4]).unwrap();
    let event = FunnelEvent::Received(InternalFSEvent::Op(OperationEvent::ThumbnailLoaded((
        s("/a/x.png"),
        Ok(image.clone()),
    ))));
    assert_eq!(
        funnel_step(event, false),
        FunnelAction::Forward(FileSystemEvent::OperationEvent(OperationEvent::ThumbnailLoaded((
            s("/a/x.png"),
            Ok(image)
        ))))
    );
}

#[test]
fn funnel_forwards_a_decode_error_inside_its_event() {
    let error = DecodeError { stage: DecodeStage::Open, message: s("No such file or directory") };
    let received =
        InternalFSEvent::Op(OperationEvent::ImageLoaded((s("/a/gone.png"), Err(error.clone()))));
    assert_eq!(
        forward(received),
        Some(FileSystemEvent::OperationEvent(OperationEvent::ImageLoaded((
            s("/a/gone.png"),
            Err(error)
        ))))
    );
}

#[test]
fn funnel_notifies_once_after_a_delivery() {
    assert_eq!(funnel_step(FunnelEvent::Delivered, false), FunnelAction::Notify);
    assert_eq!(funnel_step(FunnelEvent::Delivered, true), FunnelAction::Notify);
}

#[test]
fn funnel_waits_when_the_ready_input_was_empty() {
    assert_eq!(funnel_step(FunnelEvent::Empty, false), FunnelAction::Wait);
}

#[test]
fn funnel_reports_a_lost_input_before_shutdown() {
    assert_eq!(funnel_step(FunnelEvent::Disconnected, false), FunnelAction::Stop { report: true });
}

#[test]
fn funnel_ends_quietly_after_shutdown() {
    assert_eq!(funnel_step(FunnelEvent::Disconnected, true), FunnelAction::Stop { report: false });
}

#[test]
fn funnel_ends_quietly_when_the_consumer_is_gone() {
    assert_eq!(funnel_step(FunnelEvent::ConsumerGone, false), FunnelAction::Stop { report: false });
    assert_eq!(funnel_step(FunnelEvent::ConsumerGone, true), FunnelAction::Stop { report: false });
}

#[test]
fn funnel_keeps_the_order_of_what_it_receives() {
    let inputs = vec![
        InternalFSEvent::Notify(RawEvent::Create(s("/a/1.png"))),
        InternalFSEvent::Notify(RawEvent::Create(s("/a/skip.txt"))),
        InternalFSEvent::Notify(RawEvent::Remove(s("/a/1.png"))),
        InternalFSEvent::Notify(RawEvent::Write(s("/a/2.png"))),
    ];
    let mut outputs = Vec::new();
    for input in inputs {
        if let FunnelAction::Forward(event) = funnel_step(FunnelEvent::Received(input), false) {
            outputs.push(event);
        }
    }
    assert_eq!(
        outputs,
        vec![
            FileSystemEvent::FileEvent(FileEvent::Added(s("/a/1.png"))),
            FileSystemEvent::FileEvent(FileEvent::Removed(s("/a/1.png"))),
            FileSystemEvent::FileEvent(FileEvent::Modified(s("/a/2.png"))),
        ]
    );
}
