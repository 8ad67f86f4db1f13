use sprite_section::{
    on_notification, sync_all, Color, Message, MessageDirection, Node, NodeHandle, Scalar,
    SceneCommand, SinkClosed, Sprite, SpriteSection, Ui, UiMessage, UiMessageData, WidgetHandle,
};
use std::sync::mpsc::{channel, Receiver};

fn widget(index: u32) -> WidgetHandle {
    WidgetHandle { index, generation: 0 }
}

fn num(x: f32) -> Scalar {
    Scalar::from_bits(x.to_bits())
}

fn section(first: u32) -> (SpriteSection, Receiver<Message>) {
    let (tx, rx) = channel();
    let s = SpriteSection::new(widget(first), widget(first + 1), widget(first + 2), widget(first + 3), tx);
    (s, rx)
}

fn node() -> Node {
    Node::Sprite(Sprite::new(num(1.0), num(0.0), Color::from_rgba(0, 0, 0, 255)))
}

fn user_size(w: u32, x: f32) -> UiMessage {
    UiMessage {
        destination: widget(w),
        direction: MessageDirection::FromWidget,
        data: UiMessageData::NumericValue(num(x)),
    }
}

#[test]
fn sync_all_syncs_each_section_in_order() {
    let (a, _ra) = section(0);
    let (b, _rb) = section(10);
    let mut ui = Ui::new();
    sync_all(&vec![a, b], &node(), &mut ui);
    let msgs = ui.take_messages();
    assert_eq!(msgs.len(), 8);
    assert_eq!(msgs[0].destination, widget(0));
    assert_eq!(msgs[0].data, UiMessageData::Visibility(true));
    assert_eq!(msgs[4].destination, widget(10));
    assert_eq!(msgs[5].data, UiMessageData::NumericValue(num(1.0)));
}

#[test]
fn sync_all_of_non_sprite_only_hides() {
    let (a, _ra) = section(0);
    let (b, _rb) = section(10);
    let mut ui = Ui::new();
    sync_all(&vec![a, b], &Node::Other, &mut ui);
    let msgs = ui.take_messages();
    assert_eq!(msgs.len(), 2);
    assert!(msgs.iter().all(|m| m.data == UiMessageData::Visibility(false)));
}

#[test]
fn notification_goes_to_the_claiming_section() {
    let (a, ra) = section(0);
    let (b, rb) = section(10);
    let mut sections = vec![a, b];
    let h = NodeHandle { index: 1, generation: 1 };
    assert_eq!(on_notification(&mut sections, &user_size(11, 3.0), &node(), h), Ok(()));
    assert!(ra.try_recv().is_err());
    assert_eq!(
        rb.try_recv().unwrap(),
        Message::DoSceneCommand(SceneCommand::SetSpriteSize { handle: h, value: num(3.0) })
    );
    assert!(rb.try_recv().is_err());
}

#[test]
fn first_claiming_section_wins() {
    let (a, ra) = section(0);
    let (b, rb) = section(0);
    let mut sections = vec![a, b];
    let h = NodeHandle { index: 1, generation: 1 };
    assert_eq!(on_notification(&mut sections, &user_size(1, 3.0), &node(), h), Ok(()));
    assert!(ra.try_recv().is_ok());
    assert!(rb.try_recv().is_err());
    assert_eq!(sections.len(), 2);
}

#[test]
fn unclaimed_notification_sends_nothing() {
    let (a, ra) = section(0);
    let mut sections = vec![a];
    let h = NodeHandle { index: 1, generation: 1 };
    assert_eq!(on_notification(&mut sections, &user_size(1, 1.0), &node(), h), Ok(()));
    assert_eq!(on_notification(&mut sections, &user_size(50, 2.0), &node(), h), Ok(()));
    assert!(ra.try_recv().is_err());
}

#[test]
fn claimed_notification_on_closed_channel_fails() {
    let (a, ra) = section(0);
    drop(ra);
    let mut sections = vec![a];
    let h = NodeHandle { index: 1, generation: 1 };
    assert_eq!(
        on_notification(&mut sections, &user_size(1, 2.0), &node(), h),
        Err(SinkClosed {
            unsent: Message::DoSceneCommand(SceneCommand::SetSpriteSize { handle: h, value: num(2.0) }),
        })
    );
}
