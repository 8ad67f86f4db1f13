use vstd::prelude::*;
use std::sync::mpsc::Sender;
use crate::scene::{
    command_for, fits, property_value, Message, Node, NodeHandle, SceneCommand, Sprite, SpriteProperty,
};
use crate::ui::{
    carried_value, carried_value_of, last_such, lemma_last_such_append, shown_value,
    shown_visibility, value_target, value_write, value_write_of, visibility_target,
    MessageDirection, Ui, UiMessage, UiMessageData, WidgetHandle,
};
use crate::value::FieldValue;

verus! {

/// The sending end of std's channel (std::sync::mpsc::Sender), carried
/// opaquely: nothing is assumed of its contents.
#[verifier::external_type_specification]
#[verifier::external_body]
#[verifier::reject_recursive_types(T)]
pub struct ExSender<T>(std::sync::mpsc::Sender<T>);

/// The messages that the channel has accepted through this sender, oldest first.
pub uninterp spec fn sent_on(sender: Sender<Message>) -> Seq<Message>;

/// Relies on std::sync::mpsc::Sender::send: a successful send puts the
/// message on the channel, after those sent before it; when the receiving
/// end is gone nothing is sent and the message is handed back, unchanged,
/// inside the error.
#[verifier::external_body]
fn send_on(sender: &mut Sender<Message>, m: Message) -> (r: Result<(), Message>)
    ensures
        r is Ok ==> sent_on(*final(sender)) == sent_on(*old(sender)).push(m),
        r is Err ==> sent_on(*final(sender)) == sent_on(*old(sender)) && r->Err_0 == m,
{
    match sender.send(m) {
        Ok(()) => Ok(()),
        Err(e) => Err(e.0),
    }
}

/// One editable field bound to one property of a sprite.
#[derive(Clone, Copy, Debug, PartialEq, Eq, Structural)]
pub struct FieldBinding {
    pub widget: WidgetHandle,
    pub property: SpriteProperty,
}

impl FieldBinding {
    /// Reads the bound property from a sprite.
    pub fn read(&self, sprite: &Sprite) -> (r: FieldValue)
        ensures
            r == property_value(*sprite, self.property),
    {
        match self.property {
            SpriteProperty::Size => FieldValue::Number(sprite.size),
            SpriteProperty::Rotation => FieldValue::Number(sprite.rotation),
            SpriteProperty::Color => FieldValue::Color(sprite.color),
        }
    }

    /// The command that sets the bound property of node `handle` to `value`;
    /// none where `value` is not of the property's kind.
    pub fn to_command(&self, handle: NodeHandle, value: FieldValue) -> (r: Option<SceneCommand>)
        ensures
            r == command_for(handle, self.property, value),
    {
        match (self.property, value) {
            (SpriteProperty::Size, FieldValue::Number(x)) => Some(
                SceneCommand::SetSpriteSize { handle, value: x },
            ),
            (SpriteProperty::Rotation, FieldValue::Number(x)) => Some(
                SceneCommand::SetSpriteRotation { handle, value: x },
            ),
            (SpriteProperty::Color, FieldValue::Color(c)) => Some(
                SceneCommand::SetSpriteColor { handle, color: c },
            ),
            _ => None,
        }
    }
}

/// The first binding of `bs` whose widget is `w`.
pub open spec fn first_binding(bs: Seq<FieldBinding>, w: WidgetHandle) -> Option<FieldBinding>
    decreases bs.len(),
{
    if bs.len() == 0 {
        None
    } else if bs[0].widget == w {
        Some(bs[0])
    } else {
        first_binding(bs.drop_first(), w)
    }
}

/// The panel section that shows and edits the properties of a sprite node.
pub struct SpriteSection {
    pub section: WidgetHandle,
    size: WidgetHandle,
    rotation: WidgetHandle,
    color: WidgetHandle,
    sender: Sender<Message>,
}

impl SpriteSection {
    /// The section's fields in display order: size, rotation, color.
    pub closed spec fn bindings(self) -> Seq<FieldBinding> {
        seq![
            FieldBinding { widget: self.size, property: SpriteProperty::Size },
            FieldBinding { widget: self.rotation, property: SpriteProperty::Rotation },
            FieldBinding { widget: self.color, property: SpriteProperty::Color },
        ]
    }

    /// The widget that holds the section's fields.
    pub closed spec fn container(self) -> WidgetHandle {
        self.section
    }

    /// The messages that the command channel has accepted from this section, oldest first.
    pub closed spec fn sent(self) -> Seq<Message> {
        sent_on(self.sender)
    }

    /// Each property has one field, no two fields share a widget, and the
    /// container is none of the fields.
    pub open spec fn wf(self) -> bool {
        let bs = self.bindings();
        &&& bs.len() == 3
        &&& forall|i: int| 0 <= i < 3 ==> #[trigger] bs[i].widget != self.container()
        &&& bs[0].property == SpriteProperty::Size
        &&& bs[1].property == SpriteProperty::Rotation
        &&& bs[2].property == SpriteProperty::Color
        &&& forall|i: int, j: int|
            0 <= i < 3 && 0 <= j < 3 && i != j ==> #[trigger] bs[i].widget != #[trigger] bs[j].widget
    }

    /// The field shown in widget `w`, if any.
    pub open spec fn binding_at(self, w: WidgetHandle) -> Option<FieldBinding> {
        first_binding(self.bindings(), w)
    }

    /// The section applies to sprite nodes only.
    pub open spec fn applies_to(node: Node) -> bool {
        node is Sprite
    }

    /// The programmatic writes that bring the section up to date with `node`:
    /// its visibility, then, for a sprite, each field's current value.
    pub open spec fn sync_messages(self, node: Node) -> Seq<UiMessage> {
        let shown = UiMessage {
            destination: self.container(),
            direction: MessageDirection::ToWidget,
            data: UiMessageData::Visibility(Self::applies_to(node)),
        };
        match node {
            Node::Sprite(s) => seq![shown] + self.bindings().map_values(
                |b: FieldBinding| value_write(b.widget, property_value(s, b.property)),
            ),
            _ => seq![shown],
        }
    }

    /// The command that a message asks for: the message reports a user change
    /// of a field of this section, the node is a sprite, the reported value is
    /// of the field's kind and differs from the sprite's current value.
    pub open spec fn routed(self, message: UiMessage, node: Node, handle: NodeHandle) -> Option<
        SceneCommand,
    > {
        match (node, self.binding_at(message.destination), carried_value(message.data)) {
            (Node::Sprite(s), Some(b), Some(v)) => if message.direction is FromWidget
                && !v.same_value(property_value(s, b.property)) {
                command_for(handle, b.property, v)
            } else {
                None
            },
            _ => None,
        }
    }

    pub fn new(
        section: WidgetHandle,
        size: WidgetHandle,
        rotation: WidgetHandle,
        color: WidgetHandle,
        sender: Sender<Message>,
    ) -> (r: SpriteSection)
        requires
            size != rotation,
            size != color,
            rotation != color,
            section != size,
            section != rotation,
            section != color,
        ensures
            r.wf(),
            r.container() == section,
            r.bindings() == seq![
                FieldBinding { widget: size, property: SpriteProperty::Size },
                FieldBinding { widget: rotation, property: SpriteProperty::Rotation },
                FieldBinding { widget: color, property: SpriteProperty::Color },
            ],
            r.sent() == sent_on(sender),
    {
        SpriteSection { section, size, rotation, color, sender }
    }

    pub fn is_applicable(&self, node: &Node) -> (r: bool)
        ensures
            r == Self::applies_to(*node),
    {
        node.is_sprite()
    }

    /// The field shown in widget `w`, if any.
    pub fn binding_for(&self, w: WidgetHandle) -> (r: Option<FieldBinding>)
        ensures
            r == self.binding_at(w),
    {
        proof {
            reveal_with_fuel(first_binding, 4);
        }
        if w == self.size {
            Some(FieldBinding { widget: self.size, property: SpriteProperty::Size })
        } else if w == self.rotation {
            Some(FieldBinding { widget: self.rotation, property: SpriteProperty::Rotation })
        } else if w == self.color {
            Some(FieldBinding { widget: self.color, property: SpriteProperty::Color })
        } else {
            None
        }
    }
}

/// The command channel is gone: the editing session has ended, and the
/// command that could not be delivered is handed back.
#[derive(Clone, Copy, Debug, PartialEq, Eq, Structural)]
pub struct SinkClosed {
    pub unsent: Message,
}

impl SpriteSection {
    /// Writes the section's state for `node` into the user interface queue:
    /// the section is shown exactly when `node` is a sprite, and then every
    /// field shows the sprite's current value; otherwise no field is written.
    pub fn sync_to_model(&self, node: &Node, ui: &mut Ui)
        requires
            self.wf(),
        ensures
            final(ui)@ == old(ui)@ + self.sync_messages(*node),
            shown_visibility(final(ui)@, self.container()) == Some(Self::applies_to(*node)),
            !Self::applies_to(*node) ==> forall|w: WidgetHandle|
                shown_value(#[trigger] final(ui)@, w) == shown_value(old(ui)@, w),
            !Self::applies_to(*node) ==> forall|k: int|
                old(ui)@.len() <= k < final(ui)@.len() ==> (#[trigger] final(ui)@[k]).destination
                    == self.container(),
            !Self::applies_to(*node) ==> forall|i: int|
                0 <= i < 3 ==> shown_visibility(final(ui)@, #[trigger] self.bindings()[i].widget)
                    == shown_visibility(old(ui)@, self.bindings()[i].widget),
            *node matches Node::Sprite(s) ==> forall|i: int|
                0 <= i < 3 ==> shown_value(final(ui)@, #[trigger] self.bindings()[i].widget) == Some(
                    property_value(s, self.bindings()[i].property),
                ),
    {
        let ghost before = ui@;
        ui.send_message(
            UiMessage {
                destination: self.section,
                direction: MessageDirection::ToWidget,
                data: UiMessageData::Visibility(node.is_sprite()),
            },
        );
        if let Node::Sprite(sprite) = node {
            ui.send_message(value_write_of(self.size, FieldValue::Number(sprite.size())));
            ui.send_message(value_write_of(self.rotation, FieldValue::Number(sprite.rotation())));
            ui.send_message(value_write_of(self.color, FieldValue::Color(sprite.color())));
            assert(self.sync_messages(*node) =~= seq![
                self.sync_messages(*node)[0],
                value_write(self.size, FieldValue::Number(sprite.size)),
                value_write(self.rotation, FieldValue::Number(sprite.rotation)),
                value_write(self.color, FieldValue::Color(sprite.color)),
            ]);
        }
        assert(ui@ =~= before + self.sync_messages(*node));
        proof {
            self.lemma_sync_effect(*node, before);
        }
    }

    /// The command, if any, that `message` asks of this section for `node`,
    /// the node that `handle` names.
    pub fn route(&self, message: &UiMessage, node: &Node, handle: NodeHandle) -> (r: Option<
        SceneCommand,
    >)
        ensures
            r == self.routed(*message, *node, handle),
    {
        match node {
            Node::Sprite(sprite) => {
                if message.direction != MessageDirection::FromWidget {
                    return None;
                }
                match (self.binding_for(message.destination), carried_value_of(&message.data)) {
                    (Some(b), Some(v)) => {
                        if v.equals(&b.read(sprite)) {
                            None
                        } else {
                            b.to_command(handle, v)
                        }
                    },
                    _ => None,
                }
            },
            _ => None,
        }
    }

    /// Handles a message from the user interface: where it asks for a
    /// command, the command is sent to the command channel. A closed channel
    /// ends the session and is reported with the command that was not sent.
    pub fn handle_message(&mut self, message: &UiMessage, node: &Node, handle: NodeHandle) -> (r:
        Result<(), SinkClosed>)
        ensures
            final(self).bindings() == old(self).bindings(),
            final(self).container() == old(self).container(),
            match old(self).routed(*message, *node, handle) {
                None => r is Ok && final(self).sent() == old(self).sent(),
                Some(c) => (r is Ok && final(self).sent() == old(self).sent().push(
                    Message::DoSceneCommand(c),
                )) || (r == Err::<(), SinkClosed>(SinkClosed { unsent: Message::DoSceneCommand(c) })
                    && final(self).sent() == old(self).sent()),
            },
    {
        match self.route(message, node, handle) {
            None => Ok(()),
            Some(c) => {
                let m = Message::DoSceneCommand(c);
                match send_on(&mut self.sender, m) {
                    Ok(()) => Ok(()),
                    Err(back) => Err(SinkClosed { unsent: back }),
                }
            },
        }
    }

    /// What a sync leaves shown: the section's visibility says whether `node`
    /// is a sprite; a sprite's fields each show its current value; for any
    /// other node no widget's value changes.
    pub proof fn lemma_sync_effect(self, node: Node, before: Seq<UiMessage>)
        requires
            self.wf(),
        ensures
            shown_visibility(before + self.sync_messages(node), self.container()) == Some(
                Self::applies_to(node),
            ),
            !Self::applies_to(node) ==> forall|w: WidgetHandle|
                shown_value(#[trigger] (before + self.sync_messages(node)), w) == shown_value(
                    before,
                    w,
                ),
            !Self::applies_to(node) ==> forall|i: int|
                0 <= i < 3 ==> shown_visibility(
                    before + self.sync_messages(node),
                    #[trigger] self.bindings()[i].widget,
                ) == shown_visibility(before, self.bindings()[i].widget),
            node matches Node::Sprite(s) ==> forall|i: int|
                0 <= i < 3 ==> shown_value(
                    before + self.sync_messages(node),
                    #[trigger] self.bindings()[i].widget,
                ) == Some(property_value(s, self.bindings()[i].property)),
    {
        let msgs = self.sync_messages(node);
        let bs = self.bindings();
        reveal_with_fuel(last_such, 5);
        lemma_last_such_append(before, msgs, visibility_target(self.container()));
        match node {
            Node::Sprite(s) => {
                let m0 = value_write(bs[0].widget, property_value(s, bs[0].property));
                let m1 = value_write(bs[1].widget, property_value(s, bs[1].property));
                let m2 = value_write(bs[2].widget, property_value(s, bs[2].property));
                assert(msgs =~= seq![msgs[0], m0, m1, m2]);
                assert(msgs.drop_last() =~= seq![msgs[0], m0, m1]);
                assert(msgs.drop_last().drop_last() =~= seq![msgs[0], m0]);
                assert(msgs.drop_last().drop_last().drop_last() =~= seq![msgs[0]]);
                assert forall|i: int| 0 <= i < 3 implies shown_value(
                    before + msgs,
                    #[trigger] bs[i].widget,
                ) == Some(property_value(s, bs[i].property)) by {
                    lemma_last_such_append(before, msgs, value_target(bs[i].widget));
                };
            },
            _ => {
                assert forall|w: WidgetHandle|
                    shown_value(#[trigger] (before + msgs), w) == shown_value(before, w) by {
                    lemma_last_such_append(before, msgs, value_target(w));
                };
                assert forall|i: int| 0 <= i < 3 implies shown_visibility(
                    before + msgs,
                    #[trigger] bs[i].widget,
                ) == shown_visibility(before, bs[i].widget) by {
                    lemma_last_such_append(before, msgs, visibility_target(bs[i].widget));
                };
            },
        }
    }

    /// Syncing twice with no change in between leaves every widget showing
    /// what syncing once does.
    pub proof fn lemma_sync_idempotent(self, node: Node, before: Seq<UiMessage>)
        ensures
            forall|w: WidgetHandle|
                shown_value(#[trigger] (before + self.sync_messages(node) + self.sync_messages(node)), w)
                    == shown_value(before + self.sync_messages(node), w),
            forall|w: WidgetHandle|
                shown_visibility(#[trigger] (before + self.sync_messages(node) + self.sync_messages(node)), w)
                    == shown_visibility(before + self.sync_messages(node), w),
    {
        let once = before + self.sync_messages(node);
        let msgs = self.sync_messages(node);
        assert forall|w: WidgetHandle|
            shown_value(#[trigger] (once + msgs), w) == shown_value(once, w) by {
            lemma_last_such_append(once, msgs, value_target(w));
            lemma_last_such_append(before, msgs, value_target(w));
        };
        assert forall|w: WidgetHandle|
            shown_visibility(#[trigger] (once + msgs), w) == shown_visibility(once, w) by {
            lemma_last_such_append(once, msgs, visibility_target(w));
            lemma_last_such_append(before, msgs, visibility_target(w));
        };
    }

    /// An edit that reports a field's current value asks for no command.
    pub proof fn lemma_no_op_edit(
        self,
        message: UiMessage,
        sprite: Sprite,
        handle: NodeHandle,
        b: FieldBinding,
        v: FieldValue,
    )
        requires
            self.binding_at(message.destination) == Some(b),
            carried_value(message.data) == Some(v),
            v.same_value(property_value(sprite, b.property)),
        ensures
            self.routed(message, Node::Sprite(sprite), handle) is None,
    {
    }

    /// A user edit of a field of this section, of the field's kind, that
    /// differs from the sprite's current value asks for exactly one command:
    /// it sets the property shown in the edited widget, of the node named by
    /// `handle`, to the reported value.
    pub proof fn lemma_one_command_per_edit(
        self,
        message: UiMessage,
        sprite: Sprite,
        handle: NodeHandle,
        b: FieldBinding,
        v: FieldValue,
    )
        requires
            message.direction is FromWidget,
            self.binding_at(message.destination) == Some(b),
            carried_value(message.data) == Some(v),
            fits(b.property, v),
            !v.same_value(property_value(sprite, b.property)),
        ensures
            self.routed(message, Node::Sprite(sprite), handle) matches Some(c) && c.property()
                == b.property && b.widget == message.destination && c.target() == handle
                && c.new_value() == v,
    {
        assert(b.widget == message.destination) by {
            self.lemma_binding_at_widget(message.destination);
        }
    }

    /// The field found at a widget is shown in that widget and is one of the
    /// section's fields.
    pub proof fn lemma_binding_at_widget(self, w: WidgetHandle)
        ensures
            self.binding_at(w) matches Some(b) ==> b.widget == w && self.bindings().contains(b),
    {
        reveal_with_fuel(first_binding, 4);
        let bs = self.bindings();
        assert(bs.drop_first() =~= seq![bs[1], bs[2]]);
        assert(bs.drop_first().drop_first() =~= seq![bs[2]]);
        assert(bs.drop_first().drop_first().drop_first() =~= Seq::<FieldBinding>::empty());
        if self.binding_at(w) is Some {
            let b = self.binding_at(w)->Some_0;
            if bs[0].widget == w {
                assert(bs[0] == b);
            } else if bs[1].widget == w {
                assert(bs[1] == b);
            } else {
                assert(bs[2] == b);
            }
        }
    }

    /// Where no routing applies, because the node is not a sprite, nothing is routed.
    pub proof fn lemma_inapplicable_routes_nothing(
        self,
        message: UiMessage,
        node: Node,
        handle: NodeHandle,
    )
        requires
            !Self::applies_to(node),
        ensures
            self.routed(message, node, handle) is None,
    {
    }
}

} // verus!
