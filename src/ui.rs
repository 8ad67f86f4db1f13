use vstd::prelude::*;
use crate::value::{Color, FieldValue, Scalar};

verus! {

/// A handle to a widget of the user interface.
#[derive(Clone, Copy, Debug, PartialEq, Eq, Structural)]
pub struct WidgetHandle {
    pub index: u32,
    pub generation: u32,
}

/// Whether a message is a programmatic write into a widget or a report of
/// a change that the user made in it.
#[derive(Clone, Copy, Debug, PartialEq, Eq, Structural)]
pub enum MessageDirection {
    ToWidget,
    FromWidget,
}

/// What a message carries.
#[derive(Clone, Copy, Debug, PartialEq, Eq, Structural)]
pub enum UiMessageData {
    Visibility(bool),
    NumericValue(Scalar),
    Color(Color),
    Other,
}

#[derive(Clone, Copy, Debug, PartialEq, Eq, Structural)]
pub struct UiMessage {
    pub destination: WidgetHandle,
    pub direction: MessageDirection,
    pub data: UiMessageData,
}

/// The field value that a message carries, if it carries one.
pub open spec fn carried_value(d: UiMessageData) -> Option<FieldValue> {
    match d {
        UiMessageData::NumericValue(x) => Some(FieldValue::Number(x)),
        UiMessageData::Color(c) => Some(FieldValue::Color(c)),
        _ => None,
    }
}

pub fn carried_value_of(d: &UiMessageData) -> (r: Option<FieldValue>)
    ensures
        r == carried_value(*d),
{
    match d {
        UiMessageData::NumericValue(x) => Some(FieldValue::Number(*x)),
        UiMessageData::Color(c) => Some(FieldValue::Color(*c)),
        _ => None,
    }
}

/// The programmatic message that shows `v` in widget `w`.
pub open spec fn value_write(w: WidgetHandle, v: FieldValue) -> UiMessage {
    UiMessage {
        destination: w,
        direction: MessageDirection::ToWidget,
        data: match v {
            FieldValue::Number(x) => UiMessageData::NumericValue(x),
            FieldValue::Color(c) => UiMessageData::Color(c),
        },
    }
}

pub fn value_write_of(w: WidgetHandle, v: FieldValue) -> (m: UiMessage)
    ensures
        m == value_write(w, v),
{
    UiMessage {
        destination: w,
        direction: MessageDirection::ToWidget,
        data: match v {
            FieldValue::Number(x) => UiMessageData::NumericValue(x),
            FieldValue::Color(c) => UiMessageData::Color(c),
        },
    }
}

/// The message is a programmatic write of a value into widget `w`.
pub open spec fn writes_value_to(m: UiMessage, w: WidgetHandle) -> bool {
    m.direction is ToWidget && m.destination == w && carried_value(m.data) is Some
}

/// The message is a programmatic write of visibility into widget `w`.
pub open spec fn writes_visibility_to(m: UiMessage, w: WidgetHandle) -> bool {
    m.direction is ToWidget && m.destination == w && m.data is Visibility
}

/// The last message of `msgs` that satisfies `p`.
pub open spec fn last_such(msgs: Seq<UiMessage>, p: spec_fn(UiMessage) -> bool) -> Option<
    UiMessage,
>
    decreases msgs.len(),
{
    if msgs.len() == 0 {
        None
    } else if p(msgs.last()) {
        Some(msgs.last())
    } else {
        last_such(msgs.drop_last(), p)
    }
}

/// Selects the programmatic writes of a value into widget `w`.
pub open spec fn value_target(w: WidgetHandle) -> spec_fn(UiMessage) -> bool {
    |m: UiMessage| writes_value_to(m, w)
}

/// Selects the programmatic writes of visibility into widget `w`.
pub open spec fn visibility_target(w: WidgetHandle) -> spec_fn(UiMessage) -> bool {
    |m: UiMessage| writes_visibility_to(m, w)
}

/// The value that widget `w` shows once the messages `msgs` have been
/// delivered in order: the last value written into it, if any.
pub open spec fn shown_value(msgs: Seq<UiMessage>, w: WidgetHandle) -> Option<FieldValue> {
    match last_such(msgs, value_target(w)) {
        Some(m) => carried_value(m.data),
        None => None,
    }
}

/// The visibility of widget `w` once the messages `msgs` have been
/// delivered in order: the last visibility written into it, if any.
pub open spec fn shown_visibility(msgs: Seq<UiMessage>, w: WidgetHandle) -> Option<bool> {
    match last_such(msgs, visibility_target(w)) {
        Some(m) => Some(m.data->Visibility_0),
        None => None,
    }
}

/// In a concatenation, the last match lies in the second part if it has
/// one, and otherwise in the first.
pub proof fn lemma_last_such_append(
    a: Seq<UiMessage>,
    b: Seq<UiMessage>,
    p: spec_fn(UiMessage) -> bool,
)
    ensures
        last_such(a + b, p) == (if last_such(b, p) is Some {
            last_such(b, p)
        } else {
            last_such(a, p)
        }),
    decreases b.len(),
{
    if b.len() == 0 {
        assert(a + b =~= a);
    } else {
        assert((a + b).last() == b.last());
        assert((a + b).drop_last() =~= a + b.drop_last());
        lemma_last_such_append(a, b.drop_last(), p);
    }
}

/// The outgoing queue of messages to the user interface.
pub struct Ui {
    messages: Vec<UiMessage>,
}

impl View for Ui {
    type V = Seq<UiMessage>;

    closed spec fn view(&self) -> Seq<UiMessage> {
        self.messages@
    }
}

impl Ui {
    pub fn new() -> (r: Ui)
        ensures
            r@ == Seq::<UiMessage>::empty(),
    {
        Ui { messages: Vec::new() }
    }

    pub fn send_message(&mut self, m: UiMessage)
        ensures
            final(self)@ == old(self)@.push(m),
    {
        self.messages.push(m);
    }

    /// Hands out the queued messages, oldest first, and empties the queue.
    pub fn take_messages(&mut self) -> (r: Vec<UiMessage>)
        ensures
            r@ == old(self)@,
            final(self)@ == Seq::<UiMessage>::empty(),
    {
        let mut out: Vec<UiMessage> = Vec::new();
        std::mem::swap(&mut out, &mut self.messages);
        out
    }
}

} // verus!
