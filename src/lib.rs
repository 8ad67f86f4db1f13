//! A property panel section for sprites, bridging an editable view and a scene.
//!
//! The section projects the selected node's sprite properties into widgets
//! (model to view, `SpriteSection::sync_to_model`) and turns genuine user
//! edits of those widgets into scene commands sent to the editor's command
//! channel (view to model, `SpriteSection::route` and
//! `SpriteSection::handle_message`). A programmatic write only echoes the
//! model's current value, so it never asks for a command.

mod panel;
mod scene;
mod section;
mod ui;
mod value;

pub use panel::{first_claim, on_notification, sync_all, sync_all_messages};
pub use scene::{
    command_for, fits, property_value, Message, Node, NodeHandle, SceneCommand, Sprite,
    SpriteProperty,
};
pub use section::{first_binding, sent_on, FieldBinding, SinkClosed, SpriteSection};
pub use ui::{
    carried_value, carried_value_of, last_such, lemma_last_such_append, shown_value,
    shown_visibility, value_target, value_write, value_write_of, visibility_target,
    writes_value_to, writes_visibility_to, MessageDirection, Ui, UiMessage, UiMessageData,
    WidgetHandle,
};
pub use value::{float_eq, is_nan_bits, is_zero_bits, Color, FieldValue, Scalar};
