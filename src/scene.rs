use vstd::prelude::*;
use crate::value::{Color, FieldValue, Scalar};

verus! {

/// A handle to a node of the scene graph: a slot index and the slot's generation.
#[derive(Clone, Copy, Debug, PartialEq, Eq, Structural)]
pub struct NodeHandle {
    pub index: u32,
    pub generation: u32,
}

/// The properties of a sprite that the panel edits.
#[derive(Clone, Copy, Debug, PartialEq, Eq, Structural)]
pub struct Sprite {
    pub size: Scalar,
    pub rotation: Scalar,
    pub color: Color,
}

impl Sprite {
    pub fn new(size: Scalar, rotation: Scalar, color: Color) -> (s: Sprite)
        ensures
            s == (Sprite { size, rotation, color }),
    {
        Sprite { size, rotation, color }
    }

    pub fn size(&self) -> (r: Scalar)
        ensures
            r == self.size,
    {
        self.size
    }

    pub fn rotation(&self) -> (r: Scalar)
        ensures
            r == self.rotation,
    {
        self.rotation
    }

    pub fn color(&self) -> (r: Color)
        ensures
            r == self.color,
    {
        self.color
    }
}

/// A node of the scene graph, by kind. Only sprites carry the edited properties.
#[derive(Clone, Copy, Debug, PartialEq, Eq, Structural)]
pub enum Node {
    Base,
    Light,
    Camera,
    Mesh,
    Sprite(Sprite),
    ParticleSystem,
    /// Any other kind: terrain, decal, physics bodies and the like.
    Other,
}

impl Node {
    pub fn is_sprite(&self) -> (r: bool)
        ensures
            r == (*self is Sprite),
    {
        match self {
            Node::Sprite(_) => true,
            _ => false,
        }
    }
}

/// One editable property of a sprite.
#[derive(Clone, Copy, Debug, PartialEq, Eq, Structural)]
pub enum SpriteProperty {
    Size,
    Rotation,
    Color,
}

/// The current value of a property of a sprite.
pub open spec fn property_value(s: Sprite, p: SpriteProperty) -> FieldValue {
    match p {
        SpriteProperty::Size => FieldValue::Number(s.size),
        SpriteProperty::Rotation => FieldValue::Number(s.rotation),
        SpriteProperty::Color => FieldValue::Color(s.color),
    }
}

/// The value is of the property's kind: a number for size and rotation,
/// a color for color.
pub open spec fn fits(p: SpriteProperty, v: FieldValue) -> bool {
    match p {
        SpriteProperty::Size | SpriteProperty::Rotation => v is Number,
        SpriteProperty::Color => v is Color,
    }
}

/// A reversible request to set one property of one sprite node.
#[derive(Clone, Copy, Debug, PartialEq, Eq, Structural)]
pub enum SceneCommand {
    SetSpriteSize { handle: NodeHandle, value: Scalar },
    SetSpriteRotation { handle: NodeHandle, value: Scalar },
    SetSpriteColor { handle: NodeHandle, color: Color },
}

impl SceneCommand {
    /// The node that the command changes.
    pub open spec fn target(self) -> NodeHandle {
        match self {
            SceneCommand::SetSpriteSize { handle, .. } => handle,
            SceneCommand::SetSpriteRotation { handle, .. } => handle,
            SceneCommand::SetSpriteColor { handle, .. } => handle,
        }
    }

    /// The property that the command sets.
    pub open spec fn property(self) -> SpriteProperty {
        match self {
            SceneCommand::SetSpriteSize { .. } => SpriteProperty::Size,
            SceneCommand::SetSpriteRotation { .. } => SpriteProperty::Rotation,
            SceneCommand::SetSpriteColor { .. } => SpriteProperty::Color,
        }
    }

    /// The value that the command sets the property to.
    pub open spec fn new_value(self) -> FieldValue {
        match self {
            SceneCommand::SetSpriteSize { value, .. } => FieldValue::Number(value),
            SceneCommand::SetSpriteRotation { value, .. } => FieldValue::Number(value),
            SceneCommand::SetSpriteColor { color, .. } => FieldValue::Color(color),
        }
    }
}

/// The command that sets property `p` of node `handle` to `v`, when `v` is
/// of the property's kind.
pub open spec fn command_for(handle: NodeHandle, p: SpriteProperty, v: FieldValue) -> Option<
    SceneCommand,
> {
    match (p, v) {
        (SpriteProperty::Size, FieldValue::Number(x)) => Some(
            SceneCommand::SetSpriteSize { handle, value: x },
        ),
        (SpriteProperty::Rotation, FieldValue::Number(x)) => Some(
            SceneCommand::SetSpriteRotation { handle, value: x },
        ),
        (SpriteProperty::Color, FieldValue::Color(c)) => Some(
            SceneCommand::SetSpriteColor { handle, color: c },
        ),
        _ => None,
    }
}

/// What the panel hands to the editor's command channel.
#[derive(Clone, Copy, Debug, PartialEq, Eq, Structural)]
pub enum Message {
    DoSceneCommand(SceneCommand),
}

} // verus!
