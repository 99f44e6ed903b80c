//! From change events to commands.
//!
//! Each kind of light has a handler, and the fields that all lights share
//! have one more. A handler answers an event with the command that makes the
//! edit, or with nothing: the event names a field it does not know, brings a
//! value of another type than the field's, changes something that no command
//! can change, or the light is of another kind than the handler's. Nothing is
//! an answer like any other, not a failure.

use vstd::prelude::*;
use crate::command::{Command, Handle};
use crate::event::{ChangeEvent, ChangeValue, CollectionChange};
use crate::field::{
    BaseLightField, FrustumSplitField, LightField, PointLightField, SpotLightField, BASE,
    CSM_OPTIONS, SPLIT_OPTIONS,
};
use crate::light::{Light, LightKind};
use crate::text::same_text;
use crate::value::FieldValue;

verus! {

/// A change to one item of one of the collections of a frustum split.
#[derive(Clone, Copy, Debug, PartialEq, Eq, Structural)]
pub struct SplitItemChange {
    pub field: FrustumSplitField,
    pub index: usize,
}

/// The command for an event on the fields that all lights share.
///
/// A new value for one of these fields gives the command that assigns it. An
/// event inside the slot [`BASE`] is answered as that event itself is.
pub open spec fn base_light_command(args: ChangeEvent, handle: Handle) -> Option<Command>
    decreases args,
{
    match args.value {
        ChangeValue::Leaf(value) => match BaseLightField::named(args.name@) {
            Some(field) => Command::assigning(handle, LightField::Base(field), value),
            None => None,
        },
        ChangeValue::Nested(inner) => if args.name@ == BASE@ {
            base_light_command(*inner, handle)
        } else {
            None
        },
        ChangeValue::CollectionEdit(_) => None,
    }
}

/// The command for an event on a light of any kind.
///
/// A new value for a field that only lights of the kind of `node` have gives
/// the command that assigns it. An event inside the slot [`BASE`] is answered
/// as [`base_light_command`] answers that event. Nothing else gives a command:
/// not a field of the shared ones outside that slot, nor anything inside the
/// cascade options of a directional light.
pub open spec fn light_command(args: ChangeEvent, handle: Handle, node: Light) -> Option<Command> {
    match args.value {
        ChangeValue::Leaf(value) => match LightField::own_named(node.kind_of(), args.name@) {
            Some(field) => Command::assigning(handle, field, value),
            None => None,
        },
        ChangeValue::Nested(inner) => if args.name@ == BASE@ {
            base_light_command(*inner, handle)
        } else {
            None
        },
        ChangeValue::CollectionEdit(_) => None,
    }
}

/// The command with which the handler for lights of `kind` answers an event:
/// that of [`light_command`] if `node` is of that kind, and none if it is of
/// another.
pub open spec fn kind_command(
    kind: LightKind,
    args: ChangeEvent,
    handle: Handle,
    node: Light,
) -> Option<Command> {
    if node.kind_of() == kind {
        light_command(args, handle, node)
    } else {
        None
    }
}

/// The item change that an event on the cascade options means.
///
/// It is one only if the event is inside the slot [`SPLIT_OPTIONS`], names
/// one of the collections of the split, and changes an item of it. An item
/// added or removed is none, nor is a change to anything else.
pub open spec fn split_item_change(args: ChangeEvent) -> Option<SplitItemChange> {
    match args.value {
        ChangeValue::Nested(inner) if args.name@ == SPLIT_OPTIONS@ => match inner.value {
            ChangeValue::CollectionEdit(change) => match *change {
                CollectionChange::ItemChanged { index, .. } => match FrustumSplitField::named(
                    inner.name@,
                ) {
                    Some(field) => Some(SplitItemChange { field, index }),
                    None => None,
                },
                _ => None,
            },
            _ => None,
        },
        _ => None,
    }
}

/// Answers an event on the fields that all lights share. The kind of `node`
/// makes no difference.
pub fn handle_base_light_property_changed(
    args: &ChangeEvent,
    handle: Handle,
    node: &Light,
) -> (command: Option<Command>)
    ensures
        command == base_light_command(*args, handle),
        command matches Some(c) ==> c.well_formed() && c.field.declared_by(node.kind_of()),
    decreases *args,
{
    match &args.value {
        ChangeValue::Leaf(value) => match BaseLightField::from_name(args.name.as_str()) {
            Some(field) => Command::new(handle, LightField::Base(field), *value),
            None => None,
        },
        ChangeValue::Nested(inner) => {
            if same_text(args.name.as_str(), BASE) {
                handle_base_light_property_changed(inner, handle, node)
            } else {
                None
            }
        },
        ChangeValue::CollectionEdit(_) => None,
    }
}

/// Answers an event on a spot light. If `node` is of another kind, the answer
/// is nothing, whatever the event names.
pub fn handle_spot_light_property_changed(
    args: &ChangeEvent,
    handle: Handle,
    node: &Light,
) -> (command: Option<Command>)
    ensures
        command == kind_command(LightKind::Spot, *args, handle, *node),
        node.kind_of() != LightKind::Spot ==> command is None,
        command matches Some(c) ==> c.well_formed() && c.field.declared_by(node.kind_of()),
{
    if let Light::Spot(_) = node {
        match &args.value {
            ChangeValue::Leaf(value) => match SpotLightField::from_name(args.name.as_str()) {
                Some(field) => Command::new(handle, LightField::Spot(field), *value),
                None => None,
            },
            ChangeValue::Nested(inner) => {
                if same_text(args.name.as_str(), BASE) {
                    handle_base_light_property_changed(inner, handle, node)
                } else {
                    None
                }
            },
            ChangeValue::CollectionEdit(_) => None,
        }
    } else {
        None
    }
}

/// Answers an event on a point light. If `node` is of another kind, the
/// answer is nothing, whatever the event names.
pub fn handle_point_light_property_changed(
    args: &ChangeEvent,
    handle: Handle,
    node: &Light,
) -> (command: Option<Command>)
    ensures
        command == kind_command(LightKind::Point, *args, handle, *node),
        node.kind_of() != LightKind::Point ==> command is None,
        command matches Some(c) ==> c.well_formed() && c.field.declared_by(node.kind_of()),
{
    if let Light::Point(_) = node {
        match &args.value {
            ChangeValue::Leaf(value) => match PointLightField::from_name(args.name.as_str()) {
                Some(field) => Command::new(handle, LightField::Point(field), *value),
                None => None,
            },
            ChangeValue::Nested(inner) => {
                if same_text(args.name.as_str(), BASE) {
                    handle_base_light_property_changed(inner, handle, node)
                } else {
                    None
                }
            },
            ChangeValue::CollectionEdit(_) => None,
        }
    } else {
        None
    }
}

/// Tells which item of which collection of the frustum split an event on the
/// cascade options changes, if it changes one.
pub fn match_split_item_change(args: &ChangeEvent) -> (change: Option<SplitItemChange>)
    ensures
        change == split_item_change(*args),
{
    if !same_text(args.name.as_str(), SPLIT_OPTIONS) {
        return None;
    }
    match &args.value {
        ChangeValue::Nested(inner) => match &inner.value {
            ChangeValue::CollectionEdit(change) => match &**change {
                CollectionChange::ItemChanged { index, .. } => {
                    match FrustumSplitField::from_name(inner.name.as_str()) {
                        Some(field) => Some(SplitItemChange { field, index: *index }),
                        None => None,
                    }
                },
                _ => None,
            },
            _ => None,
        },
        _ => None,
    }
}

/// Answers an event on the cascade options of a directional light: always
/// with nothing. The far plane or the fraction of a single cascade is the
/// only edit that is recognised here, and there is no command that makes it.
pub fn handle_csm_options_property_changed(
    args: &ChangeEvent,
    _handle: Handle,
) -> (command: Option<Command>)
    ensures
        command is None,
{
    match match_split_item_change(args) {
        Some(change) => match change.field {
            FrustumSplitField::AbsoluteFarPlanes => None,
            FrustumSplitField::RelativeFractions => None,
        },
        None => None,
    }
}

/// Answers an event on a directional light. If `node` is of another kind, the
/// answer is nothing, whatever the event names.
pub fn handle_directional_light_property_changed(
    args: &ChangeEvent,
    handle: Handle,
    node: &Light,
) -> (command: Option<Command>)
    ensures
        command == kind_command(LightKind::Directional, *args, handle, *node),
        node.kind_of() != LightKind::Directional ==> command is None,
        command matches Some(c) ==> c.well_formed() && c.field.declared_by(node.kind_of()),
{
    if let Light::Directional(_) = node {
        match &args.value {
            ChangeValue::Nested(inner) => {
                if same_text(args.name.as_str(), BASE) {
                    handle_base_light_property_changed(inner, handle, node)
                } else if same_text(args.name.as_str(), CSM_OPTIONS) {
                    handle_csm_options_property_changed(inner, handle)
                } else {
                    None
                }
            },
            _ => None,
        }
    } else {
        None
    }
}

/// Answers an event on a light of any kind, through the handler for the kind
/// that `node` is of at this moment.
pub fn dispatch(args: &ChangeEvent, handle: Handle, node: &Light) -> (command: Option<Command>)
    ensures
        command == light_command(*args, handle, *node),
        command matches Some(c) ==> c.well_formed() && c.field.declared_by(node.kind_of()),
{
    match node.kind() {
        LightKind::Point => handle_point_light_property_changed(args, handle, node),
        LightKind::Spot => handle_spot_light_property_changed(args, handle, node),
        LightKind::Directional => handle_directional_light_property_changed(args, handle, node),
    }
}

/// Whether any field set of a light, or any of its slots, has this name.
pub open spec fn known_name(name: Seq<char>) -> bool {
    ||| name == BASE@
    ||| name == CSM_OPTIONS@
    ||| name == SPLIT_OPTIONS@
    ||| BaseLightField::named(name) is Some
    ||| SpotLightField::named(name) is Some
    ||| PointLightField::named(name) is Some
    ||| FrustumSplitField::named(name) is Some
}

/// Whether the event, or an event anywhere inside it, has a name that is not
/// known.
pub open spec fn has_unknown_name(args: ChangeEvent) -> bool
    decreases args,
{
    !known_name(args.name@) || has_unknown_name_inside(args.value)
}

/// Whether an event anywhere inside the change has a name that is not known.
pub open spec fn has_unknown_name_inside(value: ChangeValue) -> bool
    decreases value,
{
    match value {
        ChangeValue::Leaf(_) => false,
        ChangeValue::Nested(inner) => has_unknown_name(*inner),
        ChangeValue::CollectionEdit(change) => match *change {
            CollectionChange::ItemChanged { value, .. } => has_unknown_name_inside(value),
            _ => false,
        },
    }
}

/// A new value for a field that all lights share, of that field's type, gives
/// the command that assigns that value to that field, whatever the kind of
/// the light: from the handler of the shared fields directly, and inside the
/// slot of the shared fields from the handler of the light's kind.
pub proof fn shared_field_gives_command(
    args: ChangeEvent,
    handle: Handle,
    node: Light,
    field: BaseLightField,
    value: FieldValue,
)
    requires
        args.name@ == field.identifier(),
        args.value == ChangeValue::Leaf(value),
        value.type_of() == field.declared_type(),
    ensures
        base_light_command(args, handle) == Some(
            Command { target: handle, field: LightField::Base(field), new_value: value, old_value: None },
        ),
        forall|outer: ChangeEvent|
            outer.name@ == BASE@ && outer.value == ChangeValue::Nested(Box::new(args))
                ==> #[trigger] light_command(outer, handle, node) == base_light_command(
                args,
                handle,
            ),
{
    BaseLightField::named_finds(field);
}

/// A new value for a field of one kind of light gives the command that
/// assigns it if the light is of that kind, and the value of the field's
/// type.
pub proof fn own_field_gives_command(
    args: ChangeEvent,
    handle: Handle,
    node: Light,
    field: LightField,
    value: FieldValue,
)
    requires
        field !is Base,
        field.declared_by(node.kind_of()),
        args.name@ == field.identifier(),
        args.value == ChangeValue::Leaf(value),
        value.type_of() == field.declared_type(),
    ensures
        light_command(args, handle, node) == Some(
            Command { target: handle, field, new_value: value, old_value: None },
        ),
{
    match field {
        LightField::Base(_) => {},
        LightField::Spot(f) => SpotLightField::named_finds(f),
        LightField::Point(f) => PointLightField::named_finds(f),
    }
}

/// The handler of one kind answers a light of another kind with nothing, and
/// no command for a light assigns a field that lights of its kind do not
/// have: not even where that kind has a field of the same name.
pub proof fn other_kind_gives_nothing(
    kind: LightKind,
    args: ChangeEvent,
    handle: Handle,
    node: Light,
)
    ensures
        node.kind_of() != kind ==> kind_command(kind, args, handle, node) is None,
        kind_command(kind, args, handle, node) matches Some(command)
            ==> command.field.declared_by(node.kind_of()),
        light_command(args, handle, node) matches Some(command) ==> command.field.declared_by(
            node.kind_of(),
        ),
{
    commands_are_sound(args, handle);
}

/// Every command for an event on the shared fields assigns one of them, at
/// the given handle, a value of the field's type, and has not been applied.
pub proof fn commands_are_sound(args: ChangeEvent, handle: Handle)
    ensures
        base_light_command(args, handle) matches Some(command) ==> {
            &&& command.well_formed()
            &&& command.target == handle
            &&& command.field is Base
            &&& command.old_value is None
        },
    decreases args,
{
    match args.value {
        ChangeValue::Nested(inner) => commands_are_sound(*inner, handle),
        _ => {},
    }
}

/// An event inside the slot of the shared fields is answered as that event
/// itself is by the handler of the shared fields: by that handler, and by the
/// handler of every kind for a light of its kind.
pub proof fn base_slot_unwraps(outer: ChangeEvent, inner: ChangeEvent, handle: Handle, node: Light)
    requires
        outer.name@ == BASE@,
        outer.value == ChangeValue::Nested(Box::new(inner)),
    ensures
        base_light_command(outer, handle) == base_light_command(inner, handle),
        light_command(outer, handle, node) == base_light_command(inner, handle),
{
}

/// An event with a name that is not known, its own or that of an event
/// anywhere inside it, gives no command.
pub proof fn unknown_name_gives_nothing(args: ChangeEvent, handle: Handle, node: Light)
    requires
        has_unknown_name(args),
    ensures
        base_light_command(args, handle) is None,
        light_command(args, handle, node) is None,
        forall|kind: LightKind| #[trigger] kind_command(kind, args, handle, node) is None,
    decreases args,
{
    match args.value {
        ChangeValue::Nested(inner) => {
            if args.name@ == BASE@ {
                unknown_name_gives_nothing(*inner, handle, node);
            }
        },
        _ => {},
    }
}

} // verus!
