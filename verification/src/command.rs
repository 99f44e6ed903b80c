//! Reversible commands.
//!
//! A command assigns one value to one field of one light. Applied, it keeps
//! the value that the field held, so that reversing it puts that value back.
//! The caller applies and reverses a command in turn, starting with apply.

use vstd::prelude::*;
use crate::field::LightField;
use crate::light::Light;
use crate::value::FieldValue;

verus! {

/// A stable reference to an object of the scene. While the object lives, no
/// other object goes by the same handle.
#[derive(Clone, Copy, Debug, PartialEq, Eq, Structural)]
pub struct Handle {
    pub index: u32,
    pub generation: u32,
}

/// The assignment of `new_value` to `field` of the light at `target`.
#[derive(Clone, Copy, Debug, PartialEq, Eq)]
pub struct Command {
    pub target: Handle,
    pub field: LightField,
    pub new_value: FieldValue,
    /// What the field held when the command was last applied; none before the
    /// first apply and after a reverse.
    pub old_value: Option<FieldValue>,
}

impl Command {
    /// Whether the values of this command are of its field's type.
    pub open spec fn well_formed(self) -> bool {
        &&& self.new_value.type_of() == self.field.declared_type()
        &&& self.old_value matches Some(earlier) ==> earlier.type_of() == self.field.declared_type()
    }

    /// The command that assigns `value` to `field`, not yet applied, if
    /// `value` is of the field's type.
    pub open spec fn assigning(
        target: Handle,
        field: LightField,
        value: FieldValue,
    ) -> Option<Command> {
        if value.type_of() == field.declared_type() {
            Some(Command { target, field, new_value: value, old_value: None })
        } else {
            None
        }
    }

    /// This command and `light` after the command was applied to the light.
    /// A light of a kind without the field stays as it is, and so does the
    /// command.
    pub open spec fn applied(self, light: Light) -> (Command, Light) {
        if light.accepts(self.field, self.new_value) {
            (
                Command { old_value: light.field_value(self.field), ..self },
                light.with_field(self.field, self.new_value),
            )
        } else {
            (self, light)
        }
    }

    /// This command and `light` after the command was reversed on the light.
    /// A command that keeps no earlier value changes nothing.
    pub open spec fn reversed(self, light: Light) -> (Command, Light) {
        match self.old_value {
            Some(earlier) if light.accepts(self.field, earlier) => (
                Command { old_value: None, ..self },
                light.with_field(self.field, earlier),
            ),
            _ => (self, light),
        }
    }

    /// Makes the command that assigns `value` to `field` of the light at
    /// `target`. There is none if `value` is not of the field's type.
    pub fn new(target: Handle, field: LightField, value: FieldValue) -> (command: Option<Command>)
        ensures
            command == Command::assigning(target, field, value),
            command matches Some(c) ==> c.well_formed(),
    {
        if value.value_type() == field.value_type() {
            Some(Command { target, field, new_value: value, old_value: None })
        } else {
            None
        }
    }

    /// Assigns the new value to the field of `light`, and keeps what the field
    /// held.
    pub fn apply(&mut self, light: &mut Light)
        ensures
            (*final(self), *final(light)) == old(self).applied(*old(light)),
            old(self).well_formed() ==> final(self).well_formed(),
    {
        if self.new_value.value_type() == self.field.value_type() {
            match light.get(self.field) {
                Some(earlier) => {
                    light.set(self.field, self.new_value);
                    self.old_value = Some(earlier);
                },
                None => {},
            }
        }
    }

    /// Puts back what the field of `light` held before the command was
    /// applied.
    pub fn reverse(&mut self, light: &mut Light)
        ensures
            (*final(self), *final(light)) == old(self).reversed(*old(light)),
            old(self).well_formed() ==> final(self).well_formed(),
    {
        match self.old_value {
            Some(earlier) => {
                if light.set(self.field, earlier) {
                    self.old_value = None;
                }
            },
            None => {},
        }
    }

    /// Applying a command to a light that accepts it leaves the new value in
    /// the field, the earlier value in the command, and every other field as
    /// it was.
    pub proof fn apply_assigns(self, light: Light, other: LightField)
        requires
            light.accepts(self.field, self.new_value),
        ensures
            self.applied(light).1.field_value(self.field) == Some(self.new_value),
            self.applied(light).0.old_value == light.field_value(self.field),
            self.applied(light).1.kind_of() == light.kind_of(),
            other != self.field ==> self.applied(light).1.field_value(other) == light.field_value(
                other,
            ),
    {
        light.with_field_assigns(self.field, self.new_value, other);
    }

    /// Applying a command and then reversing it leaves the light as it was
    /// before, whatever its kind. A command that had not been applied before
    /// is then as it was, too.
    pub proof fn apply_then_reverse_restores(self, light: Light)
        requires
            self.well_formed(),
        ensures
            ({
                let (applied, changed) = self.applied(light);
                let (reversed, restored) = applied.reversed(changed);
                &&& restored == light
                &&& self.old_value is None ==> reversed == self
            }),
    {
        light.field_value_is_typed(self.field);
        if light.accepts(self.field, self.new_value) {
            light.with_field_assigns(self.field, self.new_value, self.field);
            light.with_field_undoes(self.field, self.new_value);
        }
    }

    /// Reversing a command that was applied, and applying it again, gives the
    /// light and the command as they were after the first apply.
    pub proof fn reverse_then_apply_repeats(self, light: Light)
        requires
            self.well_formed(),
            light.accepts(self.field, self.new_value),
        ensures
            ({
                let (applied, changed) = self.applied(light);
                let (reversed, restored) = applied.reversed(changed);
                reversed.applied(restored) == (applied, changed)
            }),
    {
        self.apply_then_reverse_restores(light);
    }
}

} // verus!
