//! The lights of a scene, as the inspector sees them.
//!
//! The kinds of light share the fields of [`BaseLight`]; each kind adds its
//! own. A field is read and assigned through [`LightField`], which a light
//! answers only if its kind declares that field.

use vstd::prelude::*;
use crate::field::{BaseLightField, LightField, PointLightField, SpotLightField};
use crate::value::{Color, FieldValue, Real, TextureId, Vector3};

verus! {

/// The kind of a light.
#[derive(Clone, Copy, Debug, PartialEq, Eq, Structural)]
pub enum LightKind {
    Point,
    Spot,
    Directional,
}

/// What all lights have in common.
#[derive(Clone, Copy, Debug, PartialEq, Eq)]
pub struct BaseLight {
    pub color: Color,
    pub cast_shadows: bool,
    pub scatter: Vector3,
    pub scatter_enabled: bool,
    pub intensity: Real,
}

/// A light that shines from one point in all directions.
#[derive(Clone, Copy, Debug, PartialEq, Eq)]
pub struct PointLight {
    pub base_light: BaseLight,
    pub shadow_bias: Real,
    pub radius: Real,
}

/// A light that shines from one point in a cone.
#[derive(Clone, Copy, Debug, PartialEq, Eq)]
pub struct SpotLight {
    pub base_light: BaseLight,
    pub hotspot_cone_angle: Real,
    pub falloff_angle_delta: Real,
    pub shadow_bias: Real,
    pub distance: Real,
    pub cookie_texture: Option<TextureId>,
}

/// How the view frustum is split into the cascades of a shadow map.
#[derive(Clone, Copy, Debug, PartialEq, Eq)]
pub enum FrustumSplitOptions {
    /// Each cascade ends at a fixed distance.
    Absolute { far_planes: [Real; 3] },
    /// Each cascade ends at a fraction of the camera's far plane.
    Relative { fractions: [Real; 3] },
}

/// The options of a directional light's cascaded shadow maps.
#[derive(Clone, Copy, Debug, PartialEq, Eq)]
pub struct CsmOptions {
    pub split_options: FrustumSplitOptions,
    pub shadow_bias: Real,
}

/// A light that shines in one direction from infinitely far away.
#[derive(Clone, Copy, Debug, PartialEq, Eq)]
pub struct DirectionalLight {
    pub base_light: BaseLight,
    pub csm_options: CsmOptions,
}

/// A light of any kind.
#[derive(Clone, Copy, Debug, PartialEq, Eq)]
pub enum Light {
    Point(PointLight),
    Spot(SpotLight),
    Directional(DirectionalLight),
}

impl BaseLight {
    /// The value that `field` holds.
    pub open spec fn field_value(self, field: BaseLightField) -> FieldValue {
        match field {
            BaseLightField::Color => FieldValue::Color(self.color),
            BaseLightField::CastShadows => FieldValue::Bool(self.cast_shadows),
            BaseLightField::Scatter => FieldValue::Vector3(self.scatter),
            BaseLightField::ScatterEnabled => FieldValue::Bool(self.scatter_enabled),
            BaseLightField::Intensity => FieldValue::Number(self.intensity),
        }
    }

    /// These fields with `value` in `field`; unchanged if `value` is not of
    /// the field's type.
    pub open spec fn with_field(self, field: BaseLightField, value: FieldValue) -> BaseLight {
        match (field, value) {
            (BaseLightField::Color, FieldValue::Color(color)) => BaseLight { color, ..self },
            (BaseLightField::CastShadows, FieldValue::Bool(cast_shadows)) => BaseLight {
                cast_shadows,
                ..self
            },
            (BaseLightField::Scatter, FieldValue::Vector3(scatter)) => BaseLight {
                scatter,
                ..self
            },
            (BaseLightField::ScatterEnabled, FieldValue::Bool(scatter_enabled)) => BaseLight {
                scatter_enabled,
                ..self
            },
            (BaseLightField::Intensity, FieldValue::Number(intensity)) => BaseLight {
                intensity,
                ..self
            },
            _ => self,
        }
    }

    /// Reads `field`.
    pub fn get(&self, field: BaseLightField) -> (value: FieldValue)
        ensures
            value == self.field_value(field),
    {
        match field {
            BaseLightField::Color => FieldValue::Color(self.color),
            BaseLightField::CastShadows => FieldValue::Bool(self.cast_shadows),
            BaseLightField::Scatter => FieldValue::Vector3(self.scatter),
            BaseLightField::ScatterEnabled => FieldValue::Bool(self.scatter_enabled),
            BaseLightField::Intensity => FieldValue::Number(self.intensity),
        }
    }

    /// Assigns `value` to `field` if it is of the field's type, and says
    /// whether it did.
    pub fn set(&mut self, field: BaseLightField, value: FieldValue) -> (assigned: bool)
        ensures
            assigned == (value.type_of() == field.declared_type()),
            *final(self) == old(self).with_field(field, value),
    {
        match (field, value) {
            (BaseLightField::Color, FieldValue::Color(color)) => {
                self.color = color;
                true
            },
            (BaseLightField::CastShadows, FieldValue::Bool(cast_shadows)) => {
                self.cast_shadows = cast_shadows;
                true
            },
            (BaseLightField::Scatter, FieldValue::Vector3(scatter)) => {
                self.scatter = scatter;
                true
            },
            (BaseLightField::ScatterEnabled, FieldValue::Bool(scatter_enabled)) => {
                self.scatter_enabled = scatter_enabled;
                true
            },
            (BaseLightField::Intensity, FieldValue::Number(intensity)) => {
                self.intensity = intensity;
                true
            },
            _ => false,
        }
    }
}

impl PointLight {
    /// The value that `field` holds.
    pub open spec fn field_value(self, field: PointLightField) -> FieldValue {
        match field {
            PointLightField::ShadowBias => FieldValue::Number(self.shadow_bias),
            PointLightField::Radius => FieldValue::Number(self.radius),
        }
    }

    /// This light with `value` in `field`; unchanged if `value` is not of the
    /// field's type.
    pub open spec fn with_field(self, field: PointLightField, value: FieldValue) -> PointLight {
        match (field, value) {
            (PointLightField::ShadowBias, FieldValue::Number(shadow_bias)) => PointLight {
                shadow_bias,
                ..self
            },
            (PointLightField::Radius, FieldValue::Number(radius)) => PointLight { radius, ..self },
            _ => self,
        }
    }

    /// Reads `field`.
    pub fn get(&self, field: PointLightField) -> (value: FieldValue)
        ensures
            value == self.field_value(field),
    {
        match field {
            PointLightField::ShadowBias => FieldValue::Number(self.shadow_bias),
            PointLightField::Radius => FieldValue::Number(self.radius),
        }
    }

    /// Assigns `value` to `field` if it is of the field's type, and says
    /// whether it did.
    pub fn set(&mut self, field: PointLightField, value: FieldValue) -> (assigned: bool)
        ensures
            assigned == (value.type_of() == field.declared_type()),
            *final(self) == old(self).with_field(field, value),
    {
        match (field, value) {
            (PointLightField::ShadowBias, FieldValue::Number(shadow_bias)) => {
                self.shadow_bias = shadow_bias;
                true
            },
            (PointLightField::Radius, FieldValue::Number(radius)) => {
                self.radius = radius;
                true
            },
            _ => false,
        }
    }
}

impl SpotLight {
    /// The value that `field` holds.
    pub open spec fn field_value(self, field: SpotLightField) -> FieldValue {
        match field {
            SpotLightField::HotspotConeAngle => FieldValue::Number(self.hotspot_cone_angle),
            SpotLightField::FalloffAngleDelta => FieldValue::Number(self.falloff_angle_delta),
            SpotLightField::ShadowBias => FieldValue::Number(self.shadow_bias),
            SpotLightField::Distance => FieldValue::Number(self.distance),
            SpotLightField::CookieTexture => FieldValue::Texture(self.cookie_texture),
        }
    }

    /// This light with `value` in `field`; unchanged if `value` is not of the
    /// field's type.
    pub open spec fn with_field(self, field: SpotLightField, value: FieldValue) -> SpotLight {
        match (field, value) {
            (SpotLightField::HotspotConeAngle, FieldValue::Number(hotspot_cone_angle)) => SpotLight {
                hotspot_cone_angle,
                ..self
            },
            (SpotLightField::FalloffAngleDelta, FieldValue::Number(falloff_angle_delta)) => SpotLight {
                falloff_angle_delta,
                ..self
            },
            (SpotLightField::ShadowBias, FieldValue::Number(shadow_bias)) => SpotLight {
                shadow_bias,
                ..self
            },
            (SpotLightField::Distance, FieldValue::Number(distance)) => SpotLight {
                distance,
                ..self
            },
            (SpotLightField::CookieTexture, FieldValue::Texture(cookie_texture)) => SpotLight {
                cookie_texture,
                ..self
            },
            _ => self,
        }
    }

    /// Reads `field`.
    pub fn get(&self, field: SpotLightField) -> (value: FieldValue)
        ensures
            value == self.field_value(field),
    {
        match field {
            SpotLightField::HotspotConeAngle => FieldValue::Number(self.hotspot_cone_angle),
            SpotLightField::FalloffAngleDelta => FieldValue::Number(self.falloff_angle_delta),
            SpotLightField::ShadowBias => FieldValue::Number(self.shadow_bias),
            SpotLightField::Distance => FieldValue::Number(self.distance),
            SpotLightField::CookieTexture => FieldValue::Texture(self.cookie_texture),
        }
    }

    /// Assigns `value` to `field` if it is of the field's type, and says
    /// whether it did.
    pub fn set(&mut self, field: SpotLightField, value: FieldValue) -> (assigned: bool)
        ensures
            assigned == (value.type_of() == field.declared_type()),
            *final(self) == old(self).with_field(field, value),
    {
        match (field, value) {
            (SpotLightField::HotspotConeAngle, FieldValue::Number(hotspot_cone_angle)) => {
                self.hotspot_cone_angle = hotspot_cone_angle;
                true
            },
            (SpotLightField::FalloffAngleDelta, FieldValue::Number(falloff_angle_delta)) => {
                self.falloff_angle_delta = falloff_angle_delta;
                true
            },
            (SpotLightField::ShadowBias, FieldValue::Number(shadow_bias)) => {
                self.shadow_bias = shadow_bias;
                true
            },
            (SpotLightField::Distance, FieldValue::Number(distance)) => {
                self.distance = distance;
                true
            },
            (SpotLightField::CookieTexture, FieldValue::Texture(cookie_texture)) => {
                self.cookie_texture = cookie_texture;
                true
            },
            _ => false,
        }
    }
}

impl LightField {
    /// Whether lights of `kind` have this field.
    pub open spec fn declared_by(self, kind: LightKind) -> bool {
        match self {
            LightField::Base(_) => true,
            LightField::Spot(_) => kind == LightKind::Spot,
            LightField::Point(_) => kind == LightKind::Point,
        }
    }

    /// The field that only lights of `kind` have and that goes by `name`, if
    /// there is one.
    pub open spec fn own_named(kind: LightKind, name: Seq<char>) -> Option<LightField> {
        match kind {
            LightKind::Point => match PointLightField::named(name) {
                Some(field) => Some(LightField::Point(field)),
                None => None,
            },
            LightKind::Spot => match SpotLightField::named(name) {
                Some(field) => Some(LightField::Spot(field)),
                None => None,
            },
            LightKind::Directional => None,
        }
    }

    /// Whether lights of `kind` have this field.
    pub fn is_declared_by(&self, kind: LightKind) -> (declared: bool)
        ensures
            declared == self.declared_by(kind),
    {
        match self {
            LightField::Base(_) => true,
            LightField::Spot(_) => kind == LightKind::Spot,
            LightField::Point(_) => kind == LightKind::Point,
        }
    }
}

impl Light {
    /// The kind of this light.
    pub open spec fn kind_of(self) -> LightKind {
        match self {
            Light::Point(_) => LightKind::Point,
            Light::Spot(_) => LightKind::Spot,
            Light::Directional(_) => LightKind::Directional,
        }
    }

    /// The fields that this light shares with all others.
    pub open spec fn base(self) -> BaseLight {
        match self {
            Light::Point(light) => light.base_light,
            Light::Spot(light) => light.base_light,
            Light::Directional(light) => light.base_light,
        }
    }

    /// The value that `field` holds, if this kind of light has the field.
    pub open spec fn field_value(self, field: LightField) -> Option<FieldValue> {
        match (self, field) {
            (_, LightField::Base(f)) => Some(self.base().field_value(f)),
            (Light::Spot(light), LightField::Spot(f)) => Some(light.field_value(f)),
            (Light::Point(light), LightField::Point(f)) => Some(light.field_value(f)),
            _ => None,
        }
    }

    /// Whether `value` can be assigned to `field` of this light: its kind has
    /// the field, and the value is of the field's type.
    pub open spec fn accepts(self, field: LightField, value: FieldValue) -> bool {
        field.declared_by(self.kind_of()) && value.type_of() == field.declared_type()
    }

    /// This light with `value` in `field`; unchanged unless it accepts that.
    pub open spec fn with_field(self, field: LightField, value: FieldValue) -> Light {
        match (self, field) {
            (Light::Point(light), LightField::Base(f)) => Light::Point(
                PointLight { base_light: light.base_light.with_field(f, value), ..light },
            ),
            (Light::Spot(light), LightField::Base(f)) => Light::Spot(
                SpotLight { base_light: light.base_light.with_field(f, value), ..light },
            ),
            (Light::Directional(light), LightField::Base(f)) => Light::Directional(
                DirectionalLight { base_light: light.base_light.with_field(f, value), ..light },
            ),
            (Light::Spot(light), LightField::Spot(f)) => Light::Spot(light.with_field(f, value)),
            (Light::Point(light), LightField::Point(f)) => Light::Point(light.with_field(f, value)),
            _ => self,
        }
    }

    /// A field holds values of its declared type.
    pub proof fn field_value_is_typed(self, field: LightField)
        ensures
            self.field_value(field) matches Some(value) ==> value.type_of()
                == field.declared_type(),
            self.field_value(field) is Some <==> field.declared_by(self.kind_of()),
    {
    }

    /// An accepted value is then the value that the field holds, and every
    /// other field holds what it held.
    pub proof fn with_field_assigns(self, field: LightField, value: FieldValue, other: LightField)
        requires
            self.accepts(field, value),
        ensures
            self.with_field(field, value).kind_of() == self.kind_of(),
            self.with_field(field, value).field_value(field) == Some(value),
            other != field ==> self.with_field(field, value).field_value(other)
                == self.field_value(other),
    {
    }

    /// Assigning a value and then the value that was there before gives the
    /// light as it was.
    pub proof fn with_field_undoes(self, field: LightField, value: FieldValue)
        requires
            self.field_value(field) is Some,
        ensures
            self.with_field(field, value).with_field(field, self.field_value(field).unwrap())
                == self,
    {
    }

    /// The kind of this light.
    pub fn kind(&self) -> (kind: LightKind)
        ensures
            kind == self.kind_of(),
    {
        match self {
            Light::Point(_) => LightKind::Point,
            Light::Spot(_) => LightKind::Spot,
            Light::Directional(_) => LightKind::Directional,
        }
    }

    /// Reads `field`, if this kind of light has it.
    pub fn get(&self, field: LightField) -> (value: Option<FieldValue>)
        ensures
            value == self.field_value(field),
    {
        match field {
            LightField::Base(f) => match self {
                Light::Point(light) => Some(light.base_light.get(f)),
                Light::Spot(light) => Some(light.base_light.get(f)),
                Light::Directional(light) => Some(light.base_light.get(f)),
            },
            LightField::Spot(f) => match self {
                Light::Spot(light) => Some(light.get(f)),
                _ => None,
            },
            LightField::Point(f) => match self {
                Light::Point(light) => Some(light.get(f)),
                _ => None,
            },
        }
    }

    /// Assigns `value` to `field` if this light accepts it, and says whether
    /// it did. A light that does not accept it stays as it is.
    pub fn set(&mut self, field: LightField, value: FieldValue) -> (assigned: bool)
        ensures
            assigned == old(self).accepts(field, value),
            *final(self) == old(self).with_field(field, value),
    {
        match field {
            LightField::Base(f) => match self {
                Light::Point(light) => light.base_light.set(f, value),
                Light::Spot(light) => light.base_light.set(f, value),
                Light::Directional(light) => light.base_light.set(f, value),
            },
            LightField::Spot(f) => match self {
                Light::Spot(light) => light.set(f, value),
                _ => false,
            },
            LightField::Point(f) => match self {
                Light::Point(light) => light.set(f, value),
                _ => false,
            },
        }
    }
}

} // verus!
