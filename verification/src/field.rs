//! The fields that an inspector can name, one closed set per declaring type.
//!
//! An inspector knows a field only by its name. Each set here gives the names
//! of one type's fields, finds the field that a name means, and says which
//! type of value the field takes.

use vstd::prelude::*;
use crate::text::same_text;
use crate::value::ValueType;

verus! {

/// The slot in which a light holds the fields that all lights share.
pub const BASE: &'static str = "Base";

/// The slot in which a directional light holds its cascaded shadow maps'
/// options.
pub const CSM_OPTIONS: &'static str = "CsmOptions";

/// The slot in which the cascade options hold the way the view frustum is
/// split.
pub const SPLIT_OPTIONS: &'static str = "SplitOptions";

/// The fields that every kind of light has.
#[derive(Clone, Copy, Debug, PartialEq, Eq, Structural)]
pub enum BaseLightField {
    Color,
    CastShadows,
    Scatter,
    ScatterEnabled,
    Intensity,
}

/// The fields that only a spot light has.
#[derive(Clone, Copy, Debug, PartialEq, Eq, Structural)]
pub enum SpotLightField {
    HotspotConeAngle,
    FalloffAngleDelta,
    ShadowBias,
    Distance,
    CookieTexture,
}

/// The fields that only a point light has.
#[derive(Clone, Copy, Debug, PartialEq, Eq, Structural)]
pub enum PointLightField {
    ShadowBias,
    Radius,
}

/// The collections of a frustum split, one per way of splitting.
#[derive(Clone, Copy, Debug, PartialEq, Eq, Structural)]
pub enum FrustumSplitField {
    AbsoluteFarPlanes,
    RelativeFractions,
}

/// A field of a light that a command can assign.
#[derive(Clone, Copy, Debug, PartialEq, Eq, Structural)]
pub enum LightField {
    Base(BaseLightField),
    Spot(SpotLightField),
    Point(PointLightField),
}

impl BaseLightField {
    /// The name under which an inspector reports this field.
    pub open spec fn identifier(self) -> Seq<char> {
        match self {
            BaseLightField::Color => "Color"@,
            BaseLightField::CastShadows => "CastShadows"@,
            BaseLightField::Scatter => "Scatter"@,
            BaseLightField::ScatterEnabled => "ScatterEnabled"@,
            BaseLightField::Intensity => "Intensity"@,
        }
    }

    /// The type of the values that this field takes.
    pub open spec fn declared_type(self) -> ValueType {
        match self {
            BaseLightField::Color => ValueType::Color,
            BaseLightField::CastShadows => ValueType::Bool,
            BaseLightField::Scatter => ValueType::Vector3,
            BaseLightField::ScatterEnabled => ValueType::Bool,
            BaseLightField::Intensity => ValueType::Number,
        }
    }

    /// The field of this set that goes by `name`, if there is one.
    pub open spec fn named(name: Seq<char>) -> Option<BaseLightField> {
        if exists|f: BaseLightField| f.identifier() == name {
            Some(choose|f: BaseLightField| f.identifier() == name)
        } else {
            None
        }
    }

    /// No two fields of this set share a name, so a name means at most one
    /// field.
    pub proof fn identifiers_differ(f: BaseLightField, g: BaseLightField)
        requires
            f.identifier() == g.identifier(),
        ensures
            f == g,
    {
        reveal_strlit("Color");
        reveal_strlit("CastShadows");
        reveal_strlit("Scatter");
        reveal_strlit("ScatterEnabled");
        reveal_strlit("Intensity");
        assert("Color"@.len() == 5);
        assert("CastShadows"@.len() == 11);
        assert("Scatter"@.len() == 7);
        assert("ScatterEnabled"@.len() == 14);
        assert("Intensity"@.len() == 9);
    }

    /// Looking a field up by its own name finds that field.
    pub proof fn named_finds(f: BaseLightField)
        ensures
            BaseLightField::named(f.identifier()) == Some(f),
    {
        let found = choose|g: BaseLightField| g.identifier() == f.identifier();
        BaseLightField::identifiers_differ(found, f);
    }

    /// The name under which an inspector reports this field.
    pub fn name(&self) -> (name: &'static str)
        ensures
            name@ == self.identifier(),
    {
        match self {
            BaseLightField::Color => "Color",
            BaseLightField::CastShadows => "CastShadows",
            BaseLightField::Scatter => "Scatter",
            BaseLightField::ScatterEnabled => "ScatterEnabled",
            BaseLightField::Intensity => "Intensity",
        }
    }

    /// The type of the values that this field takes.
    pub fn value_type(&self) -> (ty: ValueType)
        ensures
            ty == self.declared_type(),
    {
        match self {
            BaseLightField::Color => ValueType::Color,
            BaseLightField::CastShadows => ValueType::Bool,
            BaseLightField::Scatter => ValueType::Vector3,
            BaseLightField::ScatterEnabled => ValueType::Bool,
            BaseLightField::Intensity => ValueType::Number,
        }
    }

    /// Finds the field that goes by `name`: the whole name, in the same case.
    pub fn from_name(name: &str) -> (field: Option<BaseLightField>)
        ensures
            field == BaseLightField::named(name@),
    {
        let found = if same_text(name, "Color") {
            Some(BaseLightField::Color)
        } else if same_text(name, "CastShadows") {
            Some(BaseLightField::CastShadows)
        } else if same_text(name, "Scatter") {
            Some(BaseLightField::Scatter)
        } else if same_text(name, "ScatterEnabled") {
            Some(BaseLightField::ScatterEnabled)
        } else if same_text(name, "Intensity") {
            Some(BaseLightField::Intensity)
        } else {
            None
        };
        proof {
            match found {
                Some(f) => BaseLightField::named_finds(f),
                None => {
                    assert forall|f: BaseLightField| f.identifier() != name@ by {
                        match f {
                            BaseLightField::Color => {},
                            BaseLightField::CastShadows => {},
                            BaseLightField::Scatter => {},
                            BaseLightField::ScatterEnabled => {},
                            BaseLightField::Intensity => {},
                        }
                    }
                },
            }
        }
        found
    }
}

impl SpotLightField {
    /// The name under which an inspector reports this field.
    pub open spec fn identifier(self) -> Seq<char> {
        match self {
            SpotLightField::HotspotConeAngle => "HotspotConeAngle"@,
            SpotLightField::FalloffAngleDelta => "FalloffAngleDelta"@,
            SpotLightField::ShadowBias => "ShadowBias"@,
            SpotLightField::Distance => "Distance"@,
            SpotLightField::CookieTexture => "CookieTexture"@,
        }
    }

    /// The type of the values that this field takes.
    pub open spec fn declared_type(self) -> ValueType {
        match self {
            SpotLightField::CookieTexture => ValueType::Texture,
            _ => ValueType::Number,
        }
    }

    /// The field of this set that goes by `name`, if there is one.
    pub open spec fn named(name: Seq<char>) -> Option<SpotLightField> {
        if exists|f: SpotLightField| f.identifier() == name {
            Some(choose|f: SpotLightField| f.identifier() == name)
        } else {
            None
        }
    }

    /// No two fields of this set share a name, so a name means at most one
    /// field.
    pub proof fn identifiers_differ(f: SpotLightField, g: SpotLightField)
        requires
            f.identifier() == g.identifier(),
        ensures
            f == g,
    {
        reveal_strlit("HotspotConeAngle");
        reveal_strlit("FalloffAngleDelta");
        reveal_strlit("ShadowBias");
        reveal_strlit("Distance");
        reveal_strlit("CookieTexture");
        assert("HotspotConeAngle"@.len() == 16);
        assert("FalloffAngleDelta"@.len() == 17);
        assert("ShadowBias"@.len() == 10);
        assert("Distance"@.len() == 8);
        assert("CookieTexture"@.len() == 13);
    }

    /// Looking a field up by its own name finds that field.
    pub proof fn named_finds(f: SpotLightField)
        ensures
            SpotLightField::named(f.identifier()) == Some(f),
    {
        let found = choose|g: SpotLightField| g.identifier() == f.identifier();
        SpotLightField::identifiers_differ(found, f);
    }

    /// The name under which an inspector reports this field.
    pub fn name(&self) -> (name: &'static str)
        ensures
            name@ == self.identifier(),
    {
        match self {
            SpotLightField::HotspotConeAngle => "HotspotConeAngle",
            SpotLightField::FalloffAngleDelta => "FalloffAngleDelta",
            SpotLightField::ShadowBias => "ShadowBias",
            SpotLightField::Distance => "Distance",
            SpotLightField::CookieTexture => "CookieTexture",
        }
    }

    /// The type of the values that this field takes.
    pub fn value_type(&self) -> (ty: ValueType)
        ensures
            ty == self.declared_type(),
    {
        match self {
            SpotLightField::CookieTexture => ValueType::Texture,
            _ => ValueType::Number,
        }
    }

    /// Finds the field that goes by `name`: the whole name, in the same case.
    pub fn from_name(name: &str) -> (field: Option<SpotLightField>)
        ensures
            field == SpotLightField::named(name@),
    {
        let found = if same_text(name, "HotspotConeAngle") {
            Some(SpotLightField::HotspotConeAngle)
        } else if same_text(name, "FalloffAngleDelta") {
            Some(SpotLightField::FalloffAngleDelta)
        } else if same_text(name, "ShadowBias") {
            Some(SpotLightField::ShadowBias)
        } else if same_text(name, "Distance") {
            Some(SpotLightField::Distance)
        } else if same_text(name, "CookieTexture") {
            Some(SpotLightField::CookieTexture)
        } else {
            None
        };
        proof {
            match found {
                Some(f) => SpotLightField::named_finds(f),
                None => {
                    assert forall|f: SpotLightField| f.identifier() != name@ by {
                        match f {
                            SpotLightField::HotspotConeAngle => {},
                            SpotLightField::FalloffAngleDelta => {},
                            SpotLightField::ShadowBias => {},
                            SpotLightField::Distance => {},
                            SpotLightField::CookieTexture => {},
                        }
                    }
                },
            }
        }
        found
    }
}

impl PointLightField {
    /// The name under which an inspector reports this field.
    pub open spec fn identifier(self) -> Seq<char> {
        match self {
            PointLightField::ShadowBias => "ShadowBias"@,
            PointLightField::Radius => "Radius"@,
        }
    }

    /// The type of the values that this field takes.
    pub open spec fn declared_type(self) -> ValueType {
        ValueType::Number
    }

    /// The field of this set that goes by `name`, if there is one.
    pub open spec fn named(name: Seq<char>) -> Option<PointLightField> {
        if exists|f: PointLightField| f.identifier() == name {
            Some(choose|f: PointLightField| f.identifier() == name)
        } else {
            None
        }
    }

    /// No two fields of this set share a name, so a name means at most one
    /// field.
    pub proof fn identifiers_differ(f: PointLightField, g: PointLightField)
        requires
            f.identifier() == g.identifier(),
        ensures
            f == g,
    {
        reveal_strlit("ShadowBias");
        reveal_strlit("Radius");
        assert("ShadowBias"@.len() == 10);
        assert("Radius"@.len() == 6);
    }

    /// Looking a field up by its own name finds that field.
    pub proof fn named_finds(f: PointLightField)
        ensures
            PointLightField::named(f.identifier()) == Some(f),
    {
        let found = choose|g: PointLightField| g.identifier() == f.identifier();
        PointLightField::identifiers_differ(found, f);
    }

    /// The name under which an inspector reports this field.
    pub fn name(&self) -> (name: &'static str)
        ensures
            name@ == self.identifier(),
    {
        match self {
            PointLightField::ShadowBias => "ShadowBias",
            PointLightField::Radius => "Radius",
        }
    }

    /// The type of the values that this field takes.
    pub fn value_type(&self) -> (ty: ValueType)
        ensures
            ty == self.declared_type(),
    {
        ValueType::Number
    }

    /// Finds the field that goes by `name`: the whole name, in the same case.
    pub fn from_name(name: &str) -> (field: Option<PointLightField>)
        ensures
            field == PointLightField::named(name@),
    {
        let found = if same_text(name, "ShadowBias") {
            Some(PointLightField::ShadowBias)
        } else if same_text(name, "Radius") {
            Some(PointLightField::Radius)
        } else {
            None
        };
        proof {
            match found {
                Some(f) => PointLightField::named_finds(f),
                None => {
                    assert forall|f: PointLightField| f.identifier() != name@ by {
                        match f {
                            PointLightField::ShadowBias => {},
                            PointLightField::Radius => {},
                        }
                    }
                },
            }
        }
        found
    }
}

impl FrustumSplitField {
    /// The name under which an inspector reports this collection.
    pub open spec fn identifier(self) -> Seq<char> {
        match self {
            FrustumSplitField::AbsoluteFarPlanes => "AbsoluteFarPlanes"@,
            FrustumSplitField::RelativeFractions => "RelativeFractions"@,
        }
    }

    /// The collection of this set that goes by `name`, if there is one.
    pub open spec fn named(name: Seq<char>) -> Option<FrustumSplitField> {
        if exists|f: FrustumSplitField| f.identifier() == name {
            Some(choose|f: FrustumSplitField| f.identifier() == name)
        } else {
            None
        }
    }

    /// The two collections go by different names.
    pub proof fn identifiers_differ(f: FrustumSplitField, g: FrustumSplitField)
        requires
            f.identifier() == g.identifier(),
        ensures
            f == g,
    {
        reveal_strlit("AbsoluteFarPlanes");
        reveal_strlit("RelativeFractions");
        assert("AbsoluteFarPlanes"@[0] == 'A');
        assert("RelativeFractions"@[0] == 'R');
    }

    /// Looking a collection up by its own name finds that collection.
    pub proof fn named_finds(f: FrustumSplitField)
        ensures
            FrustumSplitField::named(f.identifier()) == Some(f),
    {
        let found = choose|g: FrustumSplitField| g.identifier() == f.identifier();
        FrustumSplitField::identifiers_differ(found, f);
    }

    /// The name under which an inspector reports this collection.
    pub fn name(&self) -> (name: &'static str)
        ensures
            name@ == self.identifier(),
    {
        match self {
            FrustumSplitField::AbsoluteFarPlanes => "AbsoluteFarPlanes",
            FrustumSplitField::RelativeFractions => "RelativeFractions",
        }
    }

    /// Finds the collection that goes by `name`: the whole name, in the same
    /// case.
    pub fn from_name(name: &str) -> (field: Option<FrustumSplitField>)
        ensures
            field == FrustumSplitField::named(name@),
    {
        let found = if same_text(name, "AbsoluteFarPlanes") {
            Some(FrustumSplitField::AbsoluteFarPlanes)
        } else if same_text(name, "RelativeFractions") {
            Some(FrustumSplitField::RelativeFractions)
        } else {
            None
        };
        proof {
            match found {
                Some(f) => FrustumSplitField::named_finds(f),
                None => {
                    assert forall|f: FrustumSplitField| f.identifier() != name@ by {
                        match f {
                            FrustumSplitField::AbsoluteFarPlanes => {},
                            FrustumSplitField::RelativeFractions => {},
                        }
                    }
                },
            }
        }
        found
    }
}

impl LightField {
    /// The name under which an inspector reports this field, within the type
    /// that declares it.
    pub open spec fn identifier(self) -> Seq<char> {
        match self {
            LightField::Base(f) => f.identifier(),
            LightField::Spot(f) => f.identifier(),
            LightField::Point(f) => f.identifier(),
        }
    }

    /// The type of the values that this field takes.
    pub open spec fn declared_type(self) -> ValueType {
        match self {
            LightField::Base(f) => f.declared_type(),
            LightField::Spot(f) => f.declared_type(),
            LightField::Point(f) => f.declared_type(),
        }
    }

    /// The name under which an inspector reports this field, within the type
    /// that declares it.
    pub fn name(&self) -> (name: &'static str)
        ensures
            name@ == self.identifier(),
    {
        match self {
            LightField::Base(f) => f.name(),
            LightField::Spot(f) => f.name(),
            LightField::Point(f) => f.name(),
        }
    }

    /// The type of the values that this field takes.
    pub fn value_type(&self) -> (ty: ValueType)
        ensures
            ty == self.declared_type(),
    {
        match self {
            LightField::Base(f) => f.value_type(),
            LightField::Spot(f) => f.value_type(),
            LightField::Point(f) => f.value_type(),
        }
    }
}

} // verus!
