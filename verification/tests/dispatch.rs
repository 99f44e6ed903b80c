use light_inspector::command::{Command, Handle};
use light_inspector::dispatch::{
    dispatch, handle_base_light_property_changed, handle_csm_options_property_changed,
    handle_directional_light_property_changed, handle_point_light_property_changed,
    handle_spot_light_property_changed, match_split_item_change, SplitItemChange,
};
use light_inspector::event::{ChangeEvent, ChangeValue, CollectionChange};
use light_inspector::field::{
    BaseLightField, FrustumSplitField, LightField, PointLightField, SpotLightField, BASE,
    CSM_OPTIONS, SPLIT_OPTIONS,
};
use light_inspector::light::{
    BaseLight, CsmOptions, DirectionalLight, FrustumSplitOptions, Light, PointLight, SpotLight,
};
use light_inspector::value::{Color, FieldValue, Real, TextureId, Vector3};

const RED: Color = Color { r: 255, g: 0, b: 0, a: 255 };

fn number(x: f32) -> Real {
    Real { bits: x.to_bits() }
}

fn target() -> Handle {
    Handle { index: 7, generation: 3 }
}

fn base_light() -> BaseLight {
    BaseLight {
        color: Color { r: 255, g: 255, b: 255, a: 255 },
        cast_shadows: true,
        scatter: Vector3 { x: number(0.03), y: number(0.035), z: number(0.055) },
        scatter_enabled: true,
        intensity: number(1.0),
    }
}

fn spot_light() -> Light {
    Light::Spot(SpotLight {
        base_light: base_light(),
        hotspot_cone_angle: number(1.5),
        falloff_angle_delta: number(0.1),
        shadow_bias: number(0.00005),
        distance: number(10.0),
        cookie_texture: None,
    })
}

fn point_light() -> Light {
    Light::Point(PointLight {
        base_light: base_light(),
        shadow_bias: number(0.025),
        radius: number(10.0),
    })
}

fn directional_light() -> Light {
    Light::Directional(DirectionalLight {
        base_light: base_light(),
        csm_options: CsmOptions {
            split_options: FrustumSplitOptions::Absolute {
                far_planes: [number(5.0), number(25.0), number(64.0)],
            },
            shadow_bias: number(0.00025),
        },
    })
}

fn every_light() -> Vec<Light> {
    vec![point_light(), spot_light(), directional_light()]
}

fn assignment(field: LightField, value: FieldValue) -> Command {
    Command { target: target(), field, new_value: value, old_value: None }
}

/// One value of the declared type for each shared field.
fn shared_fields() -> Vec<(BaseLightField, FieldValue)> {
    vec![
        (BaseLightField::Color, FieldValue::Color(RED)),
        (BaseLightField::CastShadows, FieldValue::Bool(false)),
        (
            BaseLightField::Scatter,
            FieldValue::Vector3(Vector3 { x: number(0.5), y: number(0.25), z: number(0.125) }),
        ),
        (BaseLightField::ScatterEnabled, FieldValue::Bool(false)),
        (BaseLightField::Intensity, FieldValue::Number(number(2.5))),
    ]
}

fn spot_fields() -> Vec<(SpotLightField, FieldValue)> {
    vec![
        (SpotLightField::HotspotConeAngle, FieldValue::Number(number(0.7))),
        (SpotLightField::FalloffAngleDelta, FieldValue::Number(number(0.2))),
        (SpotLightField::ShadowBias, FieldValue::Number(number(0.001))),
        (SpotLightField::Distance, FieldValue::Number(number(42.0))),
        (SpotLightField::CookieTexture, FieldValue::Texture(Some(TextureId { id: 9 }))),
    ]
}

fn point_fields() -> Vec<(PointLightField, FieldValue)> {
    vec![
        (PointLightField::ShadowBias, FieldValue::Number(number(0.002))),
        (PointLightField::Radius, FieldValue::Number(number(3.0))),
    ]
}

fn item_changed(index: usize) -> CollectionChange {
    CollectionChange::ItemChanged {
        index,
        value: ChangeValue::Leaf(FieldValue::Number(number(12.0))),
    }
}

#[test]
fn spot_light_hotspot_leaf_gives_command() {
    let node = spot_light();
    let event = ChangeEvent::leaf("HotspotConeAngle", FieldValue::Number(number(0.7)));
    let expected = Command {
        target: target(),
        field: LightField::Spot(SpotLightField::HotspotConeAngle),
        new_value: FieldValue::Number(number(0.7)),
        old_value: None,
    };
    assert_eq!(handle_spot_light_property_changed(&event, target(), &node), Some(expected));
    assert_eq!(dispatch(&event, target(), &node), Some(expected));
}

#[test]
fn spot_light_hotspot_command_applies_and_reverses() {
    let mut node = spot_light();
    let event = ChangeEvent::leaf("HotspotConeAngle", FieldValue::Number(number(0.7)));
    let mut command = dispatch(&event, target(), &node).unwrap();

    command.apply(&mut node);
    match node {
        Light::Spot(light) => {
            assert_eq!(f32::from_bits(light.hotspot_cone_angle.bits), 0.7);
            assert_eq!(light.falloff_angle_delta, number(0.1));
            assert_eq!(light.base_light, base_light());
        }
        _ => panic!("the light changed its kind"),
    }
    assert_eq!(command.old_value, Some(FieldValue::Number(number(1.5))));
    assert_eq!(command.new_value, FieldValue::Number(number(0.7)));

    command.reverse(&mut node);
    assert_eq!(node, spot_light());
    assert_eq!(command.old_value, None);
}

#[test]
fn point_light_declines_spot_only_field() {
    let node = point_light();
    let event = ChangeEvent::leaf("HotspotConeAngle", FieldValue::Number(number(0.7)));
    assert_eq!(handle_point_light_property_changed(&event, target(), &node), None);
    assert_eq!(handle_spot_light_property_changed(&event, target(), &node), None);
    assert_eq!(dispatch(&event, target(), &node), None);
}

#[test]
fn nested_base_color_gives_color_command_for_every_kind() {
    let expected = assignment(LightField::Base(BaseLightField::Color), FieldValue::Color(RED));
    for node in every_light() {
        let event =
            ChangeEvent::nested("Base", ChangeEvent::leaf("Color", FieldValue::Color(RED)));
        assert_eq!(dispatch(&event, target(), &node), Some(expected));
    }
    let event = ChangeEvent::nested("Base", ChangeEvent::leaf("Color", FieldValue::Color(RED)));
    assert_eq!(
        handle_spot_light_property_changed(&event, target(), &spot_light()),
        Some(expected)
    );
    assert_eq!(
        handle_point_light_property_changed(&event, target(), &point_light()),
        Some(expected)
    );
    assert_eq!(
        handle_directional_light_property_changed(&event, target(), &directional_light()),
        Some(expected)
    );
}

#[test]
fn unknown_field_gives_nothing() {
    for value in [
        FieldValue::Number(number(1.0)),
        FieldValue::Bool(true),
        FieldValue::Color(RED),
        FieldValue::Foreign,
    ] {
        let event = ChangeEvent::leaf("Foo", value);
        for node in every_light() {
            assert_eq!(handle_base_light_property_changed(&event, target(), &node), None);
            assert_eq!(handle_spot_light_property_changed(&event, target(), &node), None);
            assert_eq!(handle_point_light_property_changed(&event, target(), &node), None);
            assert_eq!(handle_directional_light_property_changed(&event, target(), &node), None);
            assert_eq!(dispatch(&event, target(), &node), None);
        }
    }
}

#[test]
fn unknown_field_gives_nothing_at_any_depth() {
    let red = FieldValue::Color(RED);
    let events = vec![
        ChangeEvent::nested("Foo", ChangeEvent::leaf("Color", red)),
        ChangeEvent::nested("Base", ChangeEvent::leaf("Foo", red)),
        ChangeEvent::nested("Base", ChangeEvent::nested("Foo", ChangeEvent::leaf("Color", red))),
        ChangeEvent::nested(
            "Base",
            ChangeEvent::nested("Base", ChangeEvent::nested("Base", ChangeEvent::leaf("Foo", red))),
        ),
        ChangeEvent::nested("CsmOptions", ChangeEvent::leaf("Foo", red)),
        ChangeEvent::collection("Foo", item_changed(0)),
    ];
    for event in &events {
        for node in every_light() {
            assert_eq!(handle_base_light_property_changed(event, target(), &node), None);
            assert_eq!(dispatch(event, target(), &node), None);
        }
    }
}

#[test]
fn every_shared_field_gives_its_command_for_every_kind() {
    for (field, value) in shared_fields() {
        let expected = assignment(LightField::Base(field), value);
        for node in every_light() {
            let event = ChangeEvent::leaf(field.name(), value);
            assert_eq!(
                handle_base_light_property_changed(&event, target(), &node),
                Some(expected)
            );
            let wrapped = ChangeEvent::nested(BASE, ChangeEvent::leaf(field.name(), value));
            assert_eq!(dispatch(&wrapped, target(), &node), Some(expected));
        }
    }
}

#[test]
fn shared_field_is_not_a_field_of_the_kind_itself() {
    for (field, value) in shared_fields() {
        for node in every_light() {
            let event = ChangeEvent::leaf(field.name(), value);
            assert_eq!(dispatch(&event, target(), &node), None);
        }
    }
}

#[test]
fn every_spot_field_gives_its_command_for_a_spot_light_only() {
    for (field, value) in spot_fields() {
        let event = ChangeEvent::leaf(field.name(), value);
        let expected = assignment(LightField::Spot(field), value);
        assert_eq!(
            handle_spot_light_property_changed(&event, target(), &spot_light()),
            Some(expected)
        );
        assert_eq!(dispatch(&event, target(), &spot_light()), Some(expected));
        assert_eq!(handle_spot_light_property_changed(&event, target(), &point_light()), None);
        assert_eq!(
            handle_spot_light_property_changed(&event, target(), &directional_light()),
            None
        );
        assert_eq!(dispatch(&event, target(), &directional_light()), None);
    }
}

#[test]
fn every_point_field_gives_its_command_for_a_point_light_only() {
    for (field, value) in point_fields() {
        let event = ChangeEvent::leaf(field.name(), value);
        let expected = assignment(LightField::Point(field), value);
        assert_eq!(
            handle_point_light_property_changed(&event, target(), &point_light()),
            Some(expected)
        );
        assert_eq!(dispatch(&event, target(), &point_light()), Some(expected));
        assert_eq!(handle_point_light_property_changed(&event, target(), &spot_light()), None);
        assert_eq!(
            handle_point_light_property_changed(&event, target(), &directional_light()),
            None
        );
        assert_eq!(dispatch(&event, target(), &directional_light()), None);
    }
}

#[test]
fn field_of_the_same_name_goes_to_the_kind_of_the_light() {
    let value = FieldValue::Number(number(0.004));
    let event = ChangeEvent::leaf("ShadowBias", value);
    assert_eq!(
        dispatch(&event, target(), &spot_light()),
        Some(assignment(LightField::Spot(SpotLightField::ShadowBias), value))
    );
    assert_eq!(
        dispatch(&event, target(), &point_light()),
        Some(assignment(LightField::Point(PointLightField::ShadowBias), value))
    );
    assert_eq!(dispatch(&event, target(), &directional_light()), None);
    assert_eq!(handle_spot_light_property_changed(&event, target(), &point_light()), None);
    assert_eq!(handle_point_light_property_changed(&event, target(), &spot_light()), None);
}

#[test]
fn handler_of_another_kind_declines_the_base_slot_too() {
    let event = ChangeEvent::nested("Base", ChangeEvent::leaf("Color", FieldValue::Color(RED)));
    assert_eq!(handle_spot_light_property_changed(&event, target(), &point_light()), None);
    assert_eq!(handle_spot_light_property_changed(&event, target(), &directional_light()), None);
    assert_eq!(handle_point_light_property_changed(&event, target(), &spot_light()), None);
    assert_eq!(handle_point_light_property_changed(&event, target(), &directional_light()), None);
    assert_eq!(handle_directional_light_property_changed(&event, target(), &spot_light()), None);
    assert_eq!(handle_directional_light_property_changed(&event, target(), &point_light()), None);
}

#[test]
fn nested_base_is_answered_as_the_inner_event() {
    let inner_events = || {
        vec![
            ChangeEvent::leaf("Color", FieldValue::Color(RED)),
            ChangeEvent::leaf("Intensity", FieldValue::Number(number(4.0))),
            ChangeEvent::leaf("Intensity", FieldValue::Bool(true)),
            ChangeEvent::leaf("Radius", FieldValue::Number(number(4.0))),
            ChangeEvent::nested("Base", ChangeEvent::leaf("CastShadows", FieldValue::Bool(false))),
            ChangeEvent::collection("Scatter", CollectionChange::Add),
        ]
    };
    let direct: Vec<Option<Command>> = inner_events()
        .iter()
        .map(|inner| handle_base_light_property_changed(inner, target(), &spot_light()))
        .collect();
    assert!(direct[0].is_some());
    assert!(direct[1].is_some());
    assert!(direct[4].is_some());
    for (inner, expected) in inner_events().into_iter().zip(direct) {
        let outer = ChangeEvent::nested("Base", inner);
        for node in every_light() {
            assert_eq!(handle_base_light_property_changed(&outer, target(), &node), expected);
            assert_eq!(dispatch(&outer, target(), &node), expected);
        }
    }
}

#[test]
fn value_of_another_type_gives_nothing() {
    let node = spot_light();
    let cases = vec![
        ChangeEvent::leaf("Color", FieldValue::Bool(true)),
        ChangeEvent::leaf("Color", FieldValue::Foreign),
        ChangeEvent::leaf("CastShadows", FieldValue::Number(number(1.0))),
        ChangeEvent::leaf("Scatter", FieldValue::Color(RED)),
        ChangeEvent::leaf("ScatterEnabled", FieldValue::Texture(None)),
        ChangeEvent::leaf("Intensity", FieldValue::Vector3(Vector3 {
            x: number(1.0),
            y: number(1.0),
            z: number(1.0),
        })),
    ];
    for event in &cases {
        assert_eq!(handle_base_light_property_changed(event, target(), &node), None);
    }
    let event = ChangeEvent::leaf("HotspotConeAngle", FieldValue::Bool(true));
    assert_eq!(handle_spot_light_property_changed(&event, target(), &node), None);
    let event = ChangeEvent::leaf("CookieTexture", FieldValue::Number(number(1.0)));
    assert_eq!(handle_spot_light_property_changed(&event, target(), &node), None);
    let event = ChangeEvent::leaf("Radius", FieldValue::Foreign);
    assert_eq!(handle_point_light_property_changed(&event, target(), &point_light()), None);
}

#[test]
fn cookie_texture_can_be_cleared() {
    let event = ChangeEvent::leaf("CookieTexture", FieldValue::Texture(None));
    assert_eq!(
        dispatch(&event, target(), &spot_light()),
        Some(assignment(
            LightField::Spot(SpotLightField::CookieTexture),
            FieldValue::Texture(None)
        ))
    );
}

#[test]
fn names_are_matched_whole_and_in_their_case() {
    let red = FieldValue::Color(RED);
    for name in ["color", "COLOR", "Colo", "Colour", "Color ", " Color", "", "Colör"] {
        let event = ChangeEvent::leaf(name, red);
        assert_eq!(handle_base_light_property_changed(&event, target(), &spot_light()), None);
        let wrapped = ChangeEvent::nested("Base", ChangeEvent::leaf(name, red));
        assert_eq!(dispatch(&wrapped, target(), &spot_light()), None);
    }
    for slot in ["base", "BASE", "BaseLight", "Bas", ""] {
        let event = ChangeEvent::nested(slot, ChangeEvent::leaf("Color", red));
        assert_eq!(handle_base_light_property_changed(&event, target(), &spot_light()), None);
        assert_eq!(dispatch(&event, target(), &spot_light()), None);
    }
}

#[test]
fn leaf_named_like_a_slot_gives_nothing() {
    let event = ChangeEvent::leaf("Base", FieldValue::Color(RED));
    for node in every_light() {
        assert_eq!(handle_base_light_property_changed(&event, target(), &node), None);
        assert_eq!(dispatch(&event, target(), &node), None);
    }
}

#[test]
fn nested_event_named_like_a_field_gives_nothing() {
    let event = ChangeEvent::nested("Color", ChangeEvent::leaf("Color", FieldValue::Color(RED)));
    for node in every_light() {
        assert_eq!(handle_base_light_property_changed(&event, target(), &node), None);
        assert_eq!(dispatch(&event, target(), &node), None);
    }
}

#[test]
fn collection_edit_gives_nothing() {
    let changes = || vec![CollectionChange::Add, CollectionChange::Remove(1), item_changed(2)];
    for name in ["Color", "Base", "Scatter", "HotspotConeAngle", "Radius", "CsmOptions"] {
        for change in changes() {
            let event = ChangeEvent::collection(name, change);
            for node in every_light() {
                assert_eq!(handle_base_light_property_changed(&event, target(), &node), None);
                assert_eq!(dispatch(&event, target(), &node), None);
            }
        }
    }
}

#[test]
fn target_of_the_command_is_the_handle_given() {
    let event = ChangeEvent::leaf("Radius", FieldValue::Number(number(2.0)));
    for handle in [
        Handle { index: 0, generation: 0 },
        Handle { index: 1, generation: 0 },
        Handle { index: u32::MAX, generation: u32::MAX },
    ] {
        let command = dispatch(&event, handle, &point_light()).unwrap();
        assert_eq!(command.target, handle);
    }
}

#[test]
fn split_item_change_is_recognised() {
    let event = ChangeEvent::nested(
        SPLIT_OPTIONS,
        ChangeEvent::collection("AbsoluteFarPlanes", item_changed(2)),
    );
    assert_eq!(
        match_split_item_change(&event),
        Some(SplitItemChange { field: FrustumSplitField::AbsoluteFarPlanes, index: 2 })
    );
    let event = ChangeEvent::nested(
        "SplitOptions",
        ChangeEvent::collection("RelativeFractions", item_changed(0)),
    );
    assert_eq!(
        match_split_item_change(&event),
        Some(SplitItemChange { field: FrustumSplitField::RelativeFractions, index: 0 })
    );
}

#[test]
fn split_item_change_declines_everything_else() {
    let declined = vec![
        ChangeEvent::nested(
            "SplitOptions",
            ChangeEvent::collection("AbsoluteFarPlanes", CollectionChange::Add),
        ),
        ChangeEvent::nested(
            "SplitOptions",
            ChangeEvent::collection("RelativeFractions", CollectionChange::Remove(1)),
        ),
        ChangeEvent::nested("SplitOptions", ChangeEvent::collection("Foo", item_changed(1))),
        ChangeEvent::nested(
            "SplitOptions",
            ChangeEvent::collection("absolutefarplanes", item_changed(1)),
        ),
        ChangeEvent::nested("Foo", ChangeEvent::collection("AbsoluteFarPlanes", item_changed(1))),
        ChangeEvent::nested(
            "SplitOptions",
            ChangeEvent::leaf("AbsoluteFarPlanes", FieldValue::Number(number(1.0))),
        ),
        ChangeEvent::nested(
            "SplitOptions",
            ChangeEvent::nested(
                "AbsoluteFarPlanes",
                ChangeEvent::collection("AbsoluteFarPlanes", item_changed(1)),
            ),
        ),
        ChangeEvent::collection("SplitOptions", item_changed(1)),
        ChangeEvent::leaf("SplitOptions", FieldValue::Number(number(1.0))),
        ChangeEvent::leaf("ShadowBias", FieldValue::Number(number(1.0))),
    ];
    for event in &declined {
        assert_eq!(match_split_item_change(event), None);
    }
}

#[test]
fn cascade_options_give_no_command() {
    let inner_events = || {
        vec![
            ChangeEvent::nested(
                "SplitOptions",
                ChangeEvent::collection("AbsoluteFarPlanes", item_changed(1)),
            ),
            ChangeEvent::nested(
                "SplitOptions",
                ChangeEvent::collection("RelativeFractions", item_changed(1)),
            ),
            ChangeEvent::nested(
                "SplitOptions",
                ChangeEvent::collection("AbsoluteFarPlanes", CollectionChange::Add),
            ),
            ChangeEvent::leaf("ShadowBias", FieldValue::Number(number(0.5))),
            ChangeEvent::leaf("Color", FieldValue::Color(RED)),
        ]
    };
    for inner in inner_events() {
        assert_eq!(handle_csm_options_property_changed(&inner, target()), None);
        let event = ChangeEvent::nested(CSM_OPTIONS, inner);
        for node in every_light() {
            assert_eq!(handle_directional_light_property_changed(&event, target(), &node), None);
            assert_eq!(dispatch(&event, target(), &node), None);
        }
    }
}

#[test]
fn directional_light_has_no_leaf_field_of_its_own() {
    let node = directional_light();
    for name in ["ShadowBias", "Radius", "HotspotConeAngle", "CsmOptions", "Color"] {
        let event = ChangeEvent::leaf(name, FieldValue::Number(number(1.0)));
        assert_eq!(handle_directional_light_property_changed(&event, target(), &node), None);
    }
}

#[test]
fn commands_assign_fields_that_the_kind_of_the_light_has() {
    let names = [
        "Color", "CastShadows", "Scatter", "ScatterEnabled", "Intensity", "HotspotConeAngle",
        "FalloffAngleDelta", "ShadowBias", "Distance", "CookieTexture", "Radius",
    ];
    let values = [
        FieldValue::Bool(true),
        FieldValue::Number(number(1.0)),
        FieldValue::Color(RED),
        FieldValue::Vector3(Vector3 { x: number(1.0), y: number(2.0), z: number(3.0) }),
        FieldValue::Texture(None),
        FieldValue::Foreign,
    ];
    let mut commands = 0;
    for name in names {
        for value in values {
            for node in every_light() {
                let direct = ChangeEvent::leaf(name, value);
                let wrapped = ChangeEvent::nested("Base", ChangeEvent::leaf(name, value));
                for event in [direct, wrapped] {
                    if let Some(command) = dispatch(&event, target(), &node) {
                        commands += 1;
                        assert!(command.field.is_declared_by(node.kind()));
                        assert_eq!(command.new_value.value_type(), command.field.value_type());
                        assert_eq!(command.field.name(), name);
                        assert_eq!(command.new_value, value);
                        assert_eq!(command.old_value, None);
                        assert!(node.get(command.field).is_some());
                    }
                }
            }
        }
    }
    // Five shared fields for each of three kinds, five of the spot light and
    // two of the point light, each with the one type of value it takes.
    assert_eq!(commands, 5 * 3 + 5 + 2);
}
