use gpu_skinning::blend::{
    resolve, BlendFactor, BlendMode, BlendState, BlendStates, BlendValue, Equation, ReadBlendMode,
};

fn add(source: BlendFactor, destination: BlendFactor) -> BlendState {
    BlendState { equation: Equation::Add, source, destination }
}

const ONE: BlendFactor = BlendFactor::One;
const SOURCE_ALPHA: BlendFactor = BlendFactor::Value(BlendValue::SourceAlpha);
const LESS_SOURCE_ALPHA: BlendFactor = BlendFactor::OneMinusValue(BlendValue::SourceAlpha);
const LESS_SOURCE_COLOR: BlendFactor = BlendFactor::OneMinusValue(BlendValue::SourceColor);
const DESTINATION_COLOR: BlendFactor = BlendFactor::Value(BlendValue::DestinationColor);

#[test]
fn additive_with_straight_alpha() {
    let states = resolve(BlendMode::Additive, false);
    assert_eq!(
        states,
        BlendStates {
            alpha_blend: BlendState {
                equation: Equation::Add,
                source: BlendFactor::One,
                destination: BlendFactor::One,
            },
            color_blend: BlendState {
                equation: Equation::Add,
                source: BlendFactor::Value(BlendValue::SourceAlpha),
                destination: BlendFactor::One,
            },
        }
    );
}

#[test]
fn additive_with_premultiplied_alpha() {
    assert_eq!(
        resolve(BlendMode::Additive, true),
        BlendStates { alpha_blend: add(ONE, ONE), color_blend: add(ONE, ONE) }
    );
}

#[test]
fn multiply_with_either_alpha() {
    let expected = BlendStates {
        alpha_blend: add(LESS_SOURCE_ALPHA, LESS_SOURCE_ALPHA),
        color_blend: add(DESTINATION_COLOR, LESS_SOURCE_ALPHA),
    };
    assert_eq!(resolve(BlendMode::Multiply, false), expected);
    assert_eq!(resolve(BlendMode::Multiply, true), expected);
}

#[test]
fn normal_with_straight_alpha() {
    assert_eq!(
        resolve(BlendMode::Normal, false),
        BlendStates {
            alpha_blend: add(ONE, LESS_SOURCE_ALPHA),
            color_blend: add(SOURCE_ALPHA, LESS_SOURCE_ALPHA),
        }
    );
}

#[test]
fn normal_with_premultiplied_alpha() {
    assert_eq!(
        resolve(BlendMode::Normal, true),
        BlendStates {
            alpha_blend: add(ONE, LESS_SOURCE_ALPHA),
            color_blend: add(ONE, LESS_SOURCE_ALPHA),
        }
    );
}

#[test]
fn screen_with_either_alpha() {
    let expected = BlendStates {
        alpha_blend: add(LESS_SOURCE_COLOR, LESS_SOURCE_ALPHA),
        color_blend: add(ONE, LESS_SOURCE_ALPHA),
    };
    assert_eq!(resolve(BlendMode::Screen, false), expected);
    assert_eq!(resolve(BlendMode::Screen, true), expected);
}

#[test]
fn resolve_gives_the_same_states_every_time() {
    let modes = [BlendMode::Additive, BlendMode::Multiply, BlendMode::Normal, BlendMode::Screen];
    for mode in modes {
        for premultiplied_alpha in [false, true] {
            let first = resolve(mode, premultiplied_alpha);
            assert_eq!(first, resolve(mode, premultiplied_alpha));
            assert_eq!(first.alpha_blend.equation, Equation::Add);
            assert_eq!(first.color_blend.equation, Equation::Add);
            assert_eq!(first.alpha_blend, resolve(mode, !premultiplied_alpha).alpha_blend);
        }
    }
}

#[test]
fn blend_modes_are_read_from_their_numbers() {
    let read = |mode| ReadBlendMode { mode, unsupported: None };
    assert_eq!(BlendMode::from_raw(0), read(BlendMode::Normal));
    assert_eq!(BlendMode::from_raw(1), read(BlendMode::Additive));
    assert_eq!(BlendMode::from_raw(2), read(BlendMode::Multiply));
    assert_eq!(BlendMode::from_raw(3), read(BlendMode::Screen));
}

#[test]
fn an_unknown_blend_mode_falls_back_to_normal() {
    for raw in [4, 99, u32::MAX] {
        assert_eq!(
            BlendMode::from_raw(raw),
            ReadBlendMode { mode: BlendMode::Normal, unsupported: Some(raw) }
        );
    }
}
