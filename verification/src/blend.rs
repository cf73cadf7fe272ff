//! Blend state lookup: one explicit pair of blend equations for every
//! combination of slot blend mode and alpha convention.

use vstd::prelude::*;

verus! {

/// How a slot's colour is combined with what is already in the framebuffer.
#[derive(Clone, Copy, Debug, PartialEq, Eq, Structural)]
pub enum BlendMode {
    Additive,
    Multiply,
    Normal,
    Screen,
}

/// A quantity that a blend factor can be taken from.
#[derive(Clone, Copy, Debug, PartialEq, Eq, Structural)]
pub enum BlendValue {
    SourceColor,
    SourceAlpha,
    DestinationColor,
    DestinationAlpha,
}

/// A multiplier applied to the source or destination term of a blend equation.
#[derive(Clone, Copy, Debug, PartialEq, Eq, Structural)]
pub enum BlendFactor {
    Zero,
    One,
    Value(BlendValue),
    OneMinusValue(BlendValue),
}

/// How the weighted source and destination terms are combined.
#[derive(Clone, Copy, Debug, PartialEq, Eq, Structural)]
pub enum Equation {
    Add,
    Subtract,
    ReverseSubtract,
}

/// One blend equation: `equation(source * src, destination * dst)`.
#[derive(Clone, Copy, Debug, PartialEq, Eq, Structural)]
pub struct BlendState {
    pub equation: Equation,
    pub source: BlendFactor,
    pub destination: BlendFactor,
}

/// The blend equations of one draw call: one for the colour channels and one
/// for the alpha channel.
#[derive(Clone, Copy, Debug, PartialEq, Eq, Structural)]
pub struct BlendStates {
    pub alpha_blend: BlendState,
    pub color_blend: BlendState,
}

/// A blend mode read from a number, with the number where it stood for no
/// blend mode and `Normal` was taken in its place.
#[derive(Clone, Copy, Debug, PartialEq, Eq, Structural)]
pub struct ReadBlendMode {
    pub mode: BlendMode,
    pub unsupported: Option<u32>,
}

impl BlendMode {
    /// The blend mode that a number stands for in skeleton files: 0 for
    /// normal, 1 for additive, 2 for multiply, 3 for screen.
    pub open spec fn of_raw(raw: u32) -> Option<BlendMode> {
        if raw == 0 {
            Some(BlendMode::Normal)
        } else if raw == 1 {
            Some(BlendMode::Additive)
        } else if raw == 2 {
            Some(BlendMode::Multiply)
        } else if raw == 3 {
            Some(BlendMode::Screen)
        } else {
            None
        }
    }

    /// Reads a blend mode from its number. A number that stands for no
    /// blend mode is not an error: the slot is drawn with normal blending,
    /// and the number is handed back so that the caller can log it.
    pub fn from_raw(raw: u32) -> (read: ReadBlendMode)
        ensures
            match BlendMode::of_raw(raw) {
                Some(mode) => read.mode == mode && read.unsupported is None,
                None => read.mode == BlendMode::Normal && read.unsupported == Some(raw),
            },
    {
        match raw {
            0 => ReadBlendMode { mode: BlendMode::Normal, unsupported: None },
            1 => ReadBlendMode { mode: BlendMode::Additive, unsupported: None },
            2 => ReadBlendMode { mode: BlendMode::Multiply, unsupported: None },
            3 => ReadBlendMode { mode: BlendMode::Screen, unsupported: None },
            _ => ReadBlendMode { mode: BlendMode::Normal, unsupported: Some(raw) },
        }
    }
}

/// The factor of the source colour. With straight alpha the colour still
/// has to be scaled by its alpha where the mode adds it to the image.
pub open spec fn color_source(mode: BlendMode, premultiplied_alpha: bool) -> BlendFactor {
    match mode {
        BlendMode::Multiply => BlendFactor::Value(BlendValue::DestinationColor),
        BlendMode::Screen => BlendFactor::One,
        _ => if premultiplied_alpha {
            BlendFactor::One
        } else {
            BlendFactor::Value(BlendValue::SourceAlpha)
        },
    }
}

/// The factor of the colour that is already there.
pub open spec fn color_destination(mode: BlendMode) -> BlendFactor {
    match mode {
        BlendMode::Additive => BlendFactor::One,
        _ => BlendFactor::OneMinusValue(BlendValue::SourceAlpha),
    }
}

/// The factor of the source alpha.
pub open spec fn alpha_source(mode: BlendMode) -> BlendFactor {
    match mode {
        BlendMode::Multiply => BlendFactor::OneMinusValue(BlendValue::SourceAlpha),
        BlendMode::Screen => BlendFactor::OneMinusValue(BlendValue::SourceColor),
        _ => BlendFactor::One,
    }
}

/// The factor of the alpha that is already there.
pub open spec fn alpha_destination(mode: BlendMode) -> BlendFactor {
    match mode {
        BlendMode::Additive => BlendFactor::One,
        _ => BlendFactor::OneMinusValue(BlendValue::SourceAlpha),
    }
}

/// The blend states of a mode under an alpha convention. Every state adds
/// its two terms.
pub open spec fn resolve_spec(mode: BlendMode, premultiplied_alpha: bool) -> BlendStates {
    BlendStates {
        alpha_blend: BlendState {
            equation: Equation::Add,
            source: alpha_source(mode),
            destination: alpha_destination(mode),
        },
        color_blend: BlendState {
            equation: Equation::Add,
            source: color_source(mode, premultiplied_alpha),
            destination: color_destination(mode),
        },
    }
}

/// The state that adds its two terms with the given factors.
fn state(source: BlendFactor, destination: BlendFactor) -> (s: BlendState)
    ensures
        s == (BlendState { equation: Equation::Add, source, destination }),
{
    BlendState { equation: Equation::Add, source, destination }
}

/// Looks up the blend states of a slot. Defined for each of the eight
/// combinations of mode and alpha convention, with no side effect.
#[verifier::when_used_as_spec(resolve_spec)]
pub fn resolve(mode: BlendMode, premultiplied_alpha: bool) -> (states: BlendStates)
    ensures
        states == resolve_spec(mode, premultiplied_alpha),
{
    let one = BlendFactor::One;
    let source_alpha = BlendFactor::Value(BlendValue::SourceAlpha);
    let less_source_alpha = BlendFactor::OneMinusValue(BlendValue::SourceAlpha);
    let less_source_color = BlendFactor::OneMinusValue(BlendValue::SourceColor);
    let destination_color = BlendFactor::Value(BlendValue::DestinationColor);
    match (mode, premultiplied_alpha) {
        (BlendMode::Additive, false) => BlendStates {
            alpha_blend: state(one, one),
            color_blend: state(source_alpha, one),
        },
        (BlendMode::Additive, true) => BlendStates {
            alpha_blend: state(one, one),
            color_blend: state(one, one),
        },
        (BlendMode::Multiply, _) => BlendStates {
            alpha_blend: state(less_source_alpha, less_source_alpha),
            color_blend: state(destination_color, less_source_alpha),
        },
        (BlendMode::Normal, false) => BlendStates {
            alpha_blend: state(one, less_source_alpha),
            color_blend: state(source_alpha, less_source_alpha),
        },
        (BlendMode::Normal, true) => BlendStates {
            alpha_blend: state(one, less_source_alpha),
            color_blend: state(one, less_source_alpha),
        },
        (BlendMode::Screen, _) => BlendStates {
            alpha_blend: state(less_source_color, less_source_alpha),
            color_blend: state(one, less_source_alpha),
        },
    }
}

/// Two lookups of the same mode under the same convention agree, and the
/// alpha convention matters only to the source colour of the additive and
/// the normal mode.
pub proof fn lemma_resolve_depends_on(mode: BlendMode, premultiplied_alpha: bool, other: bool)
    ensures
        resolve_spec(mode, premultiplied_alpha).alpha_blend == resolve_spec(mode, other).alpha_blend,
        resolve_spec(mode, premultiplied_alpha).color_blend.destination == resolve_spec(
            mode,
            other,
        ).color_blend.destination,
        mode == BlendMode::Multiply || mode == BlendMode::Screen || premultiplied_alpha == other
            <==> resolve_spec(mode, premultiplied_alpha) == resolve_spec(mode, other),
{
}

} // verus!
