//! The parameters of a flickering light, the light that carries them, and
//! the parameter sets of the lights of the scene.
//!
//! Quantities that vary continuously (intensities, colour parts, frequencies,
//! seeds, seconds) are held as integers in thousandths: `600` stands for 0.6.

use crate::random::random_range;
use vstd::prelude::*;

verus! {

/// The integer that stands for one: quantities are held in thousandths.
pub const ONE: i32 = 1000;

/// A colour by its red, green and blue parts, in thousandths.
#[derive(Clone, Copy, Debug, PartialEq, Eq, Structural)]
pub struct Color {
    pub red: i32,
    pub green: i32,
    pub blue: i32,
}

/// The parameters that drive the flicker of one light.
#[derive(Clone, Debug)]
pub struct FlickeringLight {
    /// Tells apart the lights that share the noise field.
    pub seed: i32,
    pub intensity_amplitude: i32,
    pub intensity_frequency: i32,
    pub intensity_min: i32,
    pub intensity_octaves: u32,
    pub color_frequency: i32,
    pub color_octaves: u32,
    /// Distance in the noise field between the colours of the palette.
    pub color_seed_offset: i32,
    /// Sharpness of the blend: the lower, the more one colour dominates.
    pub color_temperature: i32,
    /// The palette that is blended.
    pub colors: Vec<Color>,
    /// Shifts the phase of this light against the others.
    pub time_offset: i32,
}

/// The parameters as mathematical values.
pub struct FlickeringLightView {
    pub seed: int,
    pub intensity_amplitude: int,
    pub intensity_frequency: int,
    pub intensity_min: int,
    pub intensity_octaves: nat,
    pub color_frequency: int,
    pub color_octaves: nat,
    pub color_seed_offset: int,
    pub color_temperature: int,
    pub colors: Seq<Color>,
    pub time_offset: int,
}

impl View for FlickeringLight {
    type V = FlickeringLightView;

    open spec fn view(&self) -> FlickeringLightView {
        FlickeringLightView {
            seed: self.seed as int,
            intensity_amplitude: self.intensity_amplitude as int,
            intensity_frequency: self.intensity_frequency as int,
            intensity_min: self.intensity_min as int,
            intensity_octaves: self.intensity_octaves as nat,
            color_frequency: self.color_frequency as int,
            color_octaves: self.color_octaves as nat,
            color_seed_offset: self.color_seed_offset as int,
            color_temperature: self.color_temperature as int,
            colors: self.colors@,
            time_offset: self.time_offset as int,
        }
    }
}

/// Why a set of parameters cannot drive a light.
#[derive(Clone, Copy, Debug, PartialEq, Eq, Structural)]
pub enum FlickerError {
    /// The intensity noise has no octave to sum.
    ZeroIntensityOctaves,
    /// The colour noise has no octave to sum.
    ZeroColorOctaves,
    /// The temperature of the blend is zero or negative.
    NonPositiveTemperature,
    /// There is no colour to blend.
    EmptyPalette,
}

impl FlickeringLightView {
    /// The first fault of the parameters, if they have one.
    pub open spec fn fault(self) -> Option<FlickerError> {
        if self.intensity_octaves == 0 {
            Some(FlickerError::ZeroIntensityOctaves)
        } else if self.color_octaves == 0 {
            Some(FlickerError::ZeroColorOctaves)
        } else if self.color_temperature <= 0 {
            Some(FlickerError::NonPositiveTemperature)
        } else if self.colors.len() == 0 {
            Some(FlickerError::EmptyPalette)
        } else {
            None
        }
    }

    /// Parameters are valid when both noises sum at least one octave, the
    /// temperature is positive and the palette holds a colour.
    pub open spec fn is_valid(self) -> bool {
        &&& self.intensity_octaves >= 1
        &&& self.color_octaves >= 1
        &&& self.color_temperature > 0
        &&& self.colors.len() >= 1
    }
}

/// Parameters have no fault exactly when they are valid.
pub proof fn lemma_valid_iff_no_fault(parameters: FlickeringLightView)
    ensures
        parameters.is_valid() <==> parameters.fault().is_none(),
{
}

impl FlickeringLight {
    /// Accepts valid parameters and names the first fault of the others.
    pub fn validate(&self) -> (checked: Result<(), FlickerError>)
        ensures
            checked.is_ok() <==> self@.is_valid(),
            checked.is_err() ==> self@.fault() == Some(checked.unwrap_err()),
    {
        if self.intensity_octaves == 0 {
            Err(FlickerError::ZeroIntensityOctaves)
        } else if self.color_octaves == 0 {
            Err(FlickerError::ZeroColorOctaves)
        } else if self.color_temperature <= 0 {
            Err(FlickerError::NonPositiveTemperature)
        } else if self.colors.len() == 0 {
            Err(FlickerError::EmptyPalette)
        } else {
            Ok(())
        }
    }
}

/// The parameters attached to a light, if any, as mathematical values.
pub open spec fn attached(flicker: Option<FlickeringLight>) -> Option<FlickeringLightView> {
    match flicker {
        Some(parameters) => Some(parameters@),
        None => None,
    }
}

/// A point light: its live colour and intensity, and the flicker parameters
/// attached to it while its prop is active.
#[derive(Clone, Debug)]
pub struct Light {
    pub color: Color,
    pub intensity: i32,
    pub flicker: Option<FlickeringLight>,
}

impl Light {
    /// A dark light of the given colour that does not flicker.
    pub fn new(color: Color) -> (light: Light)
        ensures
            light.color == color,
            light.intensity == 0,
            light.flicker.is_none(),
    {
        Light { color, intensity: 0, flicker: None }
    }

    /// Attaches the parameters to the light, in place of those it may have.
    /// Parameters with a fault are refused and the light stays as it was.
    pub fn attach(&mut self, parameters: FlickeringLight) -> (attached: Result<(), FlickerError>)
        ensures
            attached.is_ok() <==> parameters@.is_valid(),
            attached.is_ok() ==> {
                &&& final(self).flicker == Some(parameters)
                &&& final(self).color == old(self).color
                &&& final(self).intensity == old(self).intensity
            },
            attached.is_err() ==> {
                &&& parameters@.fault() == Some(attached.unwrap_err())
                &&& *final(self) == *old(self)
            },
    {
        match parameters.validate() {
            Ok(()) => {
                self.flicker = Some(parameters);
                Ok(())
            },
            Err(fault) => Err(fault),
        }
    }

    /// Takes the parameters off the light and puts it out at once: its
    /// intensity is zero from this moment, with no fade.
    pub fn detach(&mut self)
        ensures
            final(self).flicker.is_none(),
            final(self).intensity == 0,
            final(self).color == old(self).color,
    {
        self.flicker = None;
        self.intensity = 0;
    }

    /// The light after a sample of the flicker has been written into it. A
    /// light without parameters takes no sample and stays as it is: once
    /// put out, it stays dark.
    pub open spec fn spec_sampled(self, intensity: i32, color: Color) -> Light {
        if self.flicker.is_some() {
            Light { intensity, color, ..self }
        } else {
            self
        }
    }

    /// Writes one sample of the flicker into the light.
    pub fn write_sample(&mut self, intensity: i32, color: Color)
        ensures
            *final(self) == old(self).spec_sampled(intensity, color),
    {
        if self.flicker.is_some() {
            self.intensity = intensity;
            self.color = color;
        }
    }
}

/// The lights of the scene, by the parameter set they flicker with.
#[derive(Clone, Copy, Debug, PartialEq, Eq, Structural)]
pub enum LightKind {
    Fireplace,
    Tree,
    /// The attic lamp on its own switch.
    AtticLamp,
    /// The attic lamp lit by the light switch of the house.
    HouseAttic,
    XmasRed,
    XmasYellow,
    XmasGreen,
}

/// Seeds are drawn below this bound.
pub const SEED_BOUND: usize = 1_000_000;

/// Time offsets are drawn below this bound.
pub const TIME_OFFSET_BOUND: usize = 100_000;

/// The palette of each kind of light.
pub open spec fn spec_palette(kind: LightKind) -> Seq<Color> {
    match kind {
        LightKind::Fireplace => seq![
            Color { red: 1000, green: 600, blue: 200 },
            Color { red: 1000, green: 620, blue: 180 },
            Color { red: 1000, green: 580, blue: 220 },
        ],
        LightKind::Tree => seq![
            Color { red: 200, green: 200, blue: 800 },
            Color { red: 200, green: 800, blue: 200 },
            Color { red: 800, green: 200, blue: 200 },
            Color { red: 800, green: 800, blue: 800 },
        ],
        LightKind::AtticLamp | LightKind::HouseAttic => seq![
            Color { red: 1000, green: 600, blue: 200 },
            Color { red: 1000, green: 700, blue: 100 },
            Color { red: 1000, green: 500, blue: 300 },
        ],
        LightKind::XmasRed => seq![
            Color { red: 1000, green: 100, blue: 100 },
            Color { red: 950, green: 50, blue: 50 },
            Color { red: 900, green: 0, blue: 0 },
        ],
        LightKind::XmasYellow => seq![
            Color { red: 1000, green: 950, blue: 200 },
            Color { red: 900, green: 900, blue: 150 },
            Color { red: 950, green: 850, blue: 100 },
        ],
        LightKind::XmasGreen => seq![
            Color { red: 100, green: 1000, blue: 100 },
            Color { red: 50, green: 950, blue: 50 },
            Color { red: 0, green: 900, blue: 0 },
        ],
    }
}

/// The parameter set of each kind of light, for a given seed and time
/// offset.
pub open spec fn spec_flicker_parameters(
    kind: LightKind,
    seed: i32,
    time_offset: i32,
) -> FlickeringLightView {
    let fixed = match kind {
        LightKind::Fireplace => (400int, 2000int, 600int, 4nat, 1000int, 2nat, 200int),
        LightKind::Tree => (200int, 1000int, 400int, 3nat, 500int, 3nat, 500int),
        LightKind::AtticLamp => (200int, 2000int, 400int, 4nat, 100_000int, 5nat, 500int),
        LightKind::HouseAttic => (200int, 2000int, 300int, 4nat, 100_000int, 5nat, 500int),
        LightKind::XmasRed => (100int, 2000int, 150int, 2nat, 10_000int, 4nat, 500int),
        LightKind::XmasYellow => (100int, 2000int, 150int, 2nat, 10_000int, 4nat, 500int),
        LightKind::XmasGreen => (100int, 2000int, 100int, 2nat, 10_000int, 4nat, 500int),
    };
    FlickeringLightView {
        seed: seed as int,
        intensity_amplitude: fixed.0,
        intensity_frequency: fixed.1,
        intensity_min: fixed.2,
        intensity_octaves: fixed.3,
        color_frequency: fixed.4,
        color_octaves: fixed.5,
        color_seed_offset: 100_000,
        color_temperature: fixed.6,
        colors: spec_palette(kind),
        time_offset: time_offset as int,
    }
}

/// Every parameter set of the scene is valid, whatever the seed and the time
/// offset.
pub proof fn lemma_scene_parameters_valid(kind: LightKind, seed: i32, time_offset: i32)
    ensures
        spec_flicker_parameters(kind, seed, time_offset).is_valid(),
{
}

/// The palette of a kind of light.
pub fn palette(kind: LightKind) -> (colors: Vec<Color>)
    ensures
        colors@ == spec_palette(kind),
{
    let colors = match kind {
        LightKind::Fireplace => vec![
            Color { red: 1000, green: 600, blue: 200 },
            Color { red: 1000, green: 620, blue: 180 },
            Color { red: 1000, green: 580, blue: 220 },
        ],
        LightKind::Tree => vec![
            Color { red: 200, green: 200, blue: 800 },
            Color { red: 200, green: 800, blue: 200 },
            Color { red: 800, green: 200, blue: 200 },
            Color { red: 800, green: 800, blue: 800 },
        ],
        LightKind::AtticLamp | LightKind::HouseAttic => vec![
            Color { red: 1000, green: 600, blue: 200 },
            Color { red: 1000, green: 700, blue: 100 },
            Color { red: 1000, green: 500, blue: 300 },
        ],
        LightKind::XmasRed => vec![
            Color { red: 1000, green: 100, blue: 100 },
            Color { red: 950, green: 50, blue: 50 },
            Color { red: 900, green: 0, blue: 0 },
        ],
        LightKind::XmasYellow => vec![
            Color { red: 1000, green: 950, blue: 200 },
            Color { red: 900, green: 900, blue: 150 },
            Color { red: 950, green: 850, blue: 100 },
        ],
        LightKind::XmasGreen => vec![
            Color { red: 100, green: 1000, blue: 100 },
            Color { red: 50, green: 950, blue: 50 },
            Color { red: 0, green: 900, blue: 0 },
        ],
    };
    assert(colors@ =~= spec_palette(kind));
    colors
}

/// The colour that a light of this kind has before it is first lit: the
/// first of its palette.
pub fn initial_color(kind: LightKind) -> (color: Color)
    ensures
        color == spec_palette(kind)[0],
{
    match kind {
        LightKind::Fireplace => Color { red: 1000, green: 600, blue: 200 },
        LightKind::Tree => Color { red: 200, green: 200, blue: 800 },
        LightKind::AtticLamp | LightKind::HouseAttic => Color { red: 1000, green: 600, blue: 200 },
        LightKind::XmasRed => Color { red: 1000, green: 100, blue: 100 },
        LightKind::XmasYellow => Color { red: 1000, green: 950, blue: 200 },
        LightKind::XmasGreen => Color { red: 100, green: 1000, blue: 100 },
    }
}

/// The parameter set of a kind of light, for a given seed and time offset.
pub fn flicker_parameters(kind: LightKind, seed: i32, time_offset: i32) -> (parameters:
    FlickeringLight)
    ensures
        parameters@ == spec_flicker_parameters(kind, seed, time_offset),
        parameters@.is_valid(),
{
    let colors = palette(kind);
    match kind {
        LightKind::Fireplace => FlickeringLight {
            seed,
            intensity_amplitude: 400,
            intensity_frequency: 2000,
            intensity_min: 600,
            intensity_octaves: 4,
            color_frequency: 1000,
            color_octaves: 2,
            color_seed_offset: 100_000,
            color_temperature: 200,
            colors,
            time_offset,
        },
        LightKind::Tree => FlickeringLight {
            seed,
            intensity_amplitude: 200,
            intensity_frequency: 1000,
            intensity_min: 400,
            intensity_octaves: 3,
            color_frequency: 500,
            color_octaves: 3,
            color_seed_offset: 100_000,
            color_temperature: 500,
            colors,
            time_offset,
        },
        LightKind::AtticLamp => FlickeringLight {
            seed,
            intensity_amplitude: 200,
            intensity_frequency: 2000,
            intensity_min: 400,
            intensity_octaves: 4,
            color_frequency: 100_000,
            color_octaves: 5,
            color_seed_offset: 100_000,
            color_temperature: 500,
            colors,
            time_offset,
        },
        LightKind::HouseAttic => FlickeringLight {
            seed,
            intensity_amplitude: 200,
            intensity_frequency: 2000,
            intensity_min: 300,
            intensity_octaves: 4,
            color_frequency: 100_000,
            color_octaves: 5,
            color_seed_offset: 100_000,
            color_temperature: 500,
            colors,
            time_offset,
        },
        LightKind::XmasRed | LightKind::XmasYellow => FlickeringLight {
            seed,
            intensity_amplitude: 100,
            intensity_frequency: 2000,
            intensity_min: 150,
            intensity_octaves: 2,
            color_frequency: 10_000,
            color_octaves: 4,
            color_seed_offset: 100_000,
            color_temperature: 500,
            colors,
            time_offset,
        },
        LightKind::XmasGreen => FlickeringLight {
            seed,
            intensity_amplitude: 100,
            intensity_frequency: 2000,
            intensity_min: 100,
            intensity_octaves: 2,
            color_frequency: 10_000,
            color_octaves: 4,
            color_seed_offset: 100_000,
            color_temperature: 500,
            colors,
            time_offset,
        },
    }
}

/// Whether the parameters are those of the given kind of light, with a seed
/// and a time offset below their bounds.
pub open spec fn is_drawn_for(parameters: FlickeringLightView, kind: LightKind) -> bool {
    exists|seed: i32, time_offset: i32|
        {
            &&& 0 <= seed < SEED_BOUND
            &&& 0 <= time_offset < TIME_OFFSET_BOUND
            &&& parameters == #[trigger] spec_flicker_parameters(kind, seed, time_offset)
        }
}

/// The parameter set of a kind of light with a seed and a time offset drawn
/// at random, so that lights lit at different moments do not flicker in
/// step.
pub fn random_flicker_parameters(kind: LightKind) -> (parameters: FlickeringLight)
    ensures
        is_drawn_for(parameters@, kind),
        parameters@.is_valid(),
{
    let seed = random_range(0, SEED_BOUND - 1) as i32;
    let time_offset = random_range(0, TIME_OFFSET_BOUND - 1) as i32;
    flicker_parameters(kind, seed, time_offset)
}

} // verus!
