use vstd::prelude::*;

verus! {

/// Lower end of the gain range, in decibels.
pub const GAIN_MIN_DB: i32 = -30;

/// Upper end of the gain range, in decibels.
pub const GAIN_MAX_DB: i32 = 30;

/// Gain at load, in decibels.
pub const GAIN_DEFAULT_DB: i32 = 0;

/// Time constant of the logarithmic smoothing, in milliseconds.
pub const SMOOTHING_MS: u32 = 50;

/// Decimal places of the gain as it is displayed.
pub const DISPLAY_DIGITS: u32 = 2;

/// Channels of the main input and of the main output.
pub const MAIN_CHANNELS: u32 = 2;

/// How the one gain parameter is declared to the host.
pub struct GainParamLayout {
    pub id: &'static str,
    pub name: &'static str,
    pub unit: &'static str,
    pub min_db: i32,
    pub max_db: i32,
    pub default_db: i32,
    pub smoothing_ms: u32,
    pub display_digits: u32,
}

/// The audio ports and automation that the plugin declares to the host.
#[derive(Clone, Copy, Debug, PartialEq, Eq, Structural)]
pub struct AudioLayout {
    pub main_input_channels: u32,
    pub main_output_channels: u32,
    pub aux_input_ports: u32,
    pub aux_output_ports: u32,
    pub midi_input: bool,
    pub midi_output: bool,
    pub sample_accurate_automation: bool,
}

/// The gain parameter: id `gain`, shown as `Gain` in decibels, over
/// [-30 dB, +30 dB] with 0 dB at load, smoothed over 50 ms.
pub fn gain_param_layout() -> (r: GainParamLayout)
    ensures
        r.id@ == "gain"@,
        r.name@ == "Gain"@,
        r.unit@ == " dB"@,
        r.min_db == GAIN_MIN_DB,
        r.max_db == GAIN_MAX_DB,
        r.default_db == GAIN_DEFAULT_DB,
        r.min_db < r.default_db < r.max_db,
        r.smoothing_ms == SMOOTHING_MS,
        r.display_digits == DISPLAY_DIGITS,
{
    GainParamLayout {
        id: "gain",
        name: "Gain",
        unit: " dB",
        min_db: GAIN_MIN_DB,
        max_db: GAIN_MAX_DB,
        default_db: GAIN_DEFAULT_DB,
        smoothing_ms: SMOOTHING_MS,
        display_digits: DISPLAY_DIGITS,
    }
}

/// Stereo in, stereo out, no auxiliary ports, no MIDI, automation that is
/// accurate to the sample.
pub fn audio_layout() -> (r: AudioLayout)
    ensures
        r == (AudioLayout {
            main_input_channels: MAIN_CHANNELS,
            main_output_channels: MAIN_CHANNELS,
            aux_input_ports: 0,
            aux_output_ports: 0,
            midi_input: false,
            midi_output: false,
            sample_accurate_automation: true,
        }),
{
    AudioLayout {
        main_input_channels: MAIN_CHANNELS,
        main_output_channels: MAIN_CHANNELS,
        aux_input_ports: 0,
        aux_output_ports: 0,
        midi_input: false,
        midi_output: false,
        sample_accurate_automation: true,
    }
}

} // verus!
