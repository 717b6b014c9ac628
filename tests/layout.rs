use dioxus_gain::params::{audio_layout, gain_param_layout, AudioLayout};

#[test]
fn gain_parameter_declaration() {
    let p = gain_param_layout();
    assert_eq!(p.id, "gain");
    assert_eq!(p.name, "Gain");
    assert_eq!(p.unit, " dB");
    assert_eq!(p.min_db, -30);
    assert_eq!(p.max_db, 30);
    assert_eq!(p.default_db, 0);
    assert_eq!(p.smoothing_ms, 50);
    assert_eq!(p.display_digits, 2);
}

#[test]
fn stereo_layout_without_midi() {
    assert_eq!(
        audio_layout(),
        AudioLayout {
            main_input_channels: 2,
            main_output_channels: 2,
            aux_input_ports: 0,
            aux_output_ports: 0,
            midi_input: false,
            midi_output: false,
            sample_accurate_automation: true,
        }
    );
}
