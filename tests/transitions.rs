use jellyfin_audio::transition::{
    choose_transition_type, compatibility_score, join_with_commas, plan_transition, suggest_fx,
    MixMeasures, TransitionType,
};

fn equal_energy(tempo_gap_wide: bool) -> MixMeasures {
    MixMeasures {
        tempo_gap_wide,
        beat_compatible: !tempo_gap_wide,
        energy_close: true,
        energy_very_close: true,
        bass_heavy: false,
    }
}

#[test]
fn harmonic_pair_with_equal_energy_is_a_harmonic_mix() {
    let plan = plan_transition("8B", "8B", &equal_energy(false));
    assert!(plan.harmonic);
    assert_eq!(plan.transition_type, TransitionType::HarmonicMix);
    assert_eq!(plan.transition_type.name(), "Harmonic Mix");
    assert_eq!(plan.compatibility_score, 80);
    assert!(plan.fx_recommendation.contains("Reverb - Hall"));
    assert_eq!(plan.fx_recommendation, "Reverb - Hall, Light Echo");
}

#[test]
fn harmonic_pair_with_wide_tempo_gap_stays_harmonic() {
    let plan = plan_transition("8B", "8B", &equal_energy(true));
    assert_eq!(plan.transition_type, TransitionType::HarmonicMix);
}

#[test]
fn wide_tempo_gap_without_harmony_is_a_tempo_change() {
    let plan = plan_transition("8B", "3A", &equal_energy(true));
    assert!(!plan.harmonic);
    assert_eq!(plan.transition_type, TransitionType::TempoChange);
    assert_eq!(plan.transition_type.name(), "Tempo Change");
    assert_eq!(plan.compatibility_score, 60);
    assert!(plan.fx_recommendation.contains("Short Reverb"));
    assert_eq!(plan.fx_recommendation, "Short Reverb, Transient Effect");
}

#[test]
fn style_rules_apply_in_order() {
    let m = MixMeasures {
        tempo_gap_wide: false,
        beat_compatible: true,
        energy_close: true,
        energy_very_close: true,
        bass_heavy: false,
    };
    assert_eq!(choose_transition_type(false, &m), TransitionType::EnergyMix);
    let m = MixMeasures { energy_very_close: false, ..m };
    assert_eq!(choose_transition_type(false, &m), TransitionType::BeatMatched);
    let m = MixMeasures { beat_compatible: false, ..m };
    assert_eq!(choose_transition_type(false, &m), TransitionType::StandardCrossfade);
    let m = MixMeasures { energy_close: false, ..m };
    assert_eq!(choose_transition_type(true, &m), TransitionType::StandardCrossfade);
}

#[test]
fn compatibility_scores() {
    assert_eq!(compatibility_score(true, false), 80);
    assert_eq!(compatibility_score(false, true), 60);
    assert_eq!(compatibility_score(false, false), 40);
}

#[test]
fn notch_filter_only_without_harmony() {
    assert_eq!(
        suggest_fx(TransitionType::StandardCrossfade, true, false),
        "Notch Filter 60Hz, Light Reverb"
    );
    assert_eq!(suggest_fx(TransitionType::StandardCrossfade, true, true), "Light Reverb");
    assert_eq!(
        suggest_fx(TransitionType::EnergyMix, true, false),
        "Notch Filter 60Hz, Reverb - Plate, Filter Sweep"
    );
    assert_eq!(suggest_fx(TransitionType::BeatMatched, false, false), "Light Reverb");
}

#[test]
fn joining_names() {
    assert_eq!(join_with_commas(&vec![]), "");
    assert_eq!(join_with_commas(&vec!["a"]), "a");
    assert_eq!(join_with_commas(&vec!["a", "b c", "d"]), "a, b c, d");
}
