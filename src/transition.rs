//! Planning the transition from one analysed track into the next: its style,
//! a compatibility score and a chain of effects.
use vstd::prelude::*;
use crate::camelot::{compatible, harmonically_compatible};

verus! {

#[derive(Clone, Copy, Debug, PartialEq, Eq, Structural)]
pub enum TransitionType {
    HarmonicMix,
    TempoChange,
    EnergyMix,
    BeatMatched,
    StandardCrossfade,
}

/// How the measured tempo, energy and bass balance of two tracks compare.
#[derive(Clone, Copy, Debug, PartialEq, Eq, Structural)]
pub struct MixMeasures {
    /// The tempos differ by more than 10 BPM.
    pub tempo_gap_wide: bool,
    /// The tempos differ by less than 5 BPM, or their difference modulo 2 is
    /// under 0.5.
    pub beat_compatible: bool,
    /// The energy match exceeds 0.7.
    pub energy_close: bool,
    /// The energy match exceeds 0.8.
    pub energy_very_close: bool,
    /// Either track's bass-to-mid ratio exceeds 1.5.
    pub bass_heavy: bool,
}

/// The style of a transition: the first rule that applies wins.
pub open spec fn transition_type_for(harmonic: bool, m: MixMeasures) -> TransitionType {
    if harmonic && m.energy_close {
        TransitionType::HarmonicMix
    } else if m.tempo_gap_wide {
        TransitionType::TempoChange
    } else if m.energy_very_close {
        TransitionType::EnergyMix
    } else if m.beat_compatible {
        TransitionType::BeatMatched
    } else {
        TransitionType::StandardCrossfade
    }
}

/// The compatibility score, in hundredths.
pub open spec fn compatibility_for(harmonic: bool, energy_close: bool) -> u32 {
    if harmonic {
        80
    } else if energy_close {
        60
    } else {
        40
    }
}

/// The effects recommended for a transition, in order.
pub open spec fn fx_list(t: TransitionType, harmonic: bool, bass_heavy: bool) -> Seq<Seq<char>> {
    let notch: Seq<Seq<char>> = if !harmonic && bass_heavy {
        seq!["Notch Filter 60Hz"@]
    } else {
        Seq::empty()
    };
    let chain: Seq<Seq<char>> = match t {
        TransitionType::HarmonicMix => seq!["Reverb - Hall"@, "Light Echo"@],
        TransitionType::EnergyMix => seq!["Reverb - Plate"@, "Filter Sweep"@],
        TransitionType::TempoChange => seq!["Short Reverb"@, "Transient Effect"@],
        _ => seq!["Light Reverb"@],
    };
    notch + chain
}

/// Names joined with ", " between them.
pub open spec fn join_names(parts: Seq<Seq<char>>) -> Seq<char>
    decreases parts.len(),
{
    if parts.len() == 0 {
        Seq::empty()
    } else if parts.len() == 1 {
        parts[0]
    } else {
        join_names(parts.drop_last()) + ", "@ + parts.last()
    }
}

pub open spec fn views(parts: Seq<&str>) -> Seq<Seq<char>> {
    parts.map_values(|p: &str| p@)
}

/// The name of a transition style.
pub open spec fn style_name(t: TransitionType) -> Seq<char> {
    match t {
        TransitionType::HarmonicMix => "Harmonic Mix"@,
        TransitionType::TempoChange => "Tempo Change"@,
        TransitionType::EnergyMix => "Energy Mix"@,
        TransitionType::BeatMatched => "Beat Matched"@,
        TransitionType::StandardCrossfade => "Standard Crossfade"@,
    }
}

impl TransitionType {
    /// The style's name, such as "Harmonic Mix".
    pub fn name(&self) -> (r: &'static str)
        ensures
            r@ == style_name(*self),
    {
        match self {
            TransitionType::HarmonicMix => "Harmonic Mix",
            TransitionType::TempoChange => "Tempo Change",
            TransitionType::EnergyMix => "Energy Mix",
            TransitionType::BeatMatched => "Beat Matched",
            TransitionType::StandardCrossfade => "Standard Crossfade",
        }
    }
}

/// Picks the style of a transition from whether it is harmonic and from how
/// the two tracks compare.
pub fn choose_transition_type(harmonic: bool, m: &MixMeasures) -> (r: TransitionType)
    ensures
        r == transition_type_for(harmonic, *m),
{
    if harmonic && m.energy_close {
        TransitionType::HarmonicMix
    } else if m.tempo_gap_wide {
        TransitionType::TempoChange
    } else if m.energy_very_close {
        TransitionType::EnergyMix
    } else if m.beat_compatible {
        TransitionType::BeatMatched
    } else {
        TransitionType::StandardCrossfade
    }
}

/// The compatibility score of a transition, in hundredths: 80 when harmonic,
/// else 60 when the energies are close, else 40.
pub fn compatibility_score(harmonic: bool, energy_close: bool) -> (r: u32)
    ensures
        r == compatibility_for(harmonic, energy_close),
{
    if harmonic {
        80
    } else if energy_close {
        60
    } else {
        40
    }
}

/// Joins names with ", " between them.
pub fn join_with_commas(parts: &Vec<&str>) -> (r: String)
    ensures
        r@ == join_names(views(parts@)),
{
    let mut out = String::new();
    let ghost all = views(parts@);
    let mut i: usize = 0;
    while i < parts.len()
        invariant
            i <= parts.len(),
            all == views(parts@),
            out@ == join_names(all.subrange(0, i as int)),
        decreases parts.len() - i,
    {
        let ghost before = all.subrange(0, i as int);
        let ghost after = all.subrange(0, i + 1);
        assert(after.drop_last() =~= before);
        assert(after.last() == parts@[i as int]@);
        if i > 0 {
            out.append(", ");
        } else {
            assert(out@ =~= Seq::<char>::empty());
        }
        out.append(parts[i]);
        i = i + 1;
    }
    assert(all.subrange(0, i as int) =~= all);
    out
}

/// The effects recommended for a transition, joined with ", ": a 60 Hz notch
/// first where the mix is not harmonic and either track is bass heavy, then
/// the effects of its style.
pub fn suggest_fx(transition_type: TransitionType, bass_heavy: bool, harmonic: bool) -> (r: String)
    ensures
        r@ == join_names(fx_list(transition_type, harmonic, bass_heavy)),
{
    let mut fx: Vec<&str> = Vec::new();
    if !harmonic && bass_heavy {
        fx.push("Notch Filter 60Hz");
    }
    match transition_type {
        TransitionType::HarmonicMix => {
            fx.push("Reverb - Hall");
            fx.push("Light Echo");
        },
        TransitionType::EnergyMix => {
            fx.push("Reverb - Plate");
            fx.push("Filter Sweep");
        },
        TransitionType::TempoChange => {
            fx.push("Short Reverb");
            fx.push("Transient Effect");
        },
        _ => {
            fx.push("Light Reverb");
        },
    }
    assert(views(fx@) =~= fx_list(transition_type, harmonic, bass_heavy));
    join_with_commas(&fx)
}

/// A planned transition between two tracks.
pub struct TransitionPlan {
    pub transition_type: TransitionType,
    pub harmonic: bool,
    /// In hundredths.
    pub compatibility_score: u32,
    pub fx_recommendation: String,
}

/// Plans the transition from the track whose Camelot code is
/// `current_camelot` into the one whose code is `next_camelot`.
pub fn plan_transition(current_camelot: &str, next_camelot: &str, m: &MixMeasures) -> (r:
    TransitionPlan)
    ensures
        r.harmonic == compatible(current_camelot@, next_camelot@),
        r.transition_type == transition_type_for(r.harmonic, *m),
        r.compatibility_score == compatibility_for(r.harmonic, m.energy_close),
        r.fx_recommendation@ == join_names(fx_list(r.transition_type, r.harmonic, m.bass_heavy)),
{
    let harmonic = harmonically_compatible(current_camelot, next_camelot);
    let transition_type = choose_transition_type(harmonic, m);
    let compatibility_score = compatibility_score(harmonic, m.energy_close);
    let fx_recommendation = suggest_fx(transition_type, m.bass_heavy, harmonic);
    TransitionPlan { transition_type, harmonic, compatibility_score, fx_recommendation }
}

} // verus!
