//! Track-analysis and transition rules for an Auto-DJ: musical keys and the
//! Camelot wheel, harmonic compatibility, genre scoring, transition planning
//! and the framing of analysis passes.
use vstd::prelude::*;

pub mod camelot;
pub mod framing;
pub mod genre;
pub mod key;
pub mod text;
pub mod transition;

verus! {

/// The library's name and version.
pub fn version() -> (r: String)
    ensures
        r@ == "jellyfin-audio-wasm v0.2.0 - TimeStretch with DJ transitions"@,
{
    String::from_str("jellyfin-audio-wasm v0.2.0 - TimeStretch with DJ transitions")
}

} // verus!
