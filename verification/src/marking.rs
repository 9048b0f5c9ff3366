//! Italian tempo markings for display beside the numeric tempo.

use vstd::prelude::*;

verus! {

/// The marking that belongs to a tempo, as a character sequence.
pub open spec fn spec_tempo_marking(bpm: u16) -> Seq<char> {
    if bpm <= 39 {
        "Grave"@
    } else if bpm <= 59 {
        "Largo"@
    } else if bpm <= 72 {
        "Adagio"@
    } else if bpm <= 107 {
        "Andante"@
    } else if bpm <= 119 {
        "Moderato"@
    } else if bpm <= 155 {
        "Allegro"@
    } else if bpm <= 175 {
        "Vivace"@
    } else if bpm <= 199 {
        "Presto"@
    } else {
        "Prestissimo"@
    }
}

/// The conventional Italian tempo marking for a beats-per-minute value.
pub fn tempo_marking(bpm: u16) -> (r: &'static str)
    ensures
        r@ == spec_tempo_marking(bpm),
{
    if bpm <= 39 {
        "Grave"
    } else if bpm <= 59 {
        "Largo"
    } else if bpm <= 72 {
        "Adagio"
    } else if bpm <= 107 {
        "Andante"
    } else if bpm <= 119 {
        "Moderato"
    } else if bpm <= 155 {
        "Allegro"
    } else if bpm <= 175 {
        "Vivace"
    } else if bpm <= 199 {
        "Presto"
    } else {
        "Prestissimo"
    }
}

} // verus!
