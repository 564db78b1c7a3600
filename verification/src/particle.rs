use vstd::prelude::*;

verus! {

/// The sorts of decorative particles the host's effects layer can spawn.
#[derive(PartialEq, Eq, Structural, Debug, Copy, Clone)]
pub enum ParticleSort {
    /// A missile trail.
    Missile,
    /// Diagonal sparks.
    Diagonals,
    /// Red victory confetti.
    RedWin,
    /// Blue victory confetti.
    BlueWin,
    /// A shield shimmer.
    Shield,
    /// A beam flash.
    Beam,
}

} // verus!
