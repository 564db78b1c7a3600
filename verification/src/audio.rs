use vstd::prelude::*;

verus! {

/// Names of the audio clips the interface can trigger; playback itself is
/// the host's business.
#[derive(PartialEq, Eq, Structural, Hash, Debug, Copy, Clone)]
pub enum ClipId {
    /// A soft crackle.
    CrackleI,
    /// A second crackle.
    CrackleII,
    /// A third crackle.
    CrackleIII,
    /// A zap.
    ZapI,
    /// A second zap.
    ZapII,
    /// A third zap.
    ZapIII,
    /// A beam.
    Beam,
    /// A diagonal sweep.
    Diagonal,
    /// A shield.
    Shield,
    /// Entering a level.
    LevelEnter,
    /// Clearing a level.
    LevelSuccess,
    /// Failing a level.
    LevelFailure,
    /// Selecting a unit.
    MageSelect,
    /// Deselecting a unit.
    MageDeselect,
    /// Moving a unit.
    MageMove,
    /// A forward navigation click.
    ClickForward,
    /// A backward navigation click.
    ClickBack,
    /// Hovering a button.
    ButtonHover,
    /// Placing an object on the map.
    MapPlaceObject,
    /// Selecting a map square.
    MapSelectSquare,
    /// Growing the map.
    MapIncreaseSize,
    /// Shrinking the map.
    MapDecreaseSize,
    /// A star sparkle.
    StarSparkle,
    /// The music track.
    MusicI,
}

} // verus!
