use vstd::prelude::*;

verus! {

/// Sound effects that the simulation asks its owner to play. Playing them is
/// fire-and-forget: nothing in the simulation depends on it.
#[derive(Clone, Copy, Debug, PartialEq, Eq, Hash, Structural)]
pub enum SoundIdentifier {
    EnermyShoot,
    EnermyOuch,
    PlayerOuch,
    PlayerShoot,
    SpawnMini,
    Spawn,
    Warning,
    WaveCleared,
}

} // verus!
