use vstd::prelude::*;

verus! {

/// Element of a spell; it decides the projectile's looks and sound.
#[derive(Clone, Copy, Debug, PartialEq, Eq, Structural, Hash)]
pub enum PowerType {
    Fire,
    Arcane,
    Shadow,
    Poison,
}

impl Default for PowerType {
    fn default() -> (power: PowerType)
        ensures
            power == PowerType::Fire,
    {
        PowerType::Fire
    }
}

/// Power chosen with the number keys 1 to 4 (the lowest key pressed wins),
/// or `None` when none of them was pressed.
pub fn power_for_keys(key1: bool, key2: bool, key3: bool, key4: bool) -> (power: Option<PowerType>)
    ensures
        power == (if key1 {
            Some(PowerType::Fire)
        } else if key2 {
            Some(PowerType::Arcane)
        } else if key3 {
            Some(PowerType::Shadow)
        } else if key4 {
            Some(PowerType::Poison)
        } else {
            None
        }),
{
    if key1 {
        Some(PowerType::Fire)
    } else if key2 {
        Some(PowerType::Arcane)
    } else if key3 {
        Some(PowerType::Shadow)
    } else if key4 {
        Some(PowerType::Poison)
    } else {
        None
    }
}

/// Sound events of the game.
#[derive(Clone, Copy, Debug, PartialEq, Eq, Structural)]
pub enum SfxKind {
    PlayerShoot(PowerType),
    EnemyShoot,
    Hit,
    PlayerDeath,
    EnemyDeath,
    Pickup,
    ButtonClick,
    Jump,
}

/// The recorded sounds the game plays effects with.
#[derive(Clone, Copy, Debug, PartialEq, Eq, Structural)]
pub enum SoundAsset {
    SpellFire,
    SpellGeneric,
    EnemyShoot,
    Hit,
    PlayerDeath,
    EnemyDeath,
    Pickup,
    ButtonClick,
    Jump,
}

/// Sound played for an effect: fire spells have their own, every other
/// player spell shares one.
pub fn sound_for(effect: SfxKind) -> (sound: SoundAsset)
    ensures
        sound == (match effect {
            SfxKind::PlayerShoot(PowerType::Fire) => SoundAsset::SpellFire,
            SfxKind::PlayerShoot(_) => SoundAsset::SpellGeneric,
            SfxKind::EnemyShoot => SoundAsset::EnemyShoot,
            SfxKind::Hit => SoundAsset::Hit,
            SfxKind::PlayerDeath => SoundAsset::PlayerDeath,
            SfxKind::EnemyDeath => SoundAsset::EnemyDeath,
            SfxKind::Pickup => SoundAsset::Pickup,
            SfxKind::ButtonClick => SoundAsset::ButtonClick,
            SfxKind::Jump => SoundAsset::Jump,
        }),
{
    match effect {
        SfxKind::PlayerShoot(PowerType::Fire) => SoundAsset::SpellFire,
        SfxKind::PlayerShoot(_) => SoundAsset::SpellGeneric,
        SfxKind::EnemyShoot => SoundAsset::EnemyShoot,
        SfxKind::Hit => SoundAsset::Hit,
        SfxKind::PlayerDeath => SoundAsset::PlayerDeath,
        SfxKind::EnemyDeath => SoundAsset::EnemyDeath,
        SfxKind::Pickup => SoundAsset::Pickup,
        SfxKind::ButtonClick => SoundAsset::ButtonClick,
        SfxKind::Jump => SoundAsset::Jump,
    }
}

} // verus!
