//! The sprite images of the game and which one each thing uses.
use vstd::prelude::*;
use crate::weapon::WeaponType;

verus! {

/// Width and height in pixels of one frame of the walking sprite sheet.
pub const PLAYER_WALK_FRAME_SIZE: u32 = 32;

/// Number of frames in the walking sprite sheet.
pub const PLAYER_WALK_FRAME_COUNT: usize = 4;

/// The sprite images, each loaded once at start-up.
#[derive(Clone, Copy, PartialEq, Eq, Hash, Debug, Structural)]
pub enum SpriteId {
    Player,
    /// The walking sprite sheet: four 32x32 frames side by side.
    PlayerWalk,
    EnemyNormal,
    EnemyFast,
    EnemyTank,
    Boss,
    Arrow,
    Spear,
    Bomb,
    Slash,
    Aura,
    Explosion,
    FloorTile,
    WallTile,
    DropSword,
    DropBow,
    DropSpear,
    DropAura,
    DropBomb,
    DropHeal,
}

/// The file each sprite is loaded from.
pub open spec fn spec_sprite_path(id: SpriteId) -> Seq<char> {
    match id {
        SpriteId::Player => "sprites/player.png"@,
        SpriteId::PlayerWalk => "sprites/player_walk.png"@,
        SpriteId::EnemyNormal => "sprites/enemy_normal.png"@,
        SpriteId::EnemyFast => "sprites/enemy_fast.png"@,
        SpriteId::EnemyTank => "sprites/enemy_tank.png"@,
        SpriteId::Boss => "sprites/boss.png"@,
        SpriteId::Arrow => "sprites/arrow.png"@,
        SpriteId::Spear => "sprites/spear.png"@,
        SpriteId::Bomb => "sprites/bomb.png"@,
        SpriteId::Slash => "sprites/slash.png"@,
        SpriteId::Aura => "sprites/aura.png"@,
        SpriteId::Explosion => "sprites/explosion.png"@,
        SpriteId::FloorTile => "sprites/floor_tile.png"@,
        SpriteId::WallTile => "sprites/wall_tile.png"@,
        SpriteId::DropSword => "sprites/drop_sword.png"@,
        SpriteId::DropBow => "sprites/drop_bow.png"@,
        SpriteId::DropSpear => "sprites/drop_spear.png"@,
        SpriteId::DropAura => "sprites/drop_aura.png"@,
        SpriteId::DropBomb => "sprites/drop_bomb.png"@,
        SpriteId::DropHeal => "sprites/drop_heal.png"@,
    }
}

impl SpriteId {
    /// The file this sprite is loaded from, relative to the asset folder.
    pub fn path(self) -> (path: &'static str)
        ensures
            path@ == spec_sprite_path(self),
    {
        match self {
            SpriteId::Player => "sprites/player.png",
            SpriteId::PlayerWalk => "sprites/player_walk.png",
            SpriteId::EnemyNormal => "sprites/enemy_normal.png",
            SpriteId::EnemyFast => "sprites/enemy_fast.png",
            SpriteId::EnemyTank => "sprites/enemy_tank.png",
            SpriteId::Boss => "sprites/boss.png",
            SpriteId::Arrow => "sprites/arrow.png",
            SpriteId::Spear => "sprites/spear.png",
            SpriteId::Bomb => "sprites/bomb.png",
            SpriteId::Slash => "sprites/slash.png",
            SpriteId::Aura => "sprites/aura.png",
            SpriteId::Explosion => "sprites/explosion.png",
            SpriteId::FloorTile => "sprites/floor_tile.png",
            SpriteId::WallTile => "sprites/wall_tile.png",
            SpriteId::DropSword => "sprites/drop_sword.png",
            SpriteId::DropBow => "sprites/drop_bow.png",
            SpriteId::DropSpear => "sprites/drop_spear.png",
            SpriteId::DropAura => "sprites/drop_aura.png",
            SpriteId::DropBomb => "sprites/drop_bomb.png",
            SpriteId::DropHeal => "sprites/drop_heal.png",
        }
    }
}

/// The icon of a dropped weapon of each kind.
pub open spec fn spec_weapon_drop_icon(weapon_type: WeaponType) -> SpriteId {
    match weapon_type {
        WeaponType::Sword => SpriteId::DropSword,
        WeaponType::Bow => SpriteId::DropBow,
        WeaponType::Spear => SpriteId::DropSpear,
        WeaponType::Aura => SpriteId::DropAura,
        WeaponType::Bomb => SpriteId::DropBomb,
    }
}

/// The icon of a dropped weapon of kind `weapon_type`.
pub fn weapon_drop_icon(weapon_type: WeaponType) -> (icon: SpriteId)
    ensures
        icon == spec_weapon_drop_icon(weapon_type),
{
    match weapon_type {
        WeaponType::Sword => SpriteId::DropSword,
        WeaponType::Bow => SpriteId::DropBow,
        WeaponType::Spear => SpriteId::DropSpear,
        WeaponType::Aura => SpriteId::DropAura,
        WeaponType::Bomb => SpriteId::DropBomb,
    }
}

/// The frame that follows `index` in the walking animation, wrapping round
/// after the last.
pub fn next_walk_frame(index: usize) -> (next: usize)
    requires
        index < usize::MAX,
    ensures
        next == (index + 1) % (PLAYER_WALK_FRAME_COUNT as int),
        next < PLAYER_WALK_FRAME_COUNT,
{
    (index + 1) % PLAYER_WALK_FRAME_COUNT
}

} // verus!
