//! Game rules of an arena survival game: weapon inventory and attacks, enemy
//! waves, drops, screen flow and the text shown to the player.
pub mod weapon;
pub mod arsenal;
pub mod projectile;
pub mod rng;
pub mod assets;
pub mod enemy;
pub mod wave;
pub mod text;
pub mod lang;
pub mod pickup;
pub mod run;
pub mod screens;
pub mod input;
