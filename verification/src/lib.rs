pub mod active_skill;
pub mod building;
pub mod chara;
pub mod defs;
pub mod faction;
pub mod game;
pub mod modifier;
pub mod preturn;
mod rng;
pub mod text_input;
pub mod window;
