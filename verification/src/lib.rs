pub mod combat;
pub mod creature_state;
pub mod death;
pub mod goblin_animation;
pub mod input;
pub mod inventory;
pub mod inventory_use;
pub mod item_catalog;
pub mod items;
pub mod loot;
pub mod mesh_indices;
pub mod props;
pub mod steering;
pub mod waves;
