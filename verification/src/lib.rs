//! Orchestration core of a tile-grid role-playing game: key mapping, choice
//! trees for nested menus, the animation queue with its blocking rule, the
//! per-scene state machines and the engine that commits deferred scene and
//! map transitions.
//!
//! The library owns every decision and hands out plain values; drawing,
//! storage and the network transport live with the caller.

pub mod text;
pub mod input;
pub mod position;
pub mod message;
pub mod animation;
pub mod animation_queue;
pub mod choice_kind;
pub mod choice;
pub mod choice_tree;
pub mod choice_setting;
pub mod cursor;
pub mod renderer;
pub mod item;
pub mod character;
pub mod save_data;
pub mod map;
pub mod maps;
pub mod state;
pub mod field;
pub mod map_elements;
pub mod title;
pub mod event;
pub mod battle;
pub mod menu;
pub mod scene;
pub mod engine;
