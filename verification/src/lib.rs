//! A scene-driven game loop: a stage of named scenes, the engine that walks
//! them frame by frame, and the geometry and timing helpers the scenes share.

pub mod config;
pub mod context;
pub mod engine;
pub mod event;
pub mod helpers;
pub mod names;
pub mod registry;
pub mod render;
pub mod scenarios;
pub mod schedule;
pub mod signal;
pub mod stage;
pub mod trace;
