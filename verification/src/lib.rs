//! A tick-driven control engine for an autonomous game agent.
//!
//! The engine advances a set of independent state machines (buffs, the
//! player's movement and action states, an action rotator) once per tick of a
//! fixed-rate control loop.  All waiting is expressed in ticks, never in
//! wall-clock time, and every perception call is wrapped in a non-blocking,
//! cancellable detection task.  Each update function makes exactly one
//! transition decision per tick; the host loop performs the inputs the
//! library asks for and feeds perception outcomes back in as plain values.

pub mod bridge;
pub mod buff;
pub mod config;
pub mod ecs;
pub mod geometry;
pub mod minimap;
pub mod player;
pub mod rng;
pub mod rotator;
pub mod task;
