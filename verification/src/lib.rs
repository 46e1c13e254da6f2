use vstd::prelude::*;

pub mod biome;
pub mod block;
pub mod block_suggester;
pub mod chunk;
pub mod command;
pub mod command_prompt;
pub mod command_suggester;
pub mod decoration;
pub mod input;
pub mod lexing;
pub mod mesh_builder;
pub mod rng;
pub mod rounding;
pub mod snow;
pub mod terrain;
pub mod texture;
pub mod tree_generator;
pub mod world;

verus! {
}
