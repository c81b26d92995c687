//! Code Buddy core library: the verified logic behind the assistant's tools,
//! scheduler, hooks, skills, caches and formatters.

pub mod commands;
pub mod computer;
pub mod config;
pub mod container;
pub mod context_files;
pub mod cron;
pub mod dirs;
pub mod hooks;
pub mod image_gen;
pub mod json;
pub mod memory;
pub mod mixture_of_agents;
pub mod mlx;
pub mod plugins;
pub mod profiles;
pub mod prompt_cache;
pub mod sandbox;
pub mod skills;
pub mod skills_hub;
pub mod skin_engine;
pub mod state;
pub mod streaming;
pub mod strmap;
pub mod text;
pub mod tools;
pub mod utils;
pub mod vision;
