//! The decision core of an agent-orchestration daemon.

pub mod config;
pub mod graph;
pub mod hierarchy;
pub mod lifecycle;
pub mod numbers;
pub mod params;
pub mod paths;
pub mod phases;
pub mod plan;
pub mod protocol;
pub mod records;
pub mod recovery;
pub mod routes;
pub mod scheduler;
pub mod specs;
pub mod status;
pub mod steps;
pub mod stores;
pub mod system;
pub mod table;
pub mod text;
pub mod tick;
pub mod tools;
pub mod words;
pub mod work;
pub mod work_laws;
pub mod work_moves;
pub mod worktree;
