//! Startup configuration: the characters to run and the ordered task list
//! of each, every task optionally gated by a condition on live state.

use vstd::prelude::*;

verus! {

/// The whole configuration file: one entry per character.
pub struct Config {
    pub characters: Vec<CharacterConfig>,
}

/// One character: its name and the ordered tasks it cycles through.
pub struct CharacterConfig {
    pub name: String,
    pub tasks: Vec<TaskConfig>,
}

/// One scheduled task, optionally gated by a condition.
pub struct TaskConfig {
    pub name: TaskName,
    pub condition: Option<Condition>,
}

/// The scripted behaviours a character can be asked to run.
#[derive(Debug, Clone, Copy, PartialEq, Eq, Structural)]
pub enum TaskName {
    CopperIngots,
    KillChickens,
    DepositInventory,
    KillYellowSlime,
    KillCows,
    MineCopper,
    MineIron,
}

/// A predicate on live character state that gates a scheduled task.
#[derive(Debug, Clone, Copy, PartialEq, Eq, Structural)]
pub enum Condition {
    FullInventory,
}

} // verus!
