//! Commands delivered to the engine over its command channel, and how the
//! manual trigger disposes of each one.

use vstd::prelude::*;
use crate::pipeline::ProductionRequest;

verus! {

/// The engine receives these messages over a channel.
#[derive(Clone, Copy, Debug, PartialEq, Eq, Structural)]
pub enum EngineCommand {
    /// Tells the engine to propose a new block.
    ///
    /// If `force == true`, it will create empty blocks.
    SealNewBlock {
        force: bool,
    },
    /// Tells the engine to create a fork.
    ///
    /// No handler exists for this yet: the command is accepted into the
    /// channel and then reported as unsupported, never silently dropped.
    CreateFork,
}

/// What the manual trigger does with one received command.
#[derive(Clone, Copy, Debug, PartialEq, Eq, Structural)]
pub enum CommandOutcome {
    /// Run one production cycle with this request.
    Produce {
        request: ProductionRequest,
    },
    /// The command has no handler; the driver must surface this (at minimum
    /// log it), so that an unimplemented command is distinguishable from a
    /// dropped message.
    ReportUnsupported,
}

/// Decides what one received command leads to: a `SealNewBlock` becomes a
/// production request carrying the same `force` flag; a `CreateFork` is
/// reported as unsupported.
pub fn dispatch_command(command: EngineCommand) -> (outcome: CommandOutcome)
    ensures
        command matches EngineCommand::SealNewBlock { force }
            ==> outcome == (CommandOutcome::Produce { request: ProductionRequest { force } }),
        command is CreateFork ==> outcome is ReportUnsupported,
{
    match command {
        EngineCommand::SealNewBlock { force } => CommandOutcome::Produce {
            request: ProductionRequest { force },
        },
        EngineCommand::CreateFork => CommandOutcome::ReportUnsupported,
    }
}

} // verus!
