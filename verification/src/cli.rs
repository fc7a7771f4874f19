//! The options of the command line, as plain values.

use vstd::prelude::*;

verus! {

/// What the machine is used for.
#[derive(Clone, Copy, Debug, PartialEq, Eq, Structural)]
pub enum Profile {
    Game,
    Work,
}

/// How much of the processor the guest gets.
#[derive(Clone, Copy, Debug, PartialEq, Eq, Structural)]
pub enum Cpu {
    Slim,
    Full,
}

/// Which graphics adapter the guest gets.
#[derive(Clone, Copy, Debug, PartialEq, Eq, Structural)]
pub enum Graphics {
    /// An emulated adapter.
    Virtual,
    /// The graphics card of the host.
    Passthrough,
}

/// The options that select a machine.
#[derive(Clone, Copy, Debug)]
pub struct Options {
    pub profile: Profile,
    pub cpu: Cpu,
    pub graphics: Graphics,
    /// Open the window of the hypervisor.
    pub window: bool,
}

/// What is to be done with the machine.
#[derive(Clone, Copy, Debug)]
pub enum Command {
    /// Run the guest, releasing the devices before and taking them back
    /// after, unless `skip_attach` is set.
    Run { config: Options, skip_attach: bool },
    /// Unload the drivers and release the devices.
    Detach { config: Options },
    /// Load the drivers and take the devices back.
    Attach { config: Options },
}

/// The whole command line.
#[derive(Clone, Copy, Debug)]
pub struct CliArgs {
    pub command: Command,
    /// Log more.
    pub debug: bool,
}

impl Command {
    /// The options that select the machine.
    pub fn config(&self) -> (config: Options)
        ensures
            config == (match *self {
                Command::Run { config, skip_attach } => config,
                Command::Detach { config } => config,
                Command::Attach { config } => config,
            }),
    {
        match self {
            Command::Run { config, skip_attach } => *config,
            Command::Detach { config } => *config,
            Command::Attach { config } => *config,
        }
    }
}

} // verus!
