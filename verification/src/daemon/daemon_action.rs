use vstd::prelude::*;

verus! {

/// A request as the contracts of this crate see it.
pub enum DispatchAction {
    /// Play the sounds of every rule that matches the command text.
    Play(Seq<char>),
    /// Show the configuration that the daemon has loaded.
    PrintConfig,
}

/// A request that a client sends to the daemon.
#[derive(Debug, Clone, PartialEq, Eq)]
pub enum DaemonAction {
    /// Play the sounds of every rule that matches the command text.
    Play(String),
    /// Show the configuration that the daemon has loaded.
    PrintConfig,
}

impl View for DaemonAction {
    type V = DispatchAction;

    open spec fn view(&self) -> DispatchAction {
        match self {
            DaemonAction::Play(command) => DispatchAction::Play(command@),
            DaemonAction::PrintConfig => DispatchAction::PrintConfig,
        }
    }
}

} // verus!
