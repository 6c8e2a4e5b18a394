use vstd::prelude::*;

verus! {

/// Lifecycle state of the virtual machine, as reported by the engine.
#[derive(Clone, Copy, Debug, PartialEq, Eq, Structural)]
pub enum VmState {
    Created,
    Running,
    Shutdown,
}

/// An error raised by the VM engine while it carried out a command.
///
/// The control channel never looks inside it: it is handed back to the
/// caller exactly as the engine produced it.
#[derive(Clone, Debug)]
pub struct VmError {
    pub message: String,
}

} // verus!
