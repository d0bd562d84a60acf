use vstd::prelude::*;

verus! {

/// The declarative capability set of an action. A guest receives exactly what
/// is declared here and nothing else: when `dir` is absent the guest gets no
/// filesystem capability at all, not a restricted default.
#[derive(Clone, Debug)]
pub struct ActionCapabilities {
    /// Absolute path of the one directory subtree the guest may access as a
    /// pre-opened filesystem root, if any.
    pub dir: Option<String>,
}

impl Default for ActionCapabilities {
    /// The empty capability set: no filesystem access.
    fn default() -> (r: Self)
        ensures
            r.dir is None,
    {
        ActionCapabilities { dir: None }
    }
}

/// An action: sandboxed bytecode plus the capabilities it was deployed with.
/// Immutable for the duration of one invocation.
#[derive(Clone, Debug)]
pub struct WasmAction {
    /// The action's compiled bytecode, as received from deployment.
    pub code: Vec<u8>,
    /// What the guest is allowed to touch outside its own memory.
    pub capabilities: ActionCapabilities,
}

/// The reason an invocation failed at the host/infrastructure tier, before a
/// guest-authored outcome could be produced. Guest-reported failures are not
/// represented here: they come back as a decoded `Failure` outcome.
#[derive(Clone, Copy, Debug, PartialEq, Eq, Structural)]
pub enum HostError {
    /// The action's bytecode was rejected by the sandbox engine's compiler.
    Compile,
    /// The compiled module could not be linked and instantiated.
    Link,
    /// The guest does not export the buffer-allocation function.
    MissingAllocateSpace,
    /// The guest does not export the buffer-pointer query function.
    MissingBufferPointer,
    /// The guest does not export the buffer-length query function.
    MissingBufferLen,
    /// The guest does not export a zero-argument, zero-return entry point.
    MissingEntryPoint,
    /// The guest does not export a linear memory under the reserved name.
    MissingMemory,
    /// A guest-reported buffer offset/length pair is negative or does not lie
    /// inside the guest's exported memory.
    OutOfBounds,
    /// Copying bytes across the host/guest memory boundary failed.
    MemoryAccess,
    /// The guest's entry point trapped instead of returning.
    Trap,
    /// The bytes the guest produced do not form a tagged outcome.
    Decode,
    /// Provisioning the declared directory capability failed.
    CapabilityDir,
}

} // verus!
