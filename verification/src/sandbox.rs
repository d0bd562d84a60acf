//! The trusted boundary to the sandboxed-execution engine.
//!
//! Every function here is a thin wrapper around calls into the engine or its
//! capability layer; Verus believes the stated contracts and does not look
//! inside the bodies. Everything the engine's results are used for is
//! decided and verified elsewhere in this crate.
//!
//! The engine panics when an instance, function or memory is used with a
//! store that does not own it, and no contract over opaque values can state
//! "owned by this store". So one invocation's engine state — store, linker,
//! module, instance and located export handles — lives together in the
//! [`Sandbox`] struct, created coherently from one engine and used only
//! through `&mut self` methods: a mismatched pairing cannot even be typed,
//! and no admitted input reaches a documented panic.

use vstd::prelude::*;

verus! {

#[verifier::external_type_specification]
#[verifier::external_body]
pub struct ExWasiCtxBuilder(wasmtime_wasi::WasiCtxBuilder);

#[verifier::external_type_specification]
#[verifier::external_body]
pub struct ExWasiP1Ctx(wasmtime_wasi::p1::WasiP1Ctx);

/// The live sandbox of one invocation. Opaque to Verus; its store owns
/// every other engine object held here, because they are only ever created
/// from it and never leave the struct.
#[verifier::external_body]
pub struct Sandbox {
    store: wasmtime::Store<wasmtime_wasi::p1::WasiP1Ctx>,
    linker: wasmtime::Linker<wasmtime_wasi::p1::WasiP1Ctx>,
    module: Option<wasmtime::Module>,
    instance: Option<wasmtime::Instance>,
    allocate_space: Option<wasmtime::TypedFunc<i32, ()>>,
    buffer_pointer: Option<wasmtime::TypedFunc<(), i32>>,
    buffer_len: Option<wasmtime::TypedFunc<(), i32>>,
    entry: Option<wasmtime::TypedFunc<(), ()>>,
    memory: Option<wasmtime::Memory>,
}

impl Sandbox {
    /// Relies on wasmtime::Engine::new, Linker::new, Store::new and
    /// wasmtime_wasi::p1::add_to_linker_sync: one fresh engine, a linker of
    /// that engine carrying the WASI capability functions, and a store of
    /// that engine owning the given context — nothing pooled, nothing
    /// shared. `Err` when the configuration is rejected or a WASI name was
    /// already defined. The configuration only bounds the virtual address
    /// space reserved per guest memory, so that instantiation also works
    /// where large reservations are refused; execution semantics are
    /// unchanged, since the engine falls back to bounds-checked memories.
    #[verifier::external_body]
    pub(crate) fn create(ctx: wasmtime_wasi::p1::WasiP1Ctx) -> (r: Result<Sandbox, ()>) {
        let mut config = wasmtime::Config::new();
        config.memory_reservation(1 << 24);
        config.memory_reservation_for_growth(1 << 20);
        config.memory_guard_size(1 << 16);
        let engine = wasmtime::Engine::new(&config).map_err(|_| ())?;
        let mut linker = wasmtime::Linker::new(&engine);
        wasmtime_wasi::p1::add_to_linker_sync(&mut linker, |c| c).map_err(|_| ())?;
        let store = wasmtime::Store::new(&engine, ctx);
        Ok(Sandbox {
            store, linker, module: None, instance: None, allocate_space: None,
            buffer_pointer: None, buffer_len: None, entry: None, memory: None,
        })
    }

    /// Relies on wasmtime::Module::new, against this sandbox's own engine:
    /// compiles the action's bytecode and keeps the module here. `Err`
    /// exactly when the bytecode is malformed or unsupported.
    #[verifier::external_body]
    pub(crate) fn compile(&mut self, code: &Vec<u8>) -> (r: Result<(), ()>) {
        match wasmtime::Module::new(self.store.engine(), code.as_slice()) {
            Ok(m) => {
                self.module = Some(m);
                Ok(())
            },
            Err(_) => Err(()),
        }
    }

    /// Relies on wasmtime::Linker::instantiate: links the compiled module's
    /// imports against the linker's definitions and keeps the instance
    /// here. Store, linker and module share this sandbox's engine by
    /// construction. `Err` on a missing import, a start-section trap, or
    /// when no module was compiled yet.
    #[verifier::external_body]
    pub(crate) fn instantiate(&mut self) -> (r: Result<(), ()>) {
        let module = match &self.module {
            Some(m) => m,
            None => return Err(()),
        };
        match self.linker.instantiate(&mut self.store, module) {
            Ok(i) => {
                self.instance = Some(i);
                Ok(())
            },
            Err(_) => Err(()),
        }
    }

    /// Relies on wasmtime::Instance::get_typed_func: keeps the export named
    /// `wasm_memory_buffer_allocate_space` of type `(i32) -> ()`, reporting
    /// whether the instance has it (`false` too when nothing was
    /// instantiated).
    #[verifier::external_body]
    pub(crate) fn find_allocate_space(&mut self) -> (r: bool) {
        let instance = match self.instance {
            Some(i) => i,
            None => return false,
        };
        self.allocate_space = instance
            .get_typed_func::<i32, ()>(&mut self.store, "wasm_memory_buffer_allocate_space")
            .ok();
        self.allocate_space.is_some()
    }

    /// Relies on wasmtime::Instance::get_typed_func: keeps the export named
    /// `get_wasm_memory_buffer_pointer` of type `() -> i32`, reporting
    /// whether the instance has it (`false` too when nothing was
    /// instantiated).
    #[verifier::external_body]
    pub(crate) fn find_buffer_pointer(&mut self) -> (r: bool) {
        let instance = match self.instance {
            Some(i) => i,
            None => return false,
        };
        self.buffer_pointer = instance
            .get_typed_func::<(), i32>(&mut self.store, "get_wasm_memory_buffer_pointer")
            .ok();
        self.buffer_pointer.is_some()
    }

    /// Relies on wasmtime::Instance::get_typed_func: keeps the export named
    /// `get_wasm_memory_buffer_len` of type `() -> i32`, reporting whether
    /// the instance has it (`false` too when nothing was instantiated).
    #[verifier::external_body]
    pub(crate) fn find_buffer_len(&mut self) -> (r: bool) {
        let instance = match self.instance {
            Some(i) => i,
            None => return false,
        };
        self.buffer_len = instance
            .get_typed_func::<(), i32>(&mut self.store, "get_wasm_memory_buffer_len")
            .ok();
        self.buffer_len.is_some()
    }

    /// Relies on wasmtime::Instance::get_typed_func: keeps the module's
    /// default entry point of type `() -> ()`, looked up under the nameless
    /// export first and `_start` second, reporting whether the instance has
    /// either (`false` too when nothing was instantiated).
    #[verifier::external_body]
    pub(crate) fn find_entry(&mut self) -> (r: bool) {
        let instance = match self.instance {
            Some(i) => i,
            None => return false,
        };
        self.entry = match instance.get_typed_func::<(), ()>(&mut self.store, "").ok() {
            Some(f) => Some(f),
            None => instance.get_typed_func::<(), ()>(&mut self.store, "_start").ok(),
        };
        self.entry.is_some()
    }

    /// Relies on wasmtime::Instance::get_memory: keeps the linear memory
    /// exported under the reserved name `memory`, reporting whether the
    /// instance has it (`false` too when nothing was instantiated).
    #[verifier::external_body]
    pub(crate) fn find_memory(&mut self) -> (r: bool) {
        let instance = match self.instance {
            Some(i) => i,
            None => return false,
        };
        self.memory = instance.get_memory(&mut self.store, "memory");
        self.memory.is_some()
    }

    /// Relies on wasmtime::TypedFunc::call on the kept allocate-space
    /// export: `Err` when the guest traps, or when the export was never
    /// located.
    #[verifier::external_body]
    pub(crate) fn call_allocate_space(&mut self, len: i32) -> (r: Result<(), ()>) {
        match &self.allocate_space {
            Some(f) => f.call(&mut self.store, len).map_err(|_| ()),
            None => Err(()),
        }
    }

    /// Relies on wasmtime::TypedFunc::call on the kept buffer-pointer
    /// export: `Err` when the guest traps, or when the export was never
    /// located.
    #[verifier::external_body]
    pub(crate) fn call_buffer_pointer(&mut self) -> (r: Result<i32, ()>) {
        match &self.buffer_pointer {
            Some(f) => f.call(&mut self.store, ()).map_err(|_| ()),
            None => Err(()),
        }
    }

    /// Relies on wasmtime::TypedFunc::call on the kept buffer-length
    /// export: `Err` when the guest traps, or when the export was never
    /// located.
    #[verifier::external_body]
    pub(crate) fn call_buffer_len(&mut self) -> (r: Result<i32, ()>) {
        match &self.buffer_len {
            Some(f) => f.call(&mut self.store, ()).map_err(|_| ()),
            None => Err(()),
        }
    }

    /// Relies on wasmtime::TypedFunc::call on the kept entry point: blocks
    /// until the guest returns or traps; `Err` when it traps, or when the
    /// entry was never located.
    #[verifier::external_body]
    pub(crate) fn call_entry(&mut self) -> (r: Result<(), ()>) {
        match &self.entry {
            Some(f) => f.call(&mut self.store, ()).map_err(|_| ()),
            None => Err(()),
        }
    }

    /// Relies on wasmtime::Memory::data_size: the current size in bytes of
    /// the kept memory; `None` when no memory was located.
    #[verifier::external_body]
    pub(crate) fn memory_size(&self) -> (r: Option<usize>) {
        match &self.memory {
            Some(m) => Some(m.data_size(&self.store)),
            None => None,
        }
    }

    /// Relies on wasmtime::Memory::write: copies the buffer into the kept
    /// memory at `offset`, writing nothing and returning `Err` if the
    /// region reaches past the current end of memory, or if no memory was
    /// located.
    #[verifier::external_body]
    pub(crate) fn memory_write(&mut self, offset: usize, data: &Vec<u8>) -> (r: Result<(), ()>) {
        match &self.memory {
            Some(m) => m.write(&mut self.store, offset, data.as_slice()).map_err(|_| ()),
            None => Err(()),
        }
    }

    /// Relies on wasmtime::Memory::read: copies `len` bytes of the kept
    /// memory starting at `offset` into a host-owned buffer, returning
    /// `Err` if the region reaches past the current end of memory, or if no
    /// memory was located.
    #[verifier::external_body]
    pub(crate) fn memory_read(&self, offset: usize, len: usize) -> (r: Result<Vec<u8>, ()>)
        ensures
            r matches Ok(b) ==> b@.len() == len,
    {
        let m = match &self.memory {
            Some(m) => m,
            None => return Err(()),
        };
        let mut buf = vec![0u8; len];
        m.read(&self.store, offset, buf.as_mut_slice()).map_err(|_| ())?;
        Ok(buf)
    }
}

/// Relies on wasmtime_wasi::WasiCtxBuilder::new: a fresh context builder
/// describing a guest with no capabilities beyond the defaults, which grant
/// no preopens.
#[verifier::external_body]
pub(crate) fn new_wasi_builder() -> wasmtime_wasi::WasiCtxBuilder {
    wasmtime_wasi::WasiCtxBuilder::new()
}

/// Relies on wasmtime_wasi::WasiCtxBuilder::inherit_stdout: the guest's
/// standard output is forwarded to the host's.
#[verifier::external_body]
pub(crate) fn builder_inherit_stdout(b: &mut wasmtime_wasi::WasiCtxBuilder) {
    b.inherit_stdout();
}

/// Relies on wasmtime_wasi::WasiCtxBuilder::inherit_stderr: the guest's
/// standard error is forwarded to the host's.
#[verifier::external_body]
pub(crate) fn builder_inherit_stderr(b: &mut wasmtime_wasi::WasiCtxBuilder) {
    b.inherit_stderr();
}

/// Relies on wasmtime_wasi::WasiCtxBuilder::arg: appends one positional
/// argument, the given ASCII-digit bytes read as a string. The digits-only
/// precondition keeps the UTF-8 conversion total.
#[verifier::external_body]
pub(crate) fn builder_arg_digits(b: &mut wasmtime_wasi::WasiCtxBuilder, digits: &Vec<u8>)
    requires
        forall|i: int| 0 <= i < digits@.len() ==> 48 <= #[trigger] digits@[i] <= 57,
{
    b.arg(core::str::from_utf8(digits.as_slice()).unwrap_or(""));
}

/// Relies on wasmtime_wasi::WasiCtxBuilder::preopened_dir: opens the host
/// directory and grants the guest a read-write capability to exactly that
/// subtree, visible in the guest under the same path. `Err` exactly when
/// opening the host directory fails.
#[verifier::external_body]
pub(crate) fn builder_preopened_dir(b: &mut wasmtime_wasi::WasiCtxBuilder, dir: &String) -> (r:
    Result<(), ()>) {
    match b.preopened_dir(dir.as_str(), dir.as_str(), wasmtime_wasi::FsPerms::ReadWrite) {
        Ok(_) => Ok(()),
        Err(_) => Err(()),
    }
}

/// Relies on wasmtime_wasi::WasiCtxBuilder::build_p1: turns the builder's
/// settings into a WASI context. Building panics on a builder already
/// built, so this wrapper consumes the builder: a second build of the same
/// builder cannot even be typed.
#[verifier::external_body]
pub(crate) fn builder_build_p1(b: wasmtime_wasi::WasiCtxBuilder) -> wasmtime_wasi::p1::WasiP1Ctx {
    let mut b = b;
    b.build_p1()
}

/// Relies on cap_std::fs::Dir::create_ambient_dir_all: recursively creates
/// the directory if absent; succeeds whether or not it already existed, so
/// provisioning is idempotent. `Err` exactly when creation fails; errors
/// are returned, never panics.
#[verifier::external_body]
pub(crate) fn create_dir_recursive(dir: &String) -> (r: Result<(), ()>) {
    cap_std::fs::Dir::create_ambient_dir_all(dir.as_str(), cap_std::ambient_authority()).map_err(
        |_| (),
    )
}

} // verus!
