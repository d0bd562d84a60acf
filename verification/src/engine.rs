use vstd::prelude::*;

use crate::context::build_wasi_context;
use crate::json::{bytes_to_json, json_to_bytes};
use crate::marshal::{get_return_value, locate_exports, pass_string_arg};
use crate::outcome::Outcome;
use crate::sandbox::Sandbox;
use crate::types::{HostError, WasmAction};

verus! {

/// Executes one action against one input, end to end: the input is
/// serialized and the capability environment built from its byte length; a
/// fresh sandbox — engine, linker and store — is created for this
/// invocation alone; the bytecode is compiled, linked and instantiated; the
/// required exports are located; the input bytes are marshaled in; the
/// entry point is invoked; and the guest's tagged outcome is marshaled out
/// and decoded.
///
/// The two-level result keeps the host tier and the guest tier apart: the
/// outer `Err` means the sandbox could not run the action (with a kind
/// saying which step refused); `Ok(Err(value))` means the action ran to
/// completion and reported a failure of its own on purpose; `Ok(Ok(value))`
/// is a guest-reported success. Every host-tier condition aborts the
/// remaining steps at once: no partial outcome accompanies a host error.
///
/// An action that declares no directory capability can never fail
/// provisioning, because nothing is provisioned for it.
pub fn execute_wasm(parameters: serde_json::Value, wasm_action: &WasmAction) -> (r: Result<
    Result<serde_json::Value, serde_json::Value>,
    HostError,
>)
    ensures
        r matches Err(e) && e == HostError::CapabilityDir ==> wasm_action.capabilities.dir
            is Some,
{
    let json_bytes = json_to_bytes(&parameters);
    let ctx = match build_wasi_context(&wasm_action.capabilities, json_bytes.len()) {
        Ok(c) => c,
        Err(e) => {
            return Err(e);
        },
    };
    let mut sandbox = match Sandbox::create(ctx) {
        Ok(s) => s,
        Err(_) => {
            return Err(HostError::Link);
        },
    };
    if sandbox.compile(&wasm_action.code).is_err() {
        return Err(HostError::Compile);
    }
    if sandbox.instantiate().is_err() {
        return Err(HostError::Link);
    }
    match locate_exports(&mut sandbox) {
        Ok(_) => {},
        Err(e) => {
            return Err(e);
        },
    }
    match pass_string_arg(&mut sandbox, &json_bytes) {
        Ok(_) => {},
        Err(e) => {
            return Err(e);
        },
    }
    if sandbox.call_entry().is_err() {
        return Err(HostError::Trap);
    }
    let out = match get_return_value(&mut sandbox) {
        Ok(o) => o,
        Err(e) => {
            return Err(e);
        },
    };
    match out {
        Outcome::Success(payload) => match bytes_to_json(&payload) {
            Some(v) => Ok(Ok(v)),
            None => Err(HostError::Decode),
        },
        Outcome::Failure(payload) => match bytes_to_json(&payload) {
            Some(v) => Ok(Err(v)),
            None => Err(HostError::Decode),
        },
    }
}

} // verus!
