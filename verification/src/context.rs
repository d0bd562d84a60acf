use vstd::prelude::*;

use crate::decimal::{decimal_digits, lemma_decimal_is_digits};
use crate::sandbox::{
    builder_arg_digits, builder_build_p1, builder_inherit_stderr, builder_inherit_stdout,
    builder_preopened_dir, create_dir_recursive, new_wasi_builder,
};
use crate::types::{ActionCapabilities, HostError};

verus! {

/// Turns a declarative capability set into a concrete environment for one
/// guest instance:
///
/// - the guest's standard output and standard error always go to the host's;
/// - the guest always receives exactly one positional argument, the decimal
///   byte length of the serialized input, so it can pre-size its receive
///   buffer before the handshake begins;
/// - if a directory capability is declared, the directory is first created
///   recursively if absent (idempotently: provisioning succeeds whether or
///   not it already existed) and then pre-opened for the guest, which can
///   reach exactly that subtree and nothing else; without a declared
///   capability the guest receives no filesystem access at all.
///
/// A provisioning failure is fatal to the invocation and is the only error
/// this step can produce; with no declared capability it cannot fail.
pub fn build_wasi_context(capabilities: &ActionCapabilities, arg_len: usize) -> (r: Result<
    wasmtime_wasi::p1::WasiP1Ctx,
    HostError,
>)
    ensures
        r matches Err(e) ==> e == HostError::CapabilityDir && capabilities.dir is Some,
        capabilities.dir is None ==> r is Ok,
{
    let mut builder = new_wasi_builder();
    builder_inherit_stdout(&mut builder);
    builder_inherit_stderr(&mut builder);
    let digits = decimal_digits(arg_len);
    proof {
        lemma_decimal_is_digits(arg_len as nat);
    }
    builder_arg_digits(&mut builder, &digits);
    match &capabilities.dir {
        Some(dir) => {
            if create_dir_recursive(dir).is_err() {
                return Err(HostError::CapabilityDir);
            }
            if builder_preopened_dir(&mut builder, dir).is_err() {
                return Err(HostError::CapabilityDir);
            }
        },
        None => {},
    }
    Ok(builder_build_p1(builder))
}

} // verus!
