use vstd::prelude::*;

use crate::outcome::{decode_outcome, Outcome};
use crate::sandbox::Sandbox;
use crate::types::HostError;

verus! {

/// Whether a guest-reported buffer location, taken as the raw values the
/// guest returned, denotes a region lying entirely inside a memory of
/// `mem_size` bytes.
pub open spec fn extent_ok(offset: int, len: int, mem_size: int) -> bool {
    0 <= offset && 0 <= len && offset + len <= mem_size
}

/// Validates a guest-reported buffer offset and length against the actual
/// size of the guest's exported memory, before any raw copy is attempted.
/// The guest's self-reported values are never trusted: a negative value or a
/// region reaching past the end of memory is rejected, turning an unchecked
/// cross-boundary copy into a checked one.
pub fn guest_extent(offset: i32, len: i32, mem_size: usize) -> (r: Option<(usize, usize)>)
    ensures
        (match r {
            Some(p) => extent_ok(offset as int, len as int, mem_size as int) && p.0
                == offset as int && p.1 == len as int,
            None => !extent_ok(offset as int, len as int, mem_size as int),
        }),
{
    if offset < 0 || len < 0 {
        return None;
    }
    let o = offset as usize;
    let l = len as usize;
    if o > mem_size {
        return None;
    }
    if l > mem_size - o {
        return None;
    }
    Some((o, l))
}

/// Which host error a set of export-lookup results maps to, if any: the five
/// required exports are checked in a fixed order and the first missing one
/// is reported. `None` means the module conforms to the calling convention.
pub open spec fn spec_export_error(
    alloc: bool,
    ptr: bool,
    len: bool,
    entry: bool,
    mem: bool,
) -> Option<HostError> {
    if !alloc {
        Some(HostError::MissingAllocateSpace)
    } else if !ptr {
        Some(HostError::MissingBufferPointer)
    } else if !len {
        Some(HostError::MissingBufferLen)
    } else if !entry {
        Some(HostError::MissingEntryPoint)
    } else if !mem {
        Some(HostError::MissingMemory)
    } else {
        None
    }
}

/// Law: a non-conforming module is reported with an error that identifies a
/// genuinely missing export, and no error is reported exactly when all four
/// required functions and the named memory are present.
pub proof fn lemma_export_error_identifies(
    alloc: bool,
    ptr: bool,
    len: bool,
    entry: bool,
    mem: bool,
)
    ensures
        spec_export_error(alloc, ptr, len, entry, mem) is None <==> (alloc && ptr && len && entry
            && mem),
        spec_export_error(alloc, ptr, len, entry, mem) == Some(HostError::MissingAllocateSpace)
            ==> !alloc,
        spec_export_error(alloc, ptr, len, entry, mem) == Some(HostError::MissingBufferPointer)
            ==> !ptr,
        spec_export_error(alloc, ptr, len, entry, mem) == Some(HostError::MissingBufferLen)
            ==> !len,
        spec_export_error(alloc, ptr, len, entry, mem) == Some(HostError::MissingEntryPoint)
            ==> !entry,
        spec_export_error(alloc, ptr, len, entry, mem) == Some(HostError::MissingMemory) ==> !mem,
{
}

/// Judges the five export-lookup results: accepts exactly the conforming
/// modules, and reports the first missing export otherwise, in the fixed
/// order the calling convention lists them.
pub fn export_error(alloc: bool, ptr: bool, len: bool, entry: bool, mem: bool) -> (r: Result<
    (),
    HostError,
>)
    ensures
        r is Ok <==> (alloc && ptr && len && entry && mem),
        r matches Err(e) ==> Some(e) == spec_export_error(alloc, ptr, len, entry, mem),
{
    if !alloc {
        Err(HostError::MissingAllocateSpace)
    } else if !ptr {
        Err(HostError::MissingBufferPointer)
    } else if !len {
        Err(HostError::MissingBufferLen)
    } else if !entry {
        Err(HostError::MissingEntryPoint)
    } else if !mem {
        Err(HostError::MissingMemory)
    } else {
        Ok(())
    }
}

/// Locates the four required exports and the named memory on the sandbox's
/// instance, keeping the handles inside the sandbox. A missing export is
/// reported as its own distinct error, before any memory access is
/// attempted: a non-conforming module never reaches the copy steps.
pub fn locate_exports(sandbox: &mut Sandbox) -> (r: Result<(), HostError>)
    ensures
        r matches Err(e) ==> (e == HostError::MissingAllocateSpace
            || e == HostError::MissingBufferPointer || e == HostError::MissingBufferLen
            || e == HostError::MissingEntryPoint || e == HostError::MissingMemory),
{
    let alloc = sandbox.find_allocate_space();
    let ptr = sandbox.find_buffer_pointer();
    let len = sandbox.find_buffer_len();
    let entry = sandbox.find_entry();
    let mem = sandbox.find_memory();
    export_error(alloc, ptr, len, entry, mem)
}

/// The input half of the handshake: tells the guest the exact byte length
/// of the serialized input, asks it where its buffer is, validates the
/// guest-reported location against the memory's actual size, and only then
/// copies the input bytes in. An input too long for the protocol's 32-bit
/// length convention is rejected as out of bounds before the guest is
/// involved at all.
pub fn pass_string_arg(sandbox: &mut Sandbox, json_bytes: &Vec<u8>) -> (r: Result<(), HostError>)
    ensures
        r matches Err(e) ==> (e == HostError::OutOfBounds || e == HostError::Trap
            || e == HostError::MemoryAccess),
        r is Ok ==> json_bytes@.len() <= 0x7fffffff,
        json_bytes@.len() > 0x7fffffff ==> (r matches Err(e) && e == HostError::OutOfBounds),
{
    if json_bytes.len() > 0x7fffffff {
        return Err(HostError::OutOfBounds);
    }
    let input_len: i32 = json_bytes.len() as i32;
    if sandbox.call_allocate_space(input_len).is_err() {
        return Err(HostError::Trap);
    }
    let offset = match sandbox.call_buffer_pointer() {
        Ok(o) => o,
        Err(_) => {
            return Err(HostError::Trap);
        },
    };
    let size = match sandbox.memory_size() {
        Some(s) => s,
        None => {
            return Err(HostError::MemoryAccess);
        },
    };
    let (dst, _) = match guest_extent(offset, input_len, size) {
        Some(p) => p,
        None => {
            return Err(HostError::OutOfBounds);
        },
    };
    match sandbox.memory_write(dst, json_bytes) {
        Ok(_) => Ok(()),
        Err(_) => Err(HostError::MemoryAccess),
    }
}

/// The output half of the handshake: asks the guest where its result buffer
/// is and how long it is (both may differ from the input side), validates
/// the guest-reported location against the memory's actual size, copies the
/// bytes out, and decodes them as a tagged outcome. Malformed outcome bytes
/// are a fatal decode error, never a guest-level failure.
pub fn get_return_value(sandbox: &mut Sandbox) -> (r: Result<Outcome, HostError>)
    ensures
        r matches Err(e) ==> (e == HostError::Trap || e == HostError::OutOfBounds
            || e == HostError::MemoryAccess || e == HostError::Decode),
{
    let offset = match sandbox.call_buffer_pointer() {
        Ok(o) => o,
        Err(_) => {
            return Err(HostError::Trap);
        },
    };
    let out_len = match sandbox.call_buffer_len() {
        Ok(l) => l,
        Err(_) => {
            return Err(HostError::Trap);
        },
    };
    let size = match sandbox.memory_size() {
        Some(s) => s,
        None => {
            return Err(HostError::MemoryAccess);
        },
    };
    let (src, copy_len) = match guest_extent(offset, out_len, size) {
        Some(p) => p,
        None => {
            return Err(HostError::OutOfBounds);
        },
    };
    let bytes = match sandbox.memory_read(src, copy_len) {
        Ok(b) => b,
        Err(_) => {
            return Err(HostError::MemoryAccess);
        },
    };
    decode_outcome(&bytes)
}

} // verus!
