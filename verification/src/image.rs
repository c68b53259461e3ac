//! Building memory images.

use vstd::prelude::*;
use crate::MEM_SIZE;

verus! {

/// `memory` with `bytes` written from address `at` on.
pub open spec fn placed(memory: Seq<u8>, at: int, bytes: Seq<u8>) -> Seq<u8> {
    Seq::new(
        memory.len(),
        |i: int|
            if at <= i < at + bytes.len() {
                bytes[i - at]
            } else {
                memory[i]
            },
    )
}

/// Copies `bytes` into `memory` from address `at` on.
pub fn place(memory: &mut [u8; MEM_SIZE], at: usize, bytes: &[u8])
    requires
        at + bytes@.len() <= MEM_SIZE,
    ensures
        final(memory)@ == placed(old(memory)@, at as int, bytes@),
{
    let len = bytes.len();
    let mut i: usize = 0;
    while i < len
        invariant
            i <= len,
            len == bytes@.len(),
            at + len <= MEM_SIZE,
            memory@.len() == MEM_SIZE,
            forall|j: int| 0 <= j < i ==> memory@[at + j] == bytes@[j],
            forall|j: int|
                0 <= j < MEM_SIZE && !(at <= j < at + i) ==> memory@[j] == old(memory)@[j],
        decreases len - i,
    {
        memory[at + i] = bytes[i];
        i = i + 1;
    }
    assert(memory@ =~= placed(old(memory)@, at as int, bytes@));
}

/// The first `room` bytes of `bytes`, or all of them if there are fewer.
pub open spec fn clipped(bytes: Seq<u8>, room: int) -> Seq<u8> {
    if bytes.len() <= room {
        bytes
    } else {
        bytes.subrange(0, room)
    }
}

/// Copies `bytes` into `memory` from address `at` on and drops what does not
/// fit below the end of memory.
pub fn place_clipped(memory: &mut [u8; MEM_SIZE], at: usize, bytes: &[u8])
    requires
        at <= MEM_SIZE,
    ensures
        final(memory)@ == placed(old(memory)@, at as int, clipped(bytes@, MEM_SIZE - at)),
{
    let room = MEM_SIZE - at;
    let len = if bytes.len() < room {
        bytes.len()
    } else {
        room
    };
    let mut i: usize = 0;
    while i < len
        invariant
            i <= len,
            len <= bytes@.len(),
            at + len <= MEM_SIZE,
            memory@.len() == MEM_SIZE,
            forall|j: int| 0 <= j < i ==> memory@[at + j] == bytes@[j],
            forall|j: int|
                0 <= j < MEM_SIZE && !(at <= j < at + i) ==> memory@[j] == old(memory)@[j],
        decreases len - i,
    {
        memory[at + i] = bytes[i];
        i = i + 1;
    }
    assert(memory@ =~= placed(old(memory)@, at as int, clipped(bytes@, MEM_SIZE - at)));
}

/// A memory of zeros.
pub fn blank() -> (memory: [u8; MEM_SIZE])
    ensures
        memory@ == Seq::new(MEM_SIZE as nat, |i: int| 0u8),
{
    let memory = [0u8; MEM_SIZE];
    assert(memory@ =~= Seq::new(MEM_SIZE as nat, |i: int| 0u8));
    memory
}

} // verus!
