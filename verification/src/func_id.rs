//! Function identifiers: a family in the upper sixteen bits, a command code in
//! the lower sixteen.

use vstd::prelude::*;

verus! {

/// The identifier of command `command` in family `family`.
pub open spec fn func_id_of(family: u16, command: u16) -> u32 {
    (family as int * 0x1_0000 + command as int) as u32
}

/// The family that an identifier belongs to.
pub open spec fn family_of_id(id: u32) -> u16 {
    (id as int / 0x1_0000) as u16
}

/// The command code that an identifier carries.
pub open spec fn command_of_id(id: u32) -> u16 {
    (id as int % 0x1_0000) as u16
}

/// Packs a family and a command code into one identifier.
pub fn encode_id(family: u16, command: u16) -> (id: u32)
    ensures
        id == func_id_of(family, command),
        id == ((family as u32) << 16) | (command as u32),
        id as int == family as int * 0x1_0000 + command as int,
{
    let high: u32 = (family as u32) << 16;
    let low: u32 = command as u32;
    proof {
        assert(((family as u32) << 16) == (family as u32) * 0x1_0000u32) by (bit_vector);
        assert((family as u32) * 0x1_0000u32 <= 0xffff_0000u32) by (bit_vector);
        assert(((family as u32) << 16) + (command as u32) == ((family as u32) << 16) | (
        command as u32)) by (bit_vector);
    }
    high + low
}

/// The upper sixteen bits of an identifier.
pub fn decode_family(id: u32) -> (family: u16)
    ensures
        family == family_of_id(id),
        family as u32 == id >> 16,
{
    proof {
        assert(id >> 16 == id / 0x1_0000u32) by (bit_vector);
        assert(id >> 16 <= 0xffffu32) by (bit_vector);
    }
    (id >> 16) as u16
}

/// The lower sixteen bits of an identifier.
pub fn decode_command(id: u32) -> (command: u16)
    ensures
        command == command_of_id(id),
        command as u32 == id & 0xffff,
{
    proof {
        assert(id & 0xffff == id % 0x1_0000u32) by (bit_vector);
    }
    (id & 0xffff) as u16
}

/// Packing a family and a command code and taking the identifier apart again
/// gives both back.
pub proof fn lemma_id_round_trip(family: u16, command: u16)
    ensures
        family_of_id(func_id_of(family, command)) == family,
        command_of_id(func_id_of(family, command)) == command,
{
}

/// Two pairs of family and command code share an identifier only if they are
/// the same pair.
pub proof fn lemma_id_injective(f1: u16, c1: u16, f2: u16, c2: u16)
    requires
        func_id_of(f1, c1) == func_id_of(f2, c2),
    ensures
        f1 == f2,
        c1 == c2,
{
    lemma_id_round_trip(f1, c1);
    lemma_id_round_trip(f2, c2);
}

/// Every identifier is the packing of its own family and command code.
pub proof fn lemma_id_rebuild(id: u32)
    ensures
        func_id_of(family_of_id(id), command_of_id(id)) == id,
{
}

} // verus!
