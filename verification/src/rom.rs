//! The ROM image format: 131 072 bytes, 65 536 entries of two bytes each in
//! address order, the instruction byte first.

use vstd::prelude::*;
use crate::cpu::Instr;

verus! {

/// The number of ROM entries.
pub open spec fn spec_rom_entries() -> int {
    0x10000
}

/// The byte length of a ROM image: two bytes per entry.
pub open spec fn spec_rom_image_len() -> int {
    0x20000
}

/// The entries a ROM image stands for: entry i holds bytes 2i and 2i+1.
pub open spec fn spec_decode_rom(bytes: Seq<u8>) -> Seq<Instr> {
    Seq::new(bytes.len() / 2, |i: int| Instr { ir: bytes[2 * i], d: bytes[2 * i + 1] })
}

/// The image a sequence of entries serializes to.
pub open spec fn spec_encode_rom(rom: Seq<Instr>) -> Seq<u8> {
    Seq::new(
        rom.len() * 2,
        |k: int|
            if k % 2 == 0 {
                rom[k / 2].ir
            } else {
                rom[k / 2].d
            },
    )
}

/// Decoding a ROM image into (IR, D) entries and re-serializing the entries
/// yields the image back, byte for byte.
pub proof fn lemma_rom_round_trip(bytes: Seq<u8>)
    requires
        bytes.len() == spec_rom_image_len(),
    ensures
        spec_encode_rom(spec_decode_rom(bytes)) == bytes,
{
    let rom = spec_decode_rom(bytes);
    let back = spec_encode_rom(rom);
    assert(back.len() == bytes.len());
    assert forall|k: int| 0 <= k < bytes.len() implies back[k] == bytes[k] by {
        let j = k / 2;
        if k % 2 == 0 {
            assert(2 * j == k);
        } else {
            assert(2 * j + 1 == k);
        }
    }
    assert(back =~= bytes);
}

/// Serializing entries and decoding the image yields the entries back.
pub proof fn lemma_rom_round_trip_entries(rom: Seq<Instr>)
    requires
        rom.len() == spec_rom_entries(),
    ensures
        spec_decode_rom(spec_encode_rom(rom)) == rom,
{
    let bytes = spec_encode_rom(rom);
    let back = spec_decode_rom(bytes);
    assert forall|i: int| 0 <= i < rom.len() implies back[i] == rom[i] by {
        assert((2 * i) % 2 == 0);
        assert((2 * i + 1) % 2 == 1);
        assert((2 * i) / 2 == i);
        assert((2 * i + 1) / 2 == i);
    }
    assert(back =~= rom);
}

} // verus!

