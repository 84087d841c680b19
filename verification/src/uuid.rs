//! Bluetooth UUIDs: the short form, its expansion against the base UUID, and
//! the byte order in which the platform stack stores the full form.

use vstd::prelude::*;

verus! {

/// The short form of the heart-rate-measurement characteristic.
pub const HEART_RATE_MEASUREMENT: u16 = 0x2A37;

/// An identifier of a GATT attribute as the transport reports it: either the
/// 16-bit short form, or all 128 bits in storage order (least significant
/// byte first). Two identifiers are the same only if they have the same form
/// and the same content.
#[derive(Clone, Copy, Debug, PartialEq, Eq)]
pub enum Uuid {
    Short(u16),
    Full([u8; 16]),
}

/// The Bluetooth base UUID `00000000-0000-1000-8000-00805F9B34FB`, most
/// significant byte first.
pub open spec fn base_uuid() -> Seq<u8> {
    seq![
        0x00u8, 0x00u8, 0x00u8, 0x00u8, 0x00u8, 0x00u8, 0x10u8, 0x00u8,
        0x80u8, 0x00u8, 0x00u8, 0x80u8, 0x5Fu8, 0x9Bu8, 0x34u8, 0xFBu8,
    ]
}

/// The full form of a short UUID as it is written: the base UUID with the
/// short form, high byte first, in its third and fourth bytes.
pub open spec fn canonical_form(short: u16) -> Seq<u8> {
    base_uuid().update(2, (short / 256) as u8).update(3, (short % 256) as u8)
}

/// The full form of a short UUID as it is stored: the written form with the
/// order of its bytes reversed.
pub open spec fn storage_form(short: u16) -> Seq<u8> {
    canonical_form(short).reverse()
}

/// The same sixteen bytes in the opposite order.
pub fn reversed(bytes: [u8; 16]) -> (out: [u8; 16])
    ensures
        out@ == bytes@.reverse(),
{
    let mut out: [u8; 16] = [0u8; 16];
    let mut i: usize = 0;
    while i < 16
        invariant
            i <= 16,
            forall|j: int| 0 <= j < i ==> out@[j] == bytes@[15 - j],
        decreases 16 - i,
    {
        out[i] = bytes[15 - i];
        i = i + 1;
    }
    assert(out@ =~= bytes@.reverse());
    out
}

/// Expands a short UUID into the 128-bit identifier that the platform stack
/// reports for the same attribute.
pub fn expand_short_uuid(short: u16) -> (full: Uuid)
    ensures
        full matches Uuid::Full(bytes) && bytes@ == storage_form(short),
{
    let high: u8 = (short / 256) as u8;
    let low: u8 = (short % 256) as u8;
    let written: [u8; 16] = [
        0x00, 0x00, high, low, 0x00, 0x00, 0x10, 0x00,
        0x80, 0x00, 0x00, 0x80, 0x5F, 0x9B, 0x34, 0xFB,
    ];
    assert(written@ =~= canonical_form(short));
    Uuid::Full(reversed(written))
}

/// Whether two stored forms hold the same bytes.
fn same_bytes(a: &[u8; 16], b: &[u8; 16]) -> (same: bool)
    ensures
        same == (a@ == b@),
{
    let mut i: usize = 0;
    while i < 16
        invariant
            i <= 16,
            forall|j: int| 0 <= j < i ==> a@[j] == b@[j],
        decreases 16 - i,
    {
        if a[i] != b[i] {
            return false;
        }
        i = i + 1;
    }
    assert(a@ =~= b@);
    true
}

impl Uuid {
    /// Whether two identifiers are exactly the same.
    pub fn matches(&self, other: &Uuid) -> (same: bool)
        ensures
            same == (*self == *other),
    {
        match (self, other) {
            (Uuid::Short(a), Uuid::Short(b)) => *a == *b,
            (Uuid::Full(a), Uuid::Full(b)) => {
                let same = same_bytes(a, b);
                assert((a@ == b@) == (*a == *b)) by {
                    if a@ == b@ {
                        assert(*a =~= *b);
                    }
                }
                same
            },
            _ => false,
        }
    }
}

/// The short form can be read back from bytes 12 and 13 of the stored form,
/// and every other byte is the base UUID's.
pub proof fn lemma_expansion_keeps_short_form(short: u16)
    ensures
        storage_form(short).len() == 16,
        storage_form(short)[13] as int * 256 + storage_form(short)[12] as int == short,
        forall|i: int|
            0 <= i < 16 && i != 12 && i != 13 ==> storage_form(short)[i] == base_uuid()[15 - i],
{
}

/// Distinct short forms expand to distinct identifiers.
pub proof fn lemma_expansion_is_injective(a: u16, b: u16)
    requires
        storage_form(a) == storage_form(b),
    ensures
        a == b,
{
    lemma_expansion_keeps_short_form(a);
    lemma_expansion_keeps_short_form(b);
}

/// Reversing the stored form gives the written form back.
pub proof fn lemma_storage_form_reversed_is_written(short: u16)
    ensures
        storage_form(short).reverse() == canonical_form(short),
{
    assert(canonical_form(short).reverse().reverse() =~= canonical_form(short));
}

} // verus!
