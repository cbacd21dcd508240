//! Decoding of the runtime's packed type-layout descriptors.
//!
//! A structured type's descriptor stores, for each field, its offset, size
//! and pointer-ness, packed as two little-endian words per field whose width
//! — one, two or four bytes — is chosen by a two-bit flag on the descriptor,
//! the narrowest that fits the type.  A second region lists, word by word in
//! the same width, the offsets of the internal pointers the collector must
//! track.

use vstd::prelude::*;

verus! {

/// The little-endian value of the `w` bytes of `b` starting at `off`.
pub open spec fn le_bytes(b: Seq<u8>, off: int, w: nat) -> nat
    decreases w,
{
    if w == 0 {
        0
    } else {
        (b[off] + 256 * le_bytes(b, off + 1, (w - 1) as nat)) as nat
    }
}

/// The byte width of one descriptor word under flag `flag`.
pub open spec fn desc_width(flag: u8) -> nat {
    if flag == 0 {
        1
    } else if flag == 1 {
        2
    } else {
        4
    }
}

/// Rounds `x` up to the next multiple of `sz`, where `sz` is a power of
/// two: the result is the least aligned value not below `x`.
#[allow(non_snake_case)]
#[verifier::rlimit(100)]
pub fn LLT_ALIGN(x: usize, sz: usize) -> (r: usize)
    requires
        sz >= 1,
        sz & ((sz - 1) as usize) == 0,
        x + sz - 1 <= usize::MAX,
    ensures
        r == ((x + sz - 1) as usize) & !((sz - 1) as usize),
        r % sz == 0,
        x <= r <= x + sz - 1,
{
    proof {
        let m: usize = (sz - 1) as usize;
        let s: usize = (x + sz - 1) as usize;
        assert((s & !m) % sz == 0) by (bit_vector)
            requires
                sz >= 1 && m + 1 == sz && sz & m == 0,
        ;
        assert((s & !m) <= s) by (bit_vector);
        assert(((s - (s & !m)) as usize) <= m) by (bit_vector);
    }
    (x + (sz - 1)) & !(sz - 1)
}

/// The number of extra length words an array header needs to record `ndims`
/// dimensions.
pub fn array_ndimwords(ndims: usize) -> (r: usize)
    ensures
        ndims < 3 ==> r == 0,
        ndims >= 3 ==> r == ndims - 2,
{
    if ndims < 3 {
        0
    } else {
        ndims - 2
    }
}

/// The byte size of one packed field entry — two descriptor words — under
/// flag `fielddesc_type`.  The runtime leaves the flag value 3 unused.
pub fn fielddesc_size(fielddesc_type: u8) -> (r: u32)
    requires
        fielddesc_type <= 2,
    ensures
        r == 2u32 << fielddesc_type,
        r == 2 * desc_width(fielddesc_type),
{
    proof {
        assert(2u32 << 0u8 == 2 && 2u32 << 1u8 == 4 && 2u32 << 2u8 == 8) by (bit_vector);
    }
    2u32 << fielddesc_type
}

/// Whether bit `i` is set in a bitset stored as 32-bit words; bits beyond
/// the stored words are unset.
pub open spec fn spec_bit_set(words: Seq<u32>, i: nat) -> bool {
    i / 32 < words.len() && words[(i / 32) as int] & (1u32 << (i % 32) as u32) != 0
}

/// Tests bit `i` of a bitset stored as 32-bit words; an absent bitset is
/// passed as an empty slice and holds no bits.
pub fn bit_set(words: &[u32], i: usize) -> (r: bool)
    ensures
        r == spec_bit_set(words@, i as nat),
{
    let word = i / 32;
    if word < words.len() {
        words[word] & (1u32 << ((i % 32) as u32)) != 0
    } else {
        false
    }
}

/// Whether field `i` of a type is declared atomic, from the type's
/// atomic-fields bitset; a type without the bitset has no atomic fields.
pub fn field_isatomic(atomicfields: &[u32], i: usize) -> (r: bool)
    ensures
        r == spec_bit_set(atomicfields@, i as nat),
{
    bit_set(atomicfields, i)
}

/// Whether field `i` of a type cannot be written: every field of an
/// immutable type, and the fields named by a mutable type's const-fields
/// bitset.
pub fn field_isconst(mutabl: bool, constfields: &[u32], i: usize) -> (r: bool)
    ensures
        !mutabl ==> r,
        mutabl ==> r == spec_bit_set(constfields@, i as nat),
{
    if !mutabl {
        true
    } else {
        bit_set(constfields, i)
    }
}

/// A type's layout descriptor, as handed over by the runtime: the field
/// count, the count of collector-tracked internal pointers, the two-bit
/// width flag, and the two packed byte regions the flag governs.
pub struct LayoutDesc {
    /// Number of fields described.
    pub nfields: u32,
    /// Number of internal pointers the collector must track.
    pub npointers: u32,
    /// Width flag: descriptor words are 1, 2 or 4 bytes under 0, 1 or 2.
    pub fielddesc_type: u8,
    /// The packed field entries: two words per field, size-and-pointerness
    /// then offset.
    pub fields: Vec<u8>,
    /// The packed pointer offsets: one word per tracked pointer.
    pub ptrs: Vec<u8>,
}

impl LayoutDesc {
    /// The descriptor's word width in bytes.
    pub open spec fn spec_width(&self) -> nat {
        desc_width(self.fielddesc_type)
    }

    /// Well-formed: the flag is a used value and each region holds exactly
    /// its packed words.
    pub open spec fn wf(&self) -> bool {
        &&& self.fielddesc_type <= 2
        &&& self.fields@.len() == self.nfields * 2 * self.spec_width()
        &&& self.ptrs@.len() == self.npointers * self.spec_width()
    }

    /// The packed size-and-pointerness word of field `i`: its lowest bit is
    /// the pointer-ness, the rest the size.
    pub open spec fn spec_field_word(&self, i: int) -> nat {
        le_bytes(self.fields@, i * 2 * self.spec_width(), self.spec_width())
    }

    /// The byte offset of field `i`.
    pub open spec fn spec_field_offset(&self, i: int) -> nat {
        le_bytes(self.fields@, i * 2 * self.spec_width() + self.spec_width(), self.spec_width())
    }

    /// The byte size of field `i`.
    pub open spec fn spec_field_size(&self, i: int) -> nat {
        self.spec_field_word(i) / 2
    }

    /// Whether field `i` holds a tracked pointer.
    pub open spec fn spec_field_isptr(&self, i: int) -> bool {
        self.spec_field_word(i) % 2 == 1
    }

    /// The offset word of tracked pointer `i`.
    pub open spec fn spec_ptr_offset(&self, i: int) -> nat {
        le_bytes(self.ptrs@, i * self.spec_width(), self.spec_width())
    }

    /// Builds a descriptor after validating that the regions match the flag
    /// and the counts; anything inconsistent is rejected.
    pub fn new(nfields: u32, npointers: u32, fielddesc_type: u8, fields: Vec<u8>, ptrs: Vec<u8>)
        -> (r: Option<LayoutDesc>)
        ensures
            r matches Some(d) ==> d.wf() && d.nfields == nfields && d.npointers == npointers
                && d.fielddesc_type == fielddesc_type && d.fields@ == fields@ && d.ptrs@ == ptrs@,
            r is None ==> !(LayoutDesc {
                nfields,
                npointers,
                fielddesc_type,
                fields,
                ptrs,
            }).wf(),
    {
        if fielddesc_type > 2 {
            return None;
        }
        let w: usize = if fielddesc_type == 0 {
            1
        } else if fielddesc_type == 1 {
            2
        } else {
            4
        };
        proof {
            assert((nfields as u64) * 2 * (w as u64) <= 0xFFFF_FFFFu64 * 2 * 4 && (
            npointers as u64) * (w as u64) <= 0xFFFF_FFFFu64 * 4) by (nonlinear_arith)
                requires
                    nfields <= 0xFFFF_FFFFu64 && npointers <= 0xFFFF_FFFFu64 && w <= 4,
            ;
        }
        if (fields.len() as u64) != (nfields as u64) * 2 * (w as u64) {
            return None;
        }
        if (ptrs.len() as u64) != (npointers as u64) * (w as u64) {
            return None;
        }
        Some(LayoutDesc { nfields, npointers, fielddesc_type, fields, ptrs })
    }

    /// The descriptor's word width in bytes.
    pub fn width(&self) -> (r: usize)
        requires
            self.wf(),
        ensures
            r == self.spec_width(),
    {
        if self.fielddesc_type == 0 {
            1
        } else if self.fielddesc_type == 1 {
            2
        } else {
            4
        }
    }

    /// Whether the layout hides its fields while still tracking pointers.
    pub fn is_opaque(&self) -> (r: bool)
        ensures
            r == (self.nfields == 0 && self.npointers > 0),
    {
        self.nfields == 0 && self.npointers > 0
    }

    /// The byte offset of field `i`.
    pub fn field_offset(&self, i: usize) -> (r: u32)
        requires
            self.wf(),
            i < self.nfields,
        ensures
            r == self.spec_field_offset(i as int),
    {
        let w = self.width();
        let flen = self.fields.len();
        proof {
            lemma_entry_in_bounds(self.nfields as nat, i as nat, self.spec_width());
            assert(i * 2 <= i * 2 * w) by (nonlinear_arith)
                requires
                    w >= 1,
            ;
        }
        le_word(&self.fields, i * 2 * w + w, w)
    }

    /// The byte size of field `i`.
    pub fn field_size(&self, i: usize) -> (r: u32)
        requires
            self.wf(),
            i < self.nfields,
        ensures
            r == self.spec_field_size(i as int),
    {
        let w = self.width();
        let flen = self.fields.len();
        proof {
            lemma_entry_in_bounds(self.nfields as nat, i as nat, self.spec_width());
            assert(i * 2 <= i * 2 * w) by (nonlinear_arith)
                requires
                    w >= 1,
            ;
        }
        le_word(&self.fields, i * 2 * w, w) / 2
    }

    /// Whether field `i` holds a tracked pointer.
    pub fn field_isptr(&self, i: usize) -> (r: bool)
        requires
            self.wf(),
            i < self.nfields,
        ensures
            r == self.spec_field_isptr(i as int),
    {
        let w = self.width();
        let flen = self.fields.len();
        proof {
            lemma_entry_in_bounds(self.nfields as nat, i as nat, self.spec_width());
            assert(i * 2 <= i * 2 * w) by (nonlinear_arith)
                requires
                    w >= 1,
            ;
        }
        le_word(&self.fields, i * 2 * w, w) % 2 == 1
    }

    /// The offset word of tracked pointer `i`.
    pub fn ptr_offset(&self, i: usize) -> (r: u32)
        requires
            self.wf(),
            i < self.npointers,
        ensures
            r == self.spec_ptr_offset(i as int),
    {
        let w = self.width();
        let plen = self.ptrs.len();
        proof {
            lemma_slot_in_bounds(self.npointers as nat, i as nat, self.spec_width());
        }
        le_word(&self.ptrs, i * w, w)
    }
}

/// For `i < n`, entry `i` of a two-word packed region of `n` entries lies
/// within the region.
proof fn lemma_entry_in_bounds(n: nat, i: nat, w: nat)
    requires
        i < n,
    ensures
        i * 2 * w + 2 * w <= n * 2 * w,
{
    assert((i + 1) * 2 * w <= n * 2 * w) by (nonlinear_arith)
        requires
            i + 1 <= n,
    ;
    assert((i + 1) * 2 * w == i * 2 * w + 2 * w) by (nonlinear_arith);
}

/// For `i < n`, slot `i` of a one-word packed region of `n` slots lies
/// within the region.
proof fn lemma_slot_in_bounds(n: nat, i: nat, w: nat)
    requires
        i < n,
    ensures
        i * w + w <= n * w,
{
    assert((i + 1) * w <= n * w) by (nonlinear_arith)
        requires
            i + 1 <= n,
    ;
    assert((i + 1) * w == i * w + w) by (nonlinear_arith);
}

/// Reads one little-endian descriptor word of width `w` at byte offset
/// `off`.
fn le_word(bytes: &Vec<u8>, off: usize, w: usize) -> (r: u32)
    requires
        w == 1 || w == 2 || w == 4,
        off + w <= bytes@.len(),
    ensures
        r == le_bytes(bytes@, off as int, w as nat),
{
    let blen = bytes.len();
    proof {
        reveal_with_fuel(le_bytes, 5);
    }
    if w == 1 {
        bytes[off] as u32
    } else if w == 2 {
        (bytes[off] as u32) + 256 * (bytes[off + 1] as u32)
    } else {
        (bytes[off] as u32) + 256 * (bytes[off + 1] as u32) + 65536 * (bytes[off + 2] as u32)
            + 16777216 * (bytes[off + 3] as u32)
    }
}

} // verus!
