//! Tag-word decoding, layout-descriptor decoding and GC decisions.

use julia::sys::layout::{
    array_ndimwords, bit_set, field_isatomic, field_isconst, fielddesc_size, LayoutDesc,
    LLT_ALIGN,
};
use julia::sys::tag::{
    gc_bits, multi_wb_needed, store_wb_target, tagged_of, to_typeof, typetag_is, typetag_of,
    value_of, wb_back_needed, wb_needed, ThreadGcState, GC_STATE_SAFE, SMALL_TAG_LIMIT,
    SMALL_TAG_TABLE_LEN, TAG_WORD_BYTES,
};

#[test]
fn align_rounds_up_to_power_of_two() {
    assert_eq!(LLT_ALIGN(13, 8), 16);
    assert_eq!(LLT_ALIGN(16, 8), 16);
    assert_eq!(LLT_ALIGN(0, 8), 0);
    assert_eq!(LLT_ALIGN(1, 16), 16);
    assert_eq!(LLT_ALIGN(17, 16), 32);
}

#[test]
fn ndimwords_counts_extra_dimensions() {
    assert_eq!(array_ndimwords(0), 0);
    assert_eq!(array_ndimwords(1), 0);
    assert_eq!(array_ndimwords(2), 0);
    assert_eq!(array_ndimwords(3), 1);
    assert_eq!(array_ndimwords(5), 3);
}

#[test]
fn fielddesc_entry_sizes() {
    assert_eq!(fielddesc_size(0), 2);
    assert_eq!(fielddesc_size(1), 4);
    assert_eq!(fielddesc_size(2), 8);
}

#[test]
fn tag_word_addresses() {
    assert_eq!(tagged_of(0x1000), 0x1000 - TAG_WORD_BYTES);
    assert_eq!(value_of(0x1000), 0x1000 + TAG_WORD_BYTES);
}

#[test]
fn type_tag_masks_mark_bits() {
    assert_eq!(typetag_of(0x12345), 0x12340);
    assert_eq!(typetag_of(0x12340), 0x12340);
    assert!(typetag_is(0x1234f, 0x12340));
    assert!(!typetag_is(0x12350, 0x12340));
    assert_eq!(gc_bits(0x12347), 3);
    assert_eq!(gc_bits(0x12344), 0);
}

#[test]
fn small_tags_index_the_table_and_big_tags_stand_alone() {
    let mut table = vec![0usize; SMALL_TAG_TABLE_LEN];
    table[2] = 0xdead0;
    table[127] = 0xbeef0;
    // Tag 16 (the second 16-aligned slot) sits at word 2 of the table.
    assert_eq!(to_typeof(16, &table), 0xdead0);
    assert_eq!(to_typeof(SMALL_TAG_LIMIT - 8, &table), 0xbeef0);
    // At and above the threshold the tag is the type pointer itself.
    assert_eq!(to_typeof(SMALL_TAG_LIMIT, &table), SMALL_TAG_LIMIT);
    assert_eq!(to_typeof(0x7f000040, &table), 0x7f000040);
}

#[test]
fn write_barrier_decisions() {
    // Old parent (bits 3), young child (lowest bit clear): queue.
    assert!(wb_needed(3, 0));
    assert!(wb_needed(7, 4));
    // Young parent: no queueing.
    assert!(!wb_needed(0, 0));
    assert!(!wb_needed(1, 0));
    // Child already marked old: no queueing.
    assert!(!wb_needed(3, 1));
    assert!(!wb_needed(3, 3));

    assert!(wb_back_needed(3));
    assert!(!wb_back_needed(1));

    // Multi-pointer barrier also needs a tracked pointer in the child.
    assert!(multi_wb_needed(3, 0, 1));
    assert!(!multi_wb_needed(3, 0, 0));
    assert!(!multi_wb_needed(3, 3, 1));
    assert!(!multi_wb_needed(0, 0, 1));
}

#[test]
fn store_barrier_target() {
    assert_eq!(store_wb_target(0, 0, 0x10, 0x20), None);
    assert_eq!(store_wb_target(0x5, 3, 0x10, 0x20), Some(0x20));
    assert_eq!(store_wb_target(0x5, 0, 0x10, 0x20), Some(0x10));
    assert_eq!(store_wb_target(0x5, 2, 0x10, 0x20), Some(0x10));
}

#[test]
fn gc_state_transitions_poll_on_reentry() {
    let mut st = ThreadGcState::start();
    // Entering the running region from the running region: no poll.
    let (prev, poll) = st.unsafe_enter();
    assert_eq!(prev, 0);
    assert!(!poll);
    // Entering the suspendable region: no poll.
    let (prev, poll) = st.safe_enter();
    assert_eq!(prev, 0);
    assert!(!poll);
    // Re-entering the running region from the suspendable one: poll.
    let (prev, poll) = st.unsafe_enter();
    assert_eq!(prev, GC_STATE_SAFE);
    assert!(poll);
    // Leaving the running region never polls.
    assert!(!st.unsafe_leave(GC_STATE_SAFE));
    // Leaving the suspendable region polls exactly when re-entering 0.
    assert!(st.safe_leave(0));
    let _ = st.safe_enter();
    assert!(!st.safe_leave(GC_STATE_SAFE));
}

#[test]
fn bitsets_decide_atomic_and_const_fields() {
    let words = [0b1010u32, 1u32];
    assert!(!bit_set(&words, 0));
    assert!(bit_set(&words, 1));
    assert!(bit_set(&words, 3));
    assert!(bit_set(&words, 32));
    assert!(!bit_set(&words, 33));
    // Bits beyond the stored words are unset.
    assert!(!bit_set(&words, 64));
    assert!(!bit_set(&[], 0));

    assert!(field_isatomic(&words, 1));
    assert!(!field_isatomic(&[], 7));

    // Every field of an immutable type is const.
    assert!(field_isconst(false, &[], 5));
    assert!(field_isconst(true, &words, 1));
    assert!(!field_isconst(true, &words, 0));
}

#[test]
fn descriptor_validation() {
    // Flag 3 is unused.
    assert!(LayoutDesc::new(0, 0, 3, vec![], vec![]).is_none());
    // Region lengths must match the counts and the width.
    assert!(LayoutDesc::new(1, 0, 0, vec![0], vec![]).is_none());
    assert!(LayoutDesc::new(1, 1, 0, vec![0, 0], vec![]).is_none());
    assert!(LayoutDesc::new(1, 0, 0, vec![0, 0], vec![]).is_some());
}

#[test]
fn descriptor_decodes_byte_wide_entries() {
    // Two fields: size 4 pointer at offset 0, size 8 plain at offset 8; one
    // tracked pointer at offset 0.
    let fields = vec![(4 << 1) | 1, 0, 8 << 1, 8];
    let d = LayoutDesc::new(2, 1, 0, fields, vec![0]).unwrap();
    assert_eq!(d.width(), 1);
    assert_eq!(d.field_size(0), 4);
    assert!(d.field_isptr(0));
    assert_eq!(d.field_offset(0), 0);
    assert_eq!(d.field_size(1), 8);
    assert!(!d.field_isptr(1));
    assert_eq!(d.field_offset(1), 8);
    assert_eq!(d.ptr_offset(0), 0);
    assert!(!d.is_opaque());
}

#[test]
fn descriptor_decodes_two_byte_entries() {
    // One field: size 0x123, no pointer, offset 0x1234.
    let word0 = 0x123u32 << 1;
    let fields = vec![(word0 & 0xff) as u8, (word0 >> 8) as u8, 0x34, 0x12];
    let d = LayoutDesc::new(1, 0, 1, fields, vec![]).unwrap();
    assert_eq!(d.width(), 2);
    assert_eq!(d.field_size(0), 0x123);
    assert!(!d.field_isptr(0));
    assert_eq!(d.field_offset(0), 0x1234);
}

#[test]
fn descriptor_decodes_four_byte_entries() {
    // One field: size 5, pointer, offset 0x12345678; one tracked pointer at
    // offset 0x01020304.
    let word0 = (5u32 << 1) | 1;
    let fields = vec![
        (word0 & 0xff) as u8,
        ((word0 >> 8) & 0xff) as u8,
        ((word0 >> 16) & 0xff) as u8,
        ((word0 >> 24) & 0xff) as u8,
        0x78,
        0x56,
        0x34,
        0x12,
    ];
    let d = LayoutDesc::new(1, 1, 2, fields, vec![0x04, 0x03, 0x02, 0x01]).unwrap();
    assert_eq!(d.width(), 4);
    assert_eq!(d.field_size(0), 5);
    assert!(d.field_isptr(0));
    assert_eq!(d.field_offset(0), 0x12345678);
    assert_eq!(d.ptr_offset(0), 0x01020304);
}

#[test]
fn opaque_layout_hides_fields_but_tracks_pointers() {
    let d = LayoutDesc::new(0, 2, 0, vec![], vec![8, 16]).unwrap();
    assert!(d.is_opaque());
    assert_eq!(d.ptr_offset(0), 8);
    assert_eq!(d.ptr_offset(1), 16);
}
