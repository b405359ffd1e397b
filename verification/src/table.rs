//! Reading the table: from the two bounds of the section to the records
//! that lie between them.
//!
//! The linker puts the descriptor records of every compilation unit side by
//! side in one region of memory and resolves two symbols to its first byte
//! and to the byte after its last. The region may end in padding, so its
//! length need not be a multiple of the size of a record: the reader counts
//! the whole records and leaves the rest alone.

use vstd::arithmetic::div_mod::{
    lemma_fundamental_div_mod, lemma_fundamental_div_mod_converse, lemma_mod_multiples_basic,
};
use vstd::prelude::*;
use vstd::slice::slice_subrange;

use crate::symbol::RsymtabSymbol;

verus! {

/// The largest multiple of `alignment` that is not above `value`.
pub open spec fn align_down_spec(value: int, alignment: int) -> int {
    (value / alignment) * alignment
}

/// The number of whole records of `record_size` bytes in `byte_len` bytes.
pub open spec fn whole_records(byte_len: int, record_size: int) -> int {
    byte_len / record_size
}

/// Rounds `value` down to a multiple of `alignment`.
pub fn align_down(value: usize, alignment: usize) -> (aligned: usize)
    requires
        alignment > 0,
    ensures
        aligned == align_down_spec(value as int, alignment as int),
        aligned % alignment == 0,
        aligned <= value < aligned + alignment,
{
    let quotient: usize = value / alignment;
    proof {
        lemma_align_down(value as int, alignment as int);
    }
    quotient * alignment
}

/// The number of whole records between the bounds `start` and `end`.
pub fn record_count(start: usize, end: usize, record_size: usize) -> (count: usize)
    requires
        start <= end,
        record_size > 0,
    ensures
        count == whole_records(end - start, record_size as int),
        count * record_size <= end - start < (count + 1) * record_size,
{
    let unaligned_len_in_bytes: usize = end - start;
    let len_in_bytes: usize = align_down(unaligned_len_in_bytes, record_size);
    proof {
        lemma_align_down(unaligned_len_in_bytes as int, record_size as int);
        lemma_fundamental_div_mod_converse(
            len_in_bytes as int,
            record_size as int,
            unaligned_len_in_bytes as int / record_size as int,
            0,
        );
        let quotient = unaligned_len_in_bytes as int / record_size as int;
        assert((quotient + 1) * record_size == quotient * record_size + record_size)
            by (nonlinear_arith);
    }
    len_in_bytes / record_size
}

/// The section as the loader left it.
///
/// `start` and `end` are the two bounds. `memory` is what lies at `start`,
/// seen one record after the other: `memory[i]` is what a reader finds
/// `i * record_size` bytes behind `start`. It may go on behind `end`; what it
/// holds there is no record of the table.
pub struct Section<'a> {
    /// The address of the first byte of the section.
    pub start: usize,
    /// The address of the byte behind the last one of the section.
    pub end: usize,
    /// The size of one record, in bytes.
    pub record_size: usize,
    /// What lies at `start`, record by record.
    pub memory: &'a [RsymtabSymbol],
}

impl<'a> Section<'a> {
    /// The bounds are in order, a record has a size, and every whole record
    /// of the section is backed by memory.
    pub open spec fn wf(&self) -> bool {
        &&& self.start <= self.end
        &&& self.record_size > 0
        &&& self.record_count() <= self.memory@.len()
    }

    /// The length of the section in bytes.
    pub open spec fn byte_len(&self) -> int {
        self.end - self.start
    }

    /// The number of whole records in the section.
    pub open spec fn record_count(&self) -> int {
        whole_records(self.byte_len(), self.record_size as int)
    }

    /// The records of the section, in the order in which they lie in it.
    pub open spec fn table(&self) -> Seq<RsymtabSymbol> {
        self.memory@.subrange(0, self.record_count())
    }

    /// The section holds `records`, one behind the other from its start on,
    /// and `padding` bytes behind the last of them.
    pub open spec fn holds(&self, records: Seq<RsymtabSymbol>, padding: int) -> bool {
        &&& self.record_size > 0
        &&& 0 <= padding < self.record_size
        &&& self.byte_len() == records.len() * self.record_size + padding
        &&& records.len() <= self.memory@.len()
        &&& self.memory@.subrange(0, records.len() as int) == records
    }
}

/// The records of `section`, in the order in which they lie in it.
///
/// The view borrows the memory of the section: nothing is copied. Bytes
/// behind the last whole record are left out.
pub fn symbols<'a>(section: &Section<'a>) -> (table: &'a [RsymtabSymbol])
    requires
        section.wf(),
    ensures
        table@ == section.table(),
        table@.len() == whole_records(section.byte_len(), section.record_size as int),
{
    let len: usize = record_count(section.start, section.end, section.record_size);
    slice_subrange(section.memory, 0, len)
}

/// Rounding down gives a multiple of the alignment, and the one that lies
/// less than one alignment below the value.
pub proof fn lemma_align_down(value: int, alignment: int)
    requires
        0 <= value,
        0 < alignment,
    ensures
        align_down_spec(value, alignment) % alignment == 0,
        0 <= align_down_spec(value, alignment) <= value,
        value < align_down_spec(value, alignment) + alignment,
        0 <= value / alignment,
{
    lemma_fundamental_div_mod(value, alignment);
    lemma_mod_multiples_basic(value / alignment, alignment);
    assert((value / alignment) * alignment == alignment * (value / alignment))
        by (nonlinear_arith);
    assert(0 <= value % alignment < alignment);
    assert(0 <= value / alignment) by (nonlinear_arith)
        requires
            0 <= value,
            0 < alignment,
    ;
}

/// A section with no byte in it has no record.
pub proof fn lemma_empty_section(section: Section)
    requires
        section.wf(),
        section.start == section.end,
    ensures
        section.table() == Seq::<RsymtabSymbol>::empty(),
{
    assert(0int / (section.record_size as int) == 0) by (nonlinear_arith)
        requires
            section.record_size > 0,
    ;
}

/// What a section holds is what its table lists: every record, once, in
/// the order in which it lies there, and nothing made of the padding.
pub proof fn lemma_table_of_records(section: Section, records: Seq<RsymtabSymbol>, padding: int)
    requires
        section.holds(records, padding),
    ensures
        section.wf(),
        section.record_count() == records.len(),
        section.table() == records,
{
    lemma_fundamental_div_mod_converse(
        section.byte_len(),
        section.record_size as int,
        records.len() as int,
        padding,
    );
}

/// Padding behind the last record does not change the table: the records
/// are `floor(byte_len / record_size)` many, whatever is left over.
pub proof fn lemma_padding_tolerance(section: Section, padded: Section)
    requires
        section.wf(),
        section.byte_len() % (section.record_size as int) == 0,
        padded.start == section.start,
        padded.record_size == section.record_size,
        padded.memory == section.memory,
        section.end <= padded.end < section.end + section.record_size,
    ensures
        padded.wf(),
        padded.table() == section.table(),
{
    let size = section.record_size as int;
    lemma_fundamental_div_mod(section.byte_len(), size);
    assert(size * (section.byte_len() / size) == (section.byte_len() / size) * size)
        by (nonlinear_arith);
    lemma_fundamental_div_mod_converse(
        padded.byte_len(),
        size,
        section.byte_len() / size,
        padded.end - section.end,
    );
}

/// The table is a function of the section alone: two readings of one
/// section list the same records in the same order.
pub proof fn lemma_reading_is_stable(
    section: Section,
    first: &[RsymtabSymbol],
    second: &[RsymtabSymbol],
)
    requires
        call_ensures(symbols, (&section,), first),
        call_ensures(symbols, (&section,), second),
    ensures
        first@ == second@,
{
}

} // verus!
