//! The link step, as emitter and reader rely on it.
//!
//! Each compilation unit brings the records of the entities tagged in it. The
//! linker lays the records of all units into one section, unit behind unit,
//! and may pad the end of the section. Nothing here runs: the module states
//! what the table lists for a section that was laid out so.

use vstd::prelude::*;
use vstd::seq_lib::to_multiset_len;

use crate::emitter::EmissionView;
use crate::symbol::RsymtabSymbol;
use crate::table::{lemma_table_of_records, Section};

verus! {

/// The records of a build: those of its compilation units, one unit behind
/// the other, in link order.
pub open spec fn linked(units: Seq<Seq<RsymtabSymbol>>) -> Seq<RsymtabSymbol> {
    units.flatten()
}

/// The number of entities tagged in all of `units`.
pub open spec fn tagged(units: Seq<Seq<RsymtabSymbol>>) -> nat
    decreases units.len(),
{
    if units.len() == 0 {
        0
    } else {
        units.first().len() + tagged(units.drop_first())
    }
}

/// `record` is the record that was stated by `emission`: it bears the name
/// of the entity.
pub open spec fn describes(record: RsymtabSymbol, emission: EmissionView) -> bool {
    record.name@ == emission.name
}

/// No two of `emissions` are for entities of one name.
pub open spec fn distinct_names(emissions: Seq<EmissionView>) -> bool {
    forall|i: int, j: int|
        0 <= i < emissions.len() && 0 <= j < emissions.len() && i != j ==> emissions[i].name
            != emissions[j].name
}

/// Linking neither drops nor repeats a record: a build has as many records
/// as entities were tagged in its units.
pub proof fn lemma_linked_len(units: Seq<Seq<RsymtabSymbol>>)
    ensures
        linked(units).len() == tagged(units),
    decreases units.len(),
{
    if units.len() > 0 {
        lemma_linked_len(units.drop_first());
    }
}

/// The table of a build lists each tagged entity once: it has as many
/// records as entities were tagged, however they are spread over the
/// compilation units, and lists them in link order.
pub proof fn lemma_no_duplication(section: Section, units: Seq<Seq<RsymtabSymbol>>, padding: int)
    requires
        section.holds(linked(units), padding),
    ensures
        section.table() == linked(units),
        section.table().len() == tagged(units),
{
    lemma_table_of_records(section, linked(units), padding);
    lemma_linked_len(units);
}

/// The same entities give the same records, whatever the split into
/// compilation units and whatever the link order: the two tables are of one
/// length and hold the same records, each as often in one as in the other.
pub proof fn lemma_link_order_is_free(
    section: Section,
    units: Seq<Seq<RsymtabSymbol>>,
    padding: int,
    other_section: Section,
    other_units: Seq<Seq<RsymtabSymbol>>,
    other_padding: int,
)
    requires
        section.holds(linked(units), padding),
        other_section.holds(linked(other_units), other_padding),
        linked(units).to_multiset() == linked(other_units).to_multiset(),
    ensures
        section.table().len() == other_section.table().len(),
        section.table().to_multiset() == other_section.table().to_multiset(),
{
    lemma_table_of_records(section, linked(units), padding);
    lemma_table_of_records(other_section, linked(other_units), other_padding);
    to_multiset_len(linked(units));
    to_multiset_len(linked(other_units));
}

/// What was emitted comes back: where the records in a section are those of
/// `emissions`, for entities of distinct names, the table holds for each of
/// them exactly one record of its name, and that record has the address that
/// was laid down for the entity.
pub proof fn lemma_round_trip(
    section: Section,
    records: Seq<RsymtabSymbol>,
    padding: int,
    emissions: Seq<EmissionView>,
)
    requires
        section.holds(records, padding),
        records.len() == emissions.len(),
        forall|i: int| 0 <= i < records.len() ==> describes(#[trigger] records[i], emissions[i]),
        distinct_names(emissions),
    ensures
        section.table().len() == emissions.len(),
        forall|i: int|
            0 <= i < emissions.len() ==> {
                &&& describes(#[trigger] section.table()[i], emissions[i])
                &&& section.table()[i].address == records[i].address
            },
        forall|i: int, j: int|
            0 <= i < emissions.len() && 0 <= j < emissions.len() && describes(
                #[trigger] section.table()[j],
                #[trigger] emissions[i],
            ) ==> j == i,
{
    lemma_table_of_records(section, records, padding);
    assert forall|i: int, j: int|
        0 <= i < emissions.len() && 0 <= j < emissions.len() && describes(
            #[trigger] section.table()[j],
            #[trigger] emissions[i],
        ) implies j == i by {
        assert(describes(records[j], emissions[j]));
    }
}

/// The addresses come back as they were laid down: an entity that does not
/// lie at address zero is not listed there, and entities that lie at
/// different addresses are listed at different addresses.
pub proof fn lemma_addresses_stay_apart(
    section: Section,
    records: Seq<RsymtabSymbol>,
    padding: int,
)
    requires
        section.holds(records, padding),
    ensures
        forall|i: int|
            0 <= i < records.len() && records[i].address@ != 0 ==> (
            #[trigger] section.table()[i]).address@ != 0,
        forall|i: int, j: int|
            0 <= i < records.len() && 0 <= j < records.len() && records[i].address@
                != records[j].address@ ==> (#[trigger] section.table()[i]).address@ != (
            #[trigger] section.table()[j]).address@,
{
    lemma_table_of_records(section, records, padding);
}

} // verus!
