use rsymtab::{align_down, record_count, symbols, RsymtabSymbol, Section, SymbolAddress};

const RECORD_SIZE: usize = 24;
const START: usize = 0x40_0000;

fn record(name: &'static str, address: usize) -> RsymtabSymbol {
    RsymtabSymbol { name, address: SymbolAddress::_from_reference(address) }
}

fn names(table: &[RsymtabSymbol]) -> Vec<&'static str> {
    table.iter().map(|symbol| symbol.name).collect()
}

fn addresses(table: &[RsymtabSymbol]) -> Vec<usize> {
    table.iter().map(|symbol| symbol.address.as_usize()).collect()
}

fn link(units: Vec<Vec<RsymtabSymbol>>) -> Vec<RsymtabSymbol> {
    units.into_iter().flatten().collect()
}

#[test]
fn align_down_gives_the_multiple_below() {
    assert_eq!(align_down(10, 4), 8);
    assert_eq!(align_down(77, 24), 72);
    assert_eq!(align_down(95, 24), 72);
    assert_eq!(align_down(96, 24), 96);
}

#[test]
fn align_down_keeps_a_multiple() {
    assert_eq!(align_down(0, 24), 0);
    assert_eq!(align_down(72, 24), 72);
    assert_eq!(align_down(4096, 4096), 4096);
    assert_eq!(align_down(37, 1), 37);
}

#[test]
fn align_down_of_less_than_one_alignment_is_zero() {
    assert_eq!(align_down(23, 24), 0);
    assert_eq!(align_down(1, 2), 0);
}

#[test]
fn align_down_near_the_top_of_the_range() {
    assert_eq!(align_down(usize::MAX, 1), usize::MAX);
    assert_eq!(align_down(usize::MAX, 2), usize::MAX - 1);
    assert_eq!(align_down(usize::MAX, usize::MAX), usize::MAX);
}

#[test]
fn record_count_is_the_floor_of_the_quotient() {
    assert_eq!(record_count(START, START, RECORD_SIZE), 0);
    assert_eq!(record_count(START, START + 23, RECORD_SIZE), 0);
    assert_eq!(record_count(START, START + 24, RECORD_SIZE), 1);
    assert_eq!(record_count(START, START + 72, RECORD_SIZE), 3);
    assert_eq!(record_count(START, START + 77, RECORD_SIZE), 3);
    assert_eq!(record_count(START, START + 95, RECORD_SIZE), 3);
    assert_eq!(record_count(START, START + 96, RECORD_SIZE), 4);
}

#[test]
fn record_count_over_the_whole_address_space() {
    assert_eq!(record_count(0, usize::MAX, 16), usize::MAX / 16);
    assert_eq!(record_count(usize::MAX, usize::MAX, 16), 0);
}

#[test]
fn build_without_tagged_entities_has_an_empty_table() {
    let memory: Vec<RsymtabSymbol> = Vec::new();
    let section = Section { start: START, end: START, record_size: RECORD_SIZE, memory: &memory };
    let table = symbols(&section);
    assert_eq!(table.len(), 0);
    assert!(table.is_empty());
}

#[test]
fn empty_section_reads_nothing_of_what_lies_behind_it() {
    let memory = vec![record("neighbour", 0x1000)];
    let section = Section { start: START, end: START, record_size: RECORD_SIZE, memory: &memory };
    assert_eq!(symbols(&section).len(), 0);
}

#[test]
fn section_of_whole_records_lists_all_of_them() {
    let memory = vec![record("foo", 0x1000), record("bar", 0x1010), record("FOO", 0x2000)];
    let section = Section {
        start: START,
        end: START + 3 * RECORD_SIZE,
        record_size: RECORD_SIZE,
        memory: &memory,
    };
    let table = symbols(&section);
    assert_eq!(names(table), vec!["foo", "bar", "FOO"]);
    assert_eq!(addresses(table), vec![0x1000, 0x1010, 0x2000]);
}

#[test]
fn trailing_padding_yields_no_record() {
    let memory = vec![
        record("foo", 0x1000),
        record("bar", 0x1010),
        record("FOO", 0x2000),
        record("made of padding", 0xffff),
    ];
    let mut padding = 0;
    while padding < RECORD_SIZE {
        let section = Section {
            start: START,
            end: START + 3 * RECORD_SIZE + padding,
            record_size: RECORD_SIZE,
            memory: &memory,
        };
        let table = symbols(&section);
        assert_eq!(table.len(), 3);
        assert_eq!(table.len(), (section.end - section.start) / RECORD_SIZE);
        assert_eq!(names(table), vec!["foo", "bar", "FOO"]);
        padding += 1;
    }
}

#[test]
fn section_shorter_than_one_record_is_empty() {
    let memory = vec![record("made of padding", 0xffff)];
    let section =
        Section { start: START, end: START + 23, record_size: RECORD_SIZE, memory: &memory };
    assert_eq!(symbols(&section).len(), 0);
}

#[test]
fn table_borrows_the_memory_of_the_section() {
    let memory = vec![record("foo", 0x1000), record("bar", 0x1010)];
    let section = Section {
        start: START,
        end: START + 2 * RECORD_SIZE,
        record_size: RECORD_SIZE,
        memory: &memory,
    };
    let table = symbols(&section);
    assert!(std::ptr::eq(&table[0], &memory[0]));
    assert!(std::ptr::eq(&table[1], &memory[1]));
}

#[test]
fn reading_twice_gives_the_same_table() {
    let memory = vec![record("foo", 0x1000), record("bar", 0x1010), record("FOO", 0x2000)];
    let section = Section {
        start: START,
        end: START + 3 * RECORD_SIZE + 5,
        record_size: RECORD_SIZE,
        memory: &memory,
    };
    let first = symbols(&section);
    let second = symbols(&section);
    let third = symbols(&section);
    assert_eq!(names(first), names(second));
    assert_eq!(names(second), names(third));
    assert_eq!(addresses(first), addresses(second));
    assert_eq!(addresses(second), addresses(third));
    assert_eq!(names(first), vec!["foo", "bar", "FOO"]);
}

#[test]
fn each_entity_is_listed_once_however_the_units_are_split() {
    let splits: Vec<Vec<Vec<RsymtabSymbol>>> = vec![
        vec![vec![record("foo", 0x1000), record("bar", 0x1010), record("FOO", 0x2000)]],
        vec![vec![record("foo", 0x1000)], vec![record("bar", 0x1010), record("FOO", 0x2000)]],
        vec![vec![record("foo", 0x1000)], vec![record("bar", 0x1010)], vec![record("FOO", 0x2000)]],
        vec![vec![], vec![record("foo", 0x1000), record("bar", 0x1010)], vec![], vec![record("FOO", 0x2000)]],
    ];
    for units in splits {
        let memory = link(units);
        let section = Section {
            start: START,
            end: START + memory.len() * RECORD_SIZE,
            record_size: RECORD_SIZE,
            memory: &memory,
        };
        let table = symbols(&section);
        assert_eq!(table.len(), 3);
        assert_eq!(names(table), vec!["foo", "bar", "FOO"]);
    }
}

#[test]
fn each_entity_is_listed_once_whatever_the_link_order() {
    let orders: Vec<Vec<Vec<RsymtabSymbol>>> = vec![
        vec![vec![record("foo", 0x1000)], vec![record("bar", 0x1010), record("FOO", 0x2000)]],
        vec![vec![record("bar", 0x1010), record("FOO", 0x2000)], vec![record("foo", 0x1000)]],
        vec![vec![record("FOO", 0x2000)], vec![record("bar", 0x1010)], vec![record("foo", 0x1000)]],
    ];
    for units in orders {
        let memory = link(units);
        let section = Section {
            start: START,
            end: START + memory.len() * RECORD_SIZE + 3,
            record_size: RECORD_SIZE,
            memory: &memory,
        };
        let table = symbols(&section);
        assert_eq!(table.len(), 3);
        let mut listed = names(table);
        listed.sort();
        assert_eq!(listed, vec!["FOO", "bar", "foo"]);
        for name in ["foo", "bar", "FOO"] {
            assert_eq!(table.iter().filter(|symbol| symbol.name == name).count(), 1);
        }
    }
}

#[test]
fn table_keeps_the_link_order() {
    let memory = link(vec![
        vec![record("zeta", 0x3000), record("alpha", 0x1000)],
        vec![record("mid", 0x2000)],
    ]);
    let section = Section {
        start: START,
        end: START + 3 * RECORD_SIZE,
        record_size: RECORD_SIZE,
        memory: &memory,
    };
    assert_eq!(names(symbols(&section)), vec!["zeta", "alpha", "mid"]);
}

#[test]
fn record_size_is_that_of_the_section() {
    let memory = vec![record("a", 0x10), record("b", 0x20), record("c", 0x30), record("d", 0x40)];
    let narrow = Section { start: 0x100, end: 0x100 + 50, record_size: 12, memory: &memory };
    assert_eq!(names(symbols(&narrow)), vec!["a", "b", "c", "d"]);
    let wide = Section { start: 0x100, end: 0x100 + 50, record_size: 24, memory: &memory };
    assert_eq!(names(symbols(&wide)), vec!["a", "b"]);
}
