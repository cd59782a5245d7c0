use bgdb::arch::{patched_word, ArchConfig, TRAP_WIDTH};
use bgdb::bptable::{Breakpoint, BreakpointTable};

#[test]
fn new_table_is_empty_with_first_id_one() {
    let t = BreakpointTable::new();
    assert_eq!(t.len(), 0);
    assert_eq!(t.next_id, 1);
    assert!(t.find_active(0x1000).is_none());
}

#[test]
fn insert_records_word_and_assigns_sequential_ids() {
    let mut t = BreakpointTable::new();
    let id1 = t.insert(0x1000, 0xdead_beef);
    let id2 = t.insert(0x2000, 0xcafe);
    assert_eq!(id1, 1);
    assert_eq!(id2, 2);
    assert_eq!(t.find_active(0x1000), Some((0xdead_beef, 1)));
    assert_eq!(t.find_active(0x2000), Some((0xcafe, 2)));
    assert_eq!(t.len(), 2);
}

// Planting at `a`, then correcting the program counter of a stop at
// `a + TRAP_WIDTH` back by the trap width, restores a word bit-identical
// to the pre-insert value and lands exactly on `a`.
#[test]
fn insert_then_restore_round_trip() {
    let a: u64 = 0x40_1000;
    let original: u64 = 0x1122_3344_5566_7788;
    let mut t = BreakpointTable::new();
    t.insert(a, original);
    let stopped_pc = a + TRAP_WIDTH;
    let corrected = stopped_pc - TRAP_WIDTH;
    assert_eq!(corrected, a);
    let restored = t.deactivate(corrected).unwrap();
    assert_eq!(restored, original);
    assert!(t.find_active(a).is_none());
}

// A live breakpoint blocks a second insert at the same address; the
// recorded original word stays as it was.
#[test]
fn duplicate_is_detected_while_live() {
    let mut t = BreakpointTable::new();
    t.insert(0x1000, 0xaaaa);
    assert!(t.find_active(0x1000).is_some());
    assert_eq!(t.entries[0].original_data, 0xaaaa);
}

#[test]
fn reinsert_after_restore_gets_fresh_id_and_keeps_history() {
    let mut t = BreakpointTable::new();
    t.insert(0x1000, 0xaaaa);
    t.deactivate(0x1000).unwrap();
    let id = t.insert(0x1000, 0xbbbb);
    assert_eq!(id, 2);
    assert_eq!(t.find_active(0x1000), Some((0xbbbb, 2)));
    assert_eq!(t.len(), 2);
    assert_eq!(
        t.entries[0],
        Breakpoint { addr: 0x1000, original_data: 0xaaaa, id: 1, active: false }
    );
}

#[test]
fn deactivate_unknown_address_reports_nothing() {
    let mut t = BreakpointTable::new();
    t.insert(0x1000, 0xaaaa);
    assert!(t.deactivate(0x2000).is_none());
    assert_eq!(t.find_active(0x1000), Some((0xaaaa, 1)));
}

#[test]
fn clear_empties_but_keeps_id_counter() {
    let mut t = BreakpointTable::new();
    t.insert(0x1000, 0xaaaa);
    t.insert(0x2000, 0xbbbb);
    t.clear();
    assert_eq!(t.len(), 0);
    assert_eq!(t.next_id, 3);
    let id = t.insert(0x1000, 0xcccc);
    assert_eq!(id, 3);
}

#[test]
fn patched_word_splices_trap_into_low_byte() {
    let cfg = ArchConfig::x86_64();
    let w: u64 = 0x1122_3344_5566_7788;
    let p = patched_word(&cfg, w);
    assert_eq!(p, 0x1122_3344_5566_77cc);
    assert_eq!(p & 0xff, 0xcc);
    assert_eq!(p & 0xffff_ffff_ffff_ff00, w & 0xffff_ffff_ffff_ff00);
}

#[test]
fn patched_word_32_bit_mask() {
    let cfg = ArchConfig::x86();
    let w: u64 = 0x7788_99aa;
    let p = patched_word(&cfg, w);
    assert_eq!(p, 0x7788_99cc);
}
