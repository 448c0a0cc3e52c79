use neocrystal::backend::{Drawn, Execute, Recorder};
use neocrystal::instruction::{Instruction, InstructionModifier};
use neocrystal::ui::UI;

#[derive(Clone, Copy, PartialEq, Debug)]
enum Field {
    A,
    B,
    C,
}

/// A backend written outside the library: it counts what it is asked to do.
struct Counter {
    cursors: usize,
    blobs: usize,
    flushes: usize,
}

struct CounterExec;

impl Execute<Counter> for CounterExec {
    fn cursor(_x: usize, _y: usize, interface: &mut Counter) {
        interface.cursors += 1;
    }

    fn blob(_bytes: &[u8], _color: u32, interface: &mut Counter) {
        interface.blobs += 1;
    }

    fn flush(interface: &mut Counter) {
        interface.flushes += 1;
    }
}

fn frame(ui: &mut UI<Field>) -> Vec<Drawn> {
    let mut recorder = Recorder::new();
    ui.draw::<Recorder, Recorder>(&mut recorder);
    recorder.log
}

fn live_ids(ui: &UI<Field>) -> Vec<Field> {
    let mut ids = Vec::new();
    for e in ui.get_ownership() {
        if e.is_live() {
            ids.push(*e.get_id());
        }
    }
    ids
}

fn single(x: usize, y: usize, offset: usize, length: usize, color: u32) -> Instruction {
    Instruction { target: (x, y), offset, length, color, modifier: InstructionModifier::SI }
}

#[test]
fn overlapping_declaration_removes_the_older_region_at_the_next_frame() {
    let mut ui: UI<Field> = UI::new(20, 5);
    ui.allocate(&Field::A, (2, 6), (1, 2));
    ui.allocate(&Field::B, (7, 4), (2, 1));
    // Removal is deferred: both entries are still in the table, A marked.
    assert_eq!(ui.get_ownership().len(), 2);
    assert_eq!(live_ids(&ui), vec![Field::B]);
    assert_eq!(ui.get_range(&Field::A), None);
    frame(&mut ui);
    assert_eq!(ui.get_ownership().len(), 1);
    assert_eq!(*ui.get_ownership()[0].get_id(), Field::B);
    assert_eq!(ui.get_ownership()[0].range_x, (7, 4));
    assert_eq!(ui.get_ownership()[0].range_y, (2, 1));
}

#[test]
fn regions_that_only_touch_both_stay() {
    let mut ui: UI<Field> = UI::new(20, 5);
    ui.allocate(&Field::A, (2, 5), (1, 1));
    ui.allocate(&Field::B, (7, 5), (1, 1));
    ui.allocate(&Field::C, (2, 5), (2, 1));
    frame(&mut ui);
    assert_eq!(live_ids(&ui), vec![Field::A, Field::B, Field::C]);
}

#[test]
fn declaring_an_owner_again_replaces_its_region() {
    let mut ui: UI<Field> = UI::new(20, 5);
    ui.allocate(&Field::A, (0, 4), (0, 1));
    ui.allocate(&Field::A, (10, 6), (3, 1));
    assert_eq!(ui.get_range(&Field::A), Some(6));
    frame(&mut ui);
    assert_eq!(ui.get_ownership().len(), 1);
    assert_eq!(ui.get_ownership()[0].range_x, (10, 6));
}

#[test]
fn instructions_against_a_region_about_to_be_replaced_still_run() {
    let mut ui: UI<Field> = UI::new(20, 5);
    ui.allocate(&Field::A, (0, 4), (0, 1));
    ui.write(&Field::A, 0, 0, "abcd", 2);
    ui.allocate(&Field::B, (2, 4), (0, 1));
    assert_eq!(
        frame(&mut ui),
        vec![Drawn::Cursor(0, 0), Drawn::Blob(b"abcd".to_vec(), 2), Drawn::Flush]
    );
    assert_eq!(live_ids(&ui), vec![Field::B]);
}

#[test]
fn dropped_owner_is_not_found_and_leaves_at_the_next_frame() {
    let mut ui: UI<Field> = UI::new(20, 5);
    ui.allocate(&Field::A, (0, 4), (0, 1));
    ui.allocate(&Field::B, (5, 4), (0, 1));
    ui.drop_ownership(&Field::A);
    assert_eq!(ui.get_range(&Field::A), None);
    assert_eq!(ui.get_range(&Field::B), Some(4));
    ui.write(&Field::A, 0, 0, "ab", 1);
    assert!(ui.instructions().is_empty());
    assert!(ui.bytes().is_empty());
    frame(&mut ui);
    assert_eq!(ui.get_ownership().len(), 1);
    assert_eq!(live_ids(&ui), vec![Field::B]);
}

#[test]
fn text_that_does_not_fit_changes_nothing() {
    let mut ui: UI<Field> = UI::new(20, 5);
    ui.allocate(&Field::A, (3, 5), (1, 1));
    ui.write(&Field::A, 0, 0, "ok", 1);
    let instructions = ui.instructions().clone();
    let bytes = ui.bytes().clone();
    ui.write(&Field::A, 0, 0, "sixsix", 1);
    ui.write(&Field::A, 4, 0, "ab", 1);
    ui.write(&Field::A, 6, 0, "", 1);
    ui.write(&Field::A, usize::MAX, 0, "a", 1);
    ui.write_simx(&Field::A, 0, 0, "ab", 1, 3);
    ui.write_simx(&Field::A, 0, 0, "ab", 1, usize::MAX);
    ui.write_simy(&Field::A, 0, 0, "sixsix", 1, 1);
    assert_eq!(ui.instructions(), &instructions);
    assert_eq!(ui.bytes(), &bytes);
}

#[test]
fn write_to_an_unknown_owner_changes_nothing() {
    let mut ui: UI<Field> = UI::new(20, 5);
    ui.allocate(&Field::A, (3, 5), (1, 1));
    ui.write(&Field::B, 0, 0, "ab", 1);
    ui.write_simx(&Field::B, 0, 0, "a", 1, 2);
    ui.write_simy(&Field::B, 0, 0, "a", 1, 1);
    ui.empty_instruction(&Field::B, 0);
    assert!(ui.instructions().is_empty());
    assert!(ui.bytes().is_empty());
    assert_eq!(frame(&mut ui), vec![Drawn::Flush]);
}

#[test]
fn write_on_a_row_off_the_grid_changes_nothing() {
    let mut ui: UI<Field> = UI::new(20, 5);
    ui.allocate(&Field::A, (3, 5), (4, 1));
    ui.write(&Field::A, 0, 1, "ab", 1);
    ui.write(&Field::A, 0, usize::MAX, "ab", 1);
    assert!(ui.instructions().is_empty());
    // A row of the grid below the region is still written to.
    let mut ui: UI<Field> = UI::new(20, 5);
    ui.allocate(&Field::A, (3, 5), (1, 1));
    ui.write(&Field::A, 0, 3, "abcde", 1);
    assert_eq!(ui.instructions(), &vec![single(3, 4, 0, 5, 1)]);
}

#[test]
fn short_text_is_preceded_by_a_fill_of_the_whole_row() {
    let mut ui: UI<Field> = UI::new(20, 5);
    ui.allocate(&Field::A, (3, 5), (1, 1));
    ui.write(&Field::A, 0, 0, "AB", 7);
    assert_eq!(ui.instructions(), &vec![single(3, 1, 0, 5, 0), single(3, 1, 5, 2, 7)]);
    assert_eq!(ui.bytes(), &b"     AB".to_vec());
    assert_eq!(
        frame(&mut ui),
        vec![
            Drawn::Cursor(3, 1),
            Drawn::Blob(b"     ".to_vec(), 0),
            Drawn::Cursor(3, 1),
            Drawn::Blob(b"AB".to_vec(), 7),
            Drawn::Flush,
        ]
    );
}

#[test]
fn text_at_an_offset_is_drawn_at_the_offset_and_filled_from_the_edge() {
    let mut ui: UI<Field> = UI::new(20, 5);
    ui.allocate(&Field::A, (3, 5), (1, 2));
    ui.write(&Field::A, 3, 1, "AB", 7);
    assert_eq!(ui.instructions(), &vec![single(3, 2, 0, 5, 0), single(6, 2, 5, 2, 7)]);
}

#[test]
fn text_as_wide_as_the_region_is_one_instruction() {
    let mut ui: UI<Field> = UI::new(20, 5);
    ui.allocate(&Field::A, (3, 5), (1, 1));
    ui.write(&Field::A, 0, 0, "ABCDE", 7);
    assert_eq!(ui.instructions(), &vec![single(3, 1, 0, 5, 7)]);
    assert_eq!(ui.bytes(), &b"ABCDE".to_vec());
}

#[test]
fn empty_text_only_blanks_the_row() {
    let mut ui: UI<Field> = UI::new(20, 5);
    ui.allocate(&Field::A, (3, 5), (1, 2));
    ui.write(&Field::A, 0, 1, "", 7);
    assert_eq!(ui.instructions(), &vec![single(3, 2, 0, 5, 0)]);
    assert_eq!(ui.bytes(), &b"     ".to_vec());
}

#[test]
fn empty_instruction_is_a_write_of_no_text() {
    let mut blank: UI<Field> = UI::new(20, 5);
    blank.allocate(&Field::A, (3, 5), (1, 2));
    blank.empty_instruction(&Field::A, 1);
    let mut written: UI<Field> = UI::new(20, 5);
    written.allocate(&Field::A, (3, 5), (1, 2));
    written.write(&Field::A, 0, 1, "", 0);
    assert_eq!(blank.instructions(), written.instructions());
    assert_eq!(blank.bytes(), written.bytes());
    assert_eq!(blank.instructions(), &vec![single(3, 2, 0, 5, 0)]);
}

#[test]
fn region_without_columns_takes_nothing() {
    let mut ui: UI<Field> = UI::new(20, 5);
    ui.allocate(&Field::A, (3, 0), (1, 1));
    ui.write(&Field::A, 0, 0, "", 7);
    ui.empty_instruction(&Field::A, 0);
    ui.write(&Field::A, 0, 0, "a", 7);
    assert!(ui.instructions().is_empty());
}

#[test]
fn fill_uses_the_glyph_of_the_region_once_per_column() {
    let mut ui: UI<Field> = UI::new(20, 5);
    ui.c_alloc(&Field::A, (1, 3), (0, 1), Some(String::from("─")));
    ui.c_alloc(&Field::B, (5, 2), (0, 1), None);
    ui.write(&Field::A, 0, 0, "a", 4);
    ui.write(&Field::B, 1, 0, "b", 5);
    assert_eq!(
        frame(&mut ui),
        vec![
            Drawn::Cursor(1, 0),
            Drawn::Blob("───".as_bytes().to_vec(), 0),
            Drawn::Cursor(1, 0),
            Drawn::Blob(b"a".to_vec(), 4),
            Drawn::Cursor(5, 0),
            Drawn::Blob(b"  ".to_vec(), 0),
            Drawn::Cursor(6, 0),
            Drawn::Blob(b"b".to_vec(), 5),
            Drawn::Flush,
        ]
    );
}

#[test]
fn after_a_frame_the_buffer_is_empty_whatever_was_written() {
    let mut ui: UI<Field> = UI::new(20, 5);
    ui.allocate(&Field::A, (3, 5), (1, 3));
    for row in 0..3 {
        ui.write(&Field::A, 0, row, "ab", 1);
        ui.write_simx(&Field::A, 0, row, "-", 1, 5);
    }
    ui.inject_si(0, 0, "+", 0);
    assert_eq!(ui.instructions().len(), 10);
    let ops = frame(&mut ui);
    assert_eq!(ops.iter().filter(|op| **op == Drawn::Flush).count(), 1);
    assert_eq!(ops.last(), Some(&Drawn::Flush));
    assert!(ui.instructions().is_empty());
    assert!(ui.bytes().is_empty());
    // A second execution in the same cycle draws nothing and flushes once.
    assert_eq!(frame(&mut ui), vec![Drawn::Flush]);
}

#[test]
fn a_backend_from_outside_sees_one_flush_per_frame() {
    let mut ui: UI<Field> = UI::new(20, 5);
    ui.allocate(&Field::B, (0, 4), (0, 2));
    ui.write(&Field::B, 0, 0, "ab", 1);
    ui.write(&Field::B, 0, 1, "abcd", 1);
    let mut counter = Counter { cursors: 0, blobs: 0, flushes: 0 };
    ui.draw::<Counter, CounterExec>(&mut counter);
    assert_eq!((counter.cursors, counter.blobs, counter.flushes), (3, 3, 1));
    ui.draw::<Counter, CounterExec>(&mut counter);
    assert_eq!((counter.cursors, counter.blobs, counter.flushes), (3, 3, 2));
}

#[test]
fn repeated_columns_are_one_instruction_with_the_whole_run() {
    let mut ui: UI<Field> = UI::new(20, 5);
    ui.allocate(&Field::A, (3, 5), (1, 1));
    ui.write_simx(&Field::A, 0, 0, "-", 3, 5);
    assert_eq!(ui.instructions(), &vec![single(3, 1, 0, 5, 3)]);
    assert_eq!(ui.bytes(), &b"-----".to_vec());
    assert_eq!(
        frame(&mut ui),
        vec![Drawn::Cursor(3, 1), Drawn::Blob(b"-----".to_vec(), 3), Drawn::Flush]
    );
}

#[test]
fn repeated_columns_shorter_than_the_row_are_filled_first() {
    let mut ui: UI<Field> = UI::new(20, 5);
    ui.allocate(&Field::A, (3, 8), (1, 1));
    ui.write_simx(&Field::A, 1, 0, "ab", 3, 3);
    assert_eq!(ui.instructions(), &vec![single(3, 1, 0, 8, 0), single(4, 1, 8, 6, 3)]);
    assert_eq!(ui.bytes(), &b"        ababab".to_vec());
}

#[test]
fn repeated_columns_of_nothing_only_blank() {
    let mut ui: UI<Field> = UI::new(20, 5);
    ui.allocate(&Field::A, (3, 5), (1, 1));
    ui.write_simx(&Field::A, 0, 0, "ab", 3, 0);
    assert_eq!(ui.instructions(), &vec![single(3, 1, 0, 5, 0)]);
    ui.write_simx(&Field::A, 0, 0, "", 3, 4);
    assert_eq!(ui.instructions(), &vec![single(3, 1, 0, 5, 0), single(3, 1, 5, 5, 0)]);
}

#[test]
fn repeated_rows_are_one_instruction_replayed_row_by_row() {
    let mut ui: UI<Field> = UI::new(20, 6);
    ui.allocate(&Field::A, (4, 1), (1, 4));
    ui.write_simy(&Field::A, 0, 1, "|", 6, 3);
    assert_eq!(
        ui.instructions(),
        &vec![Instruction {
            target: (4, 2),
            offset: 0,
            length: 1,
            color: 6,
            modifier: InstructionModifier::SIM(3),
        }]
    );
    assert_eq!(ui.bytes(), &b"|".to_vec());
    assert_eq!(
        frame(&mut ui),
        vec![
            Drawn::Cursor(4, 2),
            Drawn::Blob(b"|".to_vec(), 6),
            Drawn::Cursor(4, 3),
            Drawn::Blob(b"|".to_vec(), 6),
            Drawn::Cursor(4, 4),
            Drawn::Blob(b"|".to_vec(), 6),
            Drawn::Flush,
        ]
    );
}

#[test]
fn repeated_rows_that_leave_the_region_change_nothing() {
    let mut ui: UI<Field> = UI::new(20, 6);
    ui.allocate(&Field::A, (4, 1), (1, 4));
    ui.write_simy(&Field::A, 0, 2, "|", 6, 3);
    ui.write_simy(&Field::A, 0, 0, "|", 6, 5);
    ui.write_simy(&Field::A, 0, 0, "|", 6, usize::MAX);
    assert!(ui.instructions().is_empty());
    ui.write_simy(&Field::A, 0, 0, "|", 6, 4);
    assert_eq!(ui.instructions().len(), 1);
}

#[test]
fn repeated_rows_of_short_text_blank_the_first_row() {
    let mut ui: UI<Field> = UI::new(20, 6);
    ui.allocate(&Field::A, (4, 3), (1, 4));
    ui.write_simy(&Field::A, 1, 0, "|", 6, 2);
    assert_eq!(
        frame(&mut ui),
        vec![
            Drawn::Cursor(4, 1),
            Drawn::Blob(b"   ".to_vec(), 0),
            Drawn::Cursor(5, 1),
            Drawn::Blob(b"|".to_vec(), 6),
            Drawn::Cursor(5, 2),
            Drawn::Blob(b"|".to_vec(), 6),
            Drawn::Flush,
        ]
    );
}

#[test]
fn shorter_text_in_the_next_frame_leaves_no_residue() {
    let mut ui: UI<Field> = UI::new(20, 5);
    ui.allocate(&Field::A, (2, 10), (1, 1));
    ui.write(&Field::A, 0, 0, "hello", 1);
    assert_eq!(
        frame(&mut ui),
        vec![
            Drawn::Cursor(2, 1),
            Drawn::Blob(b"          ".to_vec(), 0),
            Drawn::Cursor(2, 1),
            Drawn::Blob(b"hello".to_vec(), 1),
            Drawn::Flush,
        ]
    );
    ui.write(&Field::A, 0, 0, "hi", 1);
    assert_eq!(ui.instructions(), &vec![single(2, 1, 0, 10, 0), single(2, 1, 10, 2, 1)]);
    assert_eq!(
        frame(&mut ui),
        vec![
            Drawn::Cursor(2, 1),
            Drawn::Blob(b"          ".to_vec(), 0),
            Drawn::Cursor(2, 1),
            Drawn::Blob(b"hi".to_vec(), 1),
            Drawn::Flush,
        ]
    );
}

#[test]
fn inject_ignores_regions_and_never_blanks() {
    let mut ui: UI<Field> = UI::new(20, 5);
    ui.allocate(&Field::A, (3, 5), (1, 1));
    ui.inject_si(2, 1, "[abcdefg]", 8);
    ui.inject_si(0, 0, "", 8);
    ui.inject_simx(0, 4, "=", 2, 20);
    ui.inject_simx(0, 0, "", 2, 20);
    ui.inject_simy(19, 0, "|", 3, 5);
    ui.inject_simy(0, 0, "", 3, 5);
    ui.inject_simyx(1, 1, "ab", 4, 2, 3);
    ui.inject_simyx(1, 1, "", 4, 2, 3);
    assert_eq!(
        ui.instructions(),
        &vec![
            single(2, 1, 0, 9, 8),
            single(0, 4, 9, 20, 2),
            Instruction {
                target: (19, 0),
                offset: 29,
                length: 1,
                color: 3,
                modifier: InstructionModifier::SIM(5),
            },
            Instruction {
                target: (1, 1),
                offset: 30,
                length: 6,
                color: 4,
                modifier: InstructionModifier::SIM(2),
            },
        ]
    );
    assert_eq!(ui.bytes(), &b"[abcdefg]====================|ababab".to_vec());
    let ops = frame(&mut ui);
    assert_eq!(ops.len(), 2 + 2 + 10 + 4 + 1);
    assert_eq!(ops[14], Drawn::Cursor(1, 1));
    assert_eq!(ops[15], Drawn::Blob(b"ababab".to_vec(), 4));
    assert_eq!(ops[16], Drawn::Cursor(1, 2));
    assert_eq!(ops[17], Drawn::Blob(b"ababab".to_vec(), 4));
}

#[test]
fn inject_of_no_copies_queues_an_empty_placement() {
    let mut ui: UI<Field> = UI::new(20, 5);
    ui.inject_simx(1, 2, "ab", 5, 0);
    assert_eq!(ui.instructions(), &vec![single(1, 2, 0, 0, 5)]);
    assert!(ui.bytes().is_empty());
    ui.inject_simy(1, 2, "ab", 5, 0);
    assert_eq!(
        frame(&mut ui),
        vec![Drawn::Cursor(1, 2), Drawn::Blob(Vec::new(), 5), Drawn::Flush]
    );
}

#[test]
fn lookup_finds_the_first_live_region_of_an_owner() {
    let mut ui: UI<Field> = UI::new(30, 5);
    assert_eq!(ui.get_range(&Field::A), None);
    ui.allocate(&Field::A, (0, 4), (0, 1));
    ui.allocate(&Field::B, (5, 7), (0, 1));
    assert_eq!(ui.get_range(&Field::A), Some(4));
    assert_eq!(ui.get_range(&Field::B), Some(7));
    assert_eq!(ui.get_range(&Field::C), None);
}

#[test]
fn cell_numbers_count_rows_first() {
    let ui: UI<Field> = UI::new(50, 20);
    assert_eq!((ui.width(), ui.height()), (50, 20));
    assert_eq!(ui.idx(0, 0), Some(0));
    assert_eq!(ui.idx(3, 2), Some(103));
    assert_eq!(ui.idx(49, 19), Some(999));
    assert_eq!(ui.idx(50, 0), None);
    assert_eq!(ui.idx(0, 20), None);
}

#[test]
fn dropping_an_owner_marks_its_element() {
    let mut table_of_one: UI<Field> = UI::new(10, 2);
    table_of_one.allocate(&Field::A, (0, 4), (0, 1));
    assert!(table_of_one.get_ownership()[0].is_live());
    assert_eq!(table_of_one.get_ownership()[0].get_range_x(), (0, 4));
    assert_eq!(table_of_one.get_ownership()[0].get_range_y(), (0, 1));
    table_of_one.drop_ownership(&Field::A);
    assert!(!table_of_one.get_ownership()[0].is_live());
}
