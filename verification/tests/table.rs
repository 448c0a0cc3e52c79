use neocrystal::backend::{Drawn, Recorder};
use neocrystal::instruction::{Instruction, InstructionModifier, InstructionTable};
use neocrystal::trace::dump;
use neocrystal::ui::UI;

#[test]
fn si_blob_points_at_what_it_appended() {
    let mut table = InstructionTable::new();
    table.si_blob(b"abc", 1, 2, 3);
    table.si_blob(b"de", 4, 5, 6);
    assert_eq!(table.bytes(), &b"abcde".to_vec());
    assert_eq!(
        table.instructions(),
        &vec![
            Instruction {
                target: (1, 2),
                offset: 0,
                length: 3,
                color: 3,
                modifier: InstructionModifier::SI,
            },
            Instruction {
                target: (4, 5),
                offset: 3,
                length: 2,
                color: 6,
                modifier: InstructionModifier::SI,
            },
        ]
    );
}

#[test]
fn sim_blob_stores_the_bytes_once() {
    let mut table = InstructionTable::new();
    table.sim_blob("│".as_bytes(), 49, 1, 0, 18);
    assert_eq!(table.bytes().len(), 3);
    assert_eq!(
        table.instructions(),
        &vec![Instruction {
            target: (49, 1),
            offset: 0,
            length: 3,
            color: 0,
            modifier: InstructionModifier::SIM(18),
        }]
    );
    let mut recorder = Recorder::new();
    table.execute::<Recorder, Recorder>(&mut recorder);
    assert_eq!(recorder.log.len(), 2 * 18 + 1);
    assert_eq!(recorder.log[34], Drawn::Cursor(49, 18));
    assert_eq!(recorder.log[35], Drawn::Blob("│".as_bytes().to_vec(), 0));
}

#[test]
fn fake_sim_writes_the_copies_out() {
    let mut table = InstructionTable::new();
    table.si_blob(b"x", 0, 0, 0);
    table.fake_sim(b"ab", 2, 3, 4, 3);
    assert_eq!(table.bytes(), &b"xababab".to_vec());
    assert_eq!(
        table.instructions()[1],
        Instruction {
            target: (2, 3),
            offset: 1,
            length: 6,
            color: 4,
            modifier: InstructionModifier::SI,
        }
    );
}

#[test]
fn execute_only_reads_the_table() {
    let mut table = InstructionTable::new();
    table.si_blob(b"abc", 1, 2, 3);
    let mut recorder = Recorder::new();
    table.execute::<Recorder, Recorder>(&mut recorder);
    table.execute::<Recorder, Recorder>(&mut recorder);
    assert_eq!(
        recorder.log,
        vec![
            Drawn::Cursor(1, 2),
            Drawn::Blob(b"abc".to_vec(), 3),
            Drawn::Flush,
            Drawn::Cursor(1, 2),
            Drawn::Blob(b"abc".to_vec(), 3),
            Drawn::Flush,
        ]
    );
    table.clear();
    assert!(table.instructions().is_empty());
    assert!(table.bytes().is_empty());
}

#[test]
fn the_trace_lists_every_instruction_with_its_bytes() {
    let mut table = InstructionTable::new();
    table.si_blob(b"00:56", 12, 17, 0);
    table.sim_blob("\u{2502}".as_bytes(), 49, 1, 3, 18);
    table.fake_sim(b"", 0, 0, 7, 4);
    assert_eq!(
        dump(&table),
        "=== Instruction dump ===\n\
         blob size: 8 bytes\n\
         instruction count: 3\n\
         \n\
         0000: Instruction SI\n      goto 12 17\n      attr 0\n      byte 0 5\n      bytes: [30, 30, 3A, 35, 36]\n\
         0001: Instruction SIM(18)\n      goto 49 1\n      attr 3\n      byte 5 3\n      bytes: [E2, 94, 82]\n\
         0002: Instruction SI\n      goto 0 0\n      attr 7\n      byte 8 0\n      bytes: []\n"
    );
}

#[test]
fn the_trace_of_an_empty_frame_is_its_head() {
    let ui: UI<u8> = UI::new(4, 4);
    assert_eq!(
        ui.trace(),
        "=== Instruction dump ===\nblob size: 0 bytes\ninstruction count: 0\n\n"
    );
    let mut busy: UI<u8> = UI::new(4, 4);
    for _ in 0..12 {
        busy.inject_si(1, 2, "\u{7f}", 255);
    }
    let text = busy.trace();
    assert!(text.contains("instruction count: 12\n"));
    assert!(text.contains("0011: Instruction SI\n      goto 1 2\n      attr 255\n      byte 11 1\n      bytes: [7F]\n"));
}
