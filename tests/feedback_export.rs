use sigmanest_interface::error::Error;
use sigmanest_interface::export::{export_feedback, export_nest};
use sigmanest_interface::feedback::{classify, FeedbackEntry, Nest, Phase, TransactionType};
use sigmanest_interface::records::Part;
use sigmanest_interface::row::{Cell, Real, Row, Value};

fn cell(column: &str, value: Value) -> Cell {
    Cell { column: column.to_string(), value }
}

fn text(s: &str) -> Value {
    Value::Text(s.to_string())
}

fn measure(x: f64) -> Value {
    Value::Real(Real { bits: x.to_bits() })
}

fn program_row(name: &str, repeat: i32, code: &str, packet: i32) -> Row {
    Row {
        cells: vec![
            cell("ProgramName", text(name)),
            cell("RepeatID", Value::Int(repeat)),
            cell("ArchivePacketID", Value::Int(packet)),
            cell("TransType", text(code)),
            cell("MachineName", text("LASER1")),
            cell("CuttingTime", measure(212.4)),
            cell("SheetName", text("SHT-221")),
            cell("PrimeCode", text("A36-0250")),
        ],
    }
}

fn part_row(program: &str, repeat: i32, part: &str) -> Row {
    Row {
        cells: vec![
            cell("ProgramName", text(program)),
            cell("RepeatID", Value::Int(repeat)),
            cell("PartName", text(part)),
            cell("QtyInProcess", Value::Int(4)),
            cell("Job", text("J1002")),
            cell("Shipment", Value::Int(3)),
            cell("TrueArea", measure(12.1)),
            cell("NestedArea", measure(14.0)),
        ],
    }
}

fn remnant_row(program: &str, repeat: i32, remnant: &str) -> Row {
    Row {
        cells: vec![
            cell("RemnantName", text(remnant)),
            cell("ProgramName", text(program)),
            cell("RepeatID", Value::Int(repeat)),
            cell("Length", measure(40.0)),
            cell("Width", measure(12.0)),
            cell("Area", measure(480.0)),
        ],
    }
}

fn sheet_row(program: &str, repeat: i32, sheet: &str) -> Row {
    Row {
        cells: vec![
            cell("ProgramName", text(program)),
            cell("RepeatID", Value::Int(repeat)),
            cell("SheetName", text(sheet)),
            cell("MaterialMaster", text("A36-0250")),
        ],
    }
}

fn part_names(nest: &Nest) -> Vec<String> {
    nest.parts.iter().map(|p| p.part_name.clone()).collect()
}

fn remnant_names(nest: &Nest) -> Vec<String> {
    nest.remnants.iter().map(|r| r.remnant_name.clone()).collect()
}

fn created(entry: &FeedbackEntry<Nest>) -> &Nest {
    match &entry.state {
        TransactionType::Created(nest) => nest,
        other => panic!("expected a creation, got {:?}", other),
    }
}

#[test]
fn classify_known_and_unknown_codes() {
    assert_eq!(classify("SN100").unwrap(), Phase::Created);
    assert_eq!(classify("SN101").unwrap(), Phase::Deleted);
    assert_eq!(classify("SN102").unwrap(), Phase::Updated);
    match classify("SN199") {
        Err(Error::UnknownTransactionCode(code)) => assert_eq!(code, "SN199"),
        other => panic!("unexpected {:?}", other),
    }
}

#[test]
fn end_to_end_snapshot() {
    let programs = vec![program_row("PRG1", 0, "SN100", 1), program_row("PRG2", 1, "SN101", 2)];
    let parts = vec![part_row("PRG1", 0, "A"), part_row("PRG1", 0, "B")];
    let remnants = vec![remnant_row("PRG1", 0, "X")];
    let entries = export_feedback(&programs, &parts, &remnants).unwrap();
    assert_eq!(entries.len(), 2);
    assert_eq!(entries[0].archive_packet_id, 1);
    let nest = created(&entries[0]);
    assert_eq!(nest.program.program_name, "PRG1");
    assert_eq!(nest.program.repeat_id, 0);
    assert_eq!(nest.program.machine_name, "LASER1");
    assert_eq!(f64::from_bits(nest.program.cutting_time.bits), 212.4);
    assert_eq!(nest.sheet.sheet_name, "SHT-221");
    assert_eq!(nest.sheet.material_master, "A36-0250");
    assert_eq!(part_names(nest), vec!["A", "B"]);
    assert_eq!(remnant_names(nest), vec!["X"]);
    assert_eq!(entries[1].archive_packet_id, 2);
    assert!(matches!(entries[1].state, TransactionType::Deleted));
}

#[test]
fn marker_codes_carry_no_payload() {
    let programs = vec![program_row("PRG1", 0, "SN101", 5), program_row("PRG1", 0, "SN102", 6)];
    let parts = vec![part_row("PRG1", 0, "A")];
    let entries = export_feedback(&programs, &parts, &vec![]).unwrap();
    assert!(matches!(entries[0].state, TransactionType::Deleted));
    assert!(matches!(entries[1].state, TransactionType::Updated));
}

#[test]
fn unknown_code_fails_the_export() {
    let programs = vec![program_row("PRG1", 0, "SN100", 1), program_row("PRG2", 0, "XX9", 2)];
    match export_feedback(&programs, &vec![], &vec![]) {
        Err(Error::UnknownTransactionCode(code)) => assert_eq!(code, "XX9"),
        other => panic!("unexpected {:?}", other),
    }
}

#[test]
fn entries_keep_source_order() {
    let programs = vec![
        program_row("C", 0, "SN102", 30),
        program_row("A", 0, "SN100", 10),
        program_row("B", 2, "SN101", 20),
    ];
    let entries = export_feedback(&programs, &vec![], &vec![]).unwrap();
    let ids: Vec<i32> = entries.iter().map(|e| e.archive_packet_id).collect();
    assert_eq!(ids, vec![30, 10, 20]);
}

#[test]
fn repeats_of_one_program_stay_apart() {
    let programs = vec![program_row("PRG1", 0, "SN100", 1), program_row("PRG1", 1, "SN100", 2)];
    let parts = vec![part_row("PRG1", 1, "B"), part_row("PRG1", 0, "A")];
    let remnants = vec![remnant_row("PRG1", 0, "X"), remnant_row("PRG1", 1, "Y")];
    let entries = export_feedback(&programs, &parts, &remnants).unwrap();
    assert_eq!(part_names(created(&entries[0])), vec!["A"]);
    assert_eq!(remnant_names(created(&entries[0])), vec!["X"]);
    assert_eq!(part_names(created(&entries[1])), vec!["B"]);
    assert_eq!(remnant_names(created(&entries[1])), vec!["Y"]);
}

#[test]
fn two_creations_of_one_key_both_get_the_children() {
    let programs = vec![program_row("PRG1", 0, "SN100", 1), program_row("PRG1", 0, "SN100", 2)];
    let parts = vec![part_row("PRG1", 0, "A")];
    let entries = export_feedback(&programs, &parts, &vec![]).unwrap();
    assert_eq!(part_names(created(&entries[0])), vec!["A"]);
    assert_eq!(part_names(created(&entries[1])), vec!["A"]);
}

#[test]
fn export_twice_gives_equal_results() {
    let programs = vec![program_row("PRG1", 0, "SN100", 1), program_row("PRG2", 1, "SN102", 2)];
    let parts = vec![part_row("PRG1", 0, "A"), part_row("PRG1", 0, "B")];
    let remnants = vec![remnant_row("PRG1", 0, "X")];
    let first = export_feedback(&programs, &parts, &remnants).unwrap();
    let second = export_feedback(&programs, &parts, &remnants).unwrap();
    assert_eq!(format!("{:?}", first), format!("{:?}", second));
}

#[test]
fn missing_true_area_fails_the_whole_export() {
    let programs = vec![program_row("PRG1", 0, "SN100", 1)];
    let mut bad = part_row("PRG1", 0, "B");
    bad.cells.retain(|c| c.column != "TrueArea");
    let parts = vec![part_row("PRG1", 0, "A"), bad];
    match export_feedback(&programs, &parts, &vec![]) {
        Err(Error::MissingColumn(names)) => assert_eq!(names, vec!["TrueArea"]),
        other => panic!("unexpected {:?}", other),
    }
}

#[test]
fn empty_source_gives_no_entries() {
    let entries = export_feedback(&vec![], &vec![], &vec![]).unwrap();
    assert!(entries.is_empty());
}

#[test]
fn point_lookup_of_an_absent_program_is_not_found() {
    let programs = vec![program_row("PRG1", 0, "SN100", 1)];
    let result = export_nest("PRG9", &programs, &vec![], &vec![], &vec![]).unwrap();
    assert!(matches!(result, TransactionType::NotFound));
    let result = export_nest("PRG9", &vec![], &vec![], &vec![], &vec![]).unwrap();
    assert!(matches!(result, TransactionType::NotFound));
}

#[test]
fn point_lookup_assembles_the_last_repeat() {
    let programs = vec![program_row("PRG1", 0, "SN100", 1), program_row("PRG1", 1, "SN100", 2)];
    let parts = vec![part_row("PRG1", 0, "A"), part_row("PRG1", 1, "B")];
    let sheets = vec![sheet_row("PRG1", 0, "S0"), sheet_row("PRG1", 1, "S1")];
    let remnants = vec![remnant_row("PRG1", 1, "Y"), remnant_row("PRG1", 0, "X")];
    match export_nest("PRG1", &programs, &parts, &sheets, &remnants).unwrap() {
        TransactionType::Created(nest) => {
            assert_eq!(nest.program.repeat_id, 1);
            assert_eq!(nest.sheet.sheet_name, "S1");
            assert_eq!(part_names(&nest), vec!["B"]);
            assert_eq!(remnant_names(&nest), vec!["Y"]);
        }
        other => panic!("unexpected {:?}", other),
    }
}

#[test]
fn point_lookup_without_sheet_is_an_error() {
    let programs = vec![program_row("PRG1", 0, "SN100", 1)];
    let sheets = vec![sheet_row("PRG1", 3, "S3")];
    match export_nest("PRG1", &programs, &vec![], &sheets, &vec![]) {
        Err(Error::NotFound(name)) => assert_eq!(name, "PRG1"),
        other => panic!("unexpected {:?}", other),
    }
}

#[test]
fn states_compare_by_phase_only() {
    let a: TransactionType<i32> = TransactionType::Created(1);
    let b: TransactionType<String> = TransactionType::Created("x".to_string());
    let c: TransactionType<String> = TransactionType::Deleted;
    assert!(a.same_phase(&b));
    assert!(!a.same_phase(&c));
    assert_eq!(a.tcode(), "SN100");
    assert_eq!(c.tcode(), "SN101");
    assert_eq!(TransactionType::<u8>::Updated.tcode(), "SN102");
    assert_eq!(a.unwrap(), 1);
}

#[test]
fn entries_change_payload_type_only_without_payload() {
    let deleted: FeedbackEntry<i32> = FeedbackEntry { archive_packet_id: 7, state: TransactionType::Deleted };
    let moved: FeedbackEntry<String> = deleted.without_payload().unwrap();
    assert_eq!(moved.archive_packet_id, 7);
    assert!(deleted.same_entry(&moved));
    let made: FeedbackEntry<i32> = FeedbackEntry { archive_packet_id: 7, state: TransactionType::Created(3) };
    assert!(made.without_payload::<String>().is_none());
    assert!(!made.same_entry(&moved));
}

#[test]
fn archive_rows_read_as_record_entries() {
    let mut row = part_row("PRG1", 0, "A");
    row.cells.push(cell("ArchivePacketID", Value::Int(11)));
    row.cells.push(cell("TransType", text("SN100")));
    let entry = FeedbackEntry::<Part>::from_row(&row).unwrap();
    assert_eq!(entry.archive_packet_id, 11);
    match entry.state {
        TransactionType::Created(part) => assert_eq!(part.part_name, "A"),
        other => panic!("unexpected {:?}", other),
    }
    let marker = Row {
        cells: vec![cell("ArchivePacketID", Value::Int(12)), cell("TransType", text("SN102"))],
    };
    let entry = FeedbackEntry::<Part>::from_row(&marker).unwrap();
    assert!(matches!(entry.state, TransactionType::Updated));
    let unknown = Row {
        cells: vec![cell("ArchivePacketID", Value::Int(13)), cell("TransType", text("SN1"))],
    };
    assert!(matches!(FeedbackEntry::<Part>::from_row(&unknown), Err(Error::UnknownTransactionCode(_))));
    let no_id = Row { cells: vec![cell("TransType", text("SN101"))] };
    assert!(matches!(FeedbackEntry::<Part>::from_row(&no_id), Err(Error::MissingColumn(_))));
}
