use sigmanest_interface::error::Error;
use sigmanest_interface::records::{Part, Record};
use sigmanest_interface::row::{get, get_code, get_int, get_real, get_text, Cell, Real, Row, Value};

fn cell(column: &str, value: Value) -> Cell {
    Cell { column: column.to_string(), value }
}

fn text(s: &str) -> Value {
    Value::Text(s.to_string())
}

fn measure(x: f64) -> Value {
    Value::Real(Real { bits: x.to_bits() })
}

fn missing(err: Error) -> Vec<String> {
    match err {
        Error::MissingColumn(names) => names,
        other => panic!("expected a missing column, got {:?}", other),
    }
}

#[test]
fn first_alias_with_a_value_wins() {
    let row = Row { cells: vec![cell("QtyInProcess", Value::Int(7)), cell("Qty", Value::Int(4))] };
    assert_eq!(get_int(&row, &["Qty", "QtyInProcess"]).unwrap(), 4);
    assert_eq!(get_int(&row, &["QtyInProcess", "Qty"]).unwrap(), 7);
}

#[test]
fn null_alias_falls_back_to_the_next() {
    let row = Row { cells: vec![cell("Qty", Value::Null), cell("QtyInProcess", Value::Int(9))] };
    assert_eq!(get_int(&row, &["Qty", "QtyInProcess"]).unwrap(), 9);
    match get(&row, &["Qty", "QtyInProcess"]).unwrap() {
        Value::Int(v) => assert_eq!(*v, 9),
        other => panic!("unexpected {:?}", other),
    }
}

#[test]
fn first_cell_of_a_repeated_column_is_read() {
    let row = Row { cells: vec![cell("Job", text("J1")), cell("Job", text("J2"))] };
    assert_eq!(get_text(&row, &["Job"]).unwrap(), "J1");
}

#[test]
fn null_text_defaults_to_empty() {
    let row = Row { cells: vec![cell("Job", Value::Null)] };
    assert_eq!(get_text(&row, &["Job", "Data1"]).unwrap(), "");
}

#[test]
fn absent_text_is_a_missing_column() {
    let row = Row { cells: vec![cell("Other", text("x"))] };
    assert_eq!(missing(get_text(&row, &["Job", "Data1"]).unwrap_err()), vec!["Job", "Data1"]);
}

#[test]
fn null_number_never_defaults() {
    let row = Row { cells: vec![cell("TrueArea", Value::Null)] };
    assert_eq!(missing(get_real(&row, &["TrueArea"]).unwrap_err()), vec!["TrueArea"]);
    let row = Row { cells: vec![cell("Shipment", Value::Null)] };
    assert_eq!(missing(get_int(&row, &["Shipment"]).unwrap_err()), vec!["Shipment"]);
}

#[test]
fn null_code_never_defaults() {
    let row = Row { cells: vec![cell("TransType", Value::Null)] };
    assert_eq!(missing(get_code(&row, &["TransType"]).unwrap_err()), vec!["TransType"]);
}

#[test]
fn value_of_another_type_is_a_missing_column() {
    let row = Row { cells: vec![cell("RepeatID", text("zero"))] };
    assert_eq!(missing(get_int(&row, &["RepeatID", "RepeatId"]).unwrap_err()), vec!["RepeatID", "RepeatId"]);
}

#[test]
fn measure_keeps_its_bits() {
    let row = Row { cells: vec![cell("Area", measure(480.0))] };
    assert_eq!(f64::from_bits(get_real(&row, &["Area"]).unwrap().bits), 480.0);
}

#[test]
fn part_reads_every_column() {
    let row = Row {
        cells: vec![
            cell("PartName", text("BRK-01")),
            cell("QtyInProcess", Value::Int(4)),
            cell("Job", text("J1002")),
            cell("Shipment", Value::Int(3)),
            cell("TrueArea", measure(12.1)),
            cell("NestedArea", measure(14.0)),
        ],
    };
    let part = Part::from_row(&row).unwrap();
    assert_eq!(part.part_name, "BRK-01");
    assert_eq!(part.part_qty, 4);
    assert_eq!(part.job, "J1002");
    assert_eq!(part.shipment, 3);
    assert_eq!(f64::from_bits(part.true_area.bits), 12.1);
    assert_eq!(f64::from_bits(part.nested_area.bits), 14.0);
}

#[test]
fn part_without_true_area_is_not_zero_filled() {
    let row = Row {
        cells: vec![
            cell("PartName", text("BRK-01")),
            cell("Qty", Value::Int(4)),
            cell("Job", text("J1002")),
            cell("Shipment", Value::Int(3)),
            cell("NestedArea", measure(14.0)),
        ],
    };
    assert_eq!(missing(Part::from_row(&row).unwrap_err()), vec!["TrueArea"]);
}
