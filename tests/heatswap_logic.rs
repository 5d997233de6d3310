use sigmanest_interface::dbconfig::{get_database_config, Authentication};
use sigmanest_interface::nc::{archive_file_name, check_request, decimal, leaves_queue, nc_file_name, ArchiveOutcome, Program, RequestError};
use sigmanest_interface::row::{Cell, Row, Value};
use sigmanest_interface::simtrans::{parse_args, ArgsError, Invocation};
use sigmanest_interface::text::split_text;

fn args(list: &[&str]) -> Vec<String> {
    list.iter().map(|s| s.to_string()).collect()
}

#[test]
fn split_keeps_empty_pieces() {
    assert_eq!(split_text("a;b;", ';'), vec!["a", "b", ""]);
    assert_eq!(split_text("", ';'), vec![""]);
    assert_eq!(split_text("k=v=w", '='), vec!["k", "v", "w"]);
}

#[test]
fn connection_string_with_login() {
    let cfg = get_database_config(" Data Source = SQL1 ;Initial Catalog=SNDB; User ID=sn ;Password=pw;");
    assert_eq!(cfg.host.as_deref(), Some("SQL1"));
    assert_eq!(cfg.database.as_deref(), Some("SNDB"));
    match cfg.authentication() {
        Authentication::SqlServer { user, password } => {
            assert_eq!(user, "sn");
            assert_eq!(password, "pw");
        }
        other => panic!("unexpected {:?}", other),
    }
}

#[test]
fn connection_string_without_password_uses_integrated() {
    let cfg = get_database_config("Data Source=A;Data Source=B;User ID=sn;Trusted=yes;junk");
    assert_eq!(cfg.host.as_deref(), Some("B"));
    assert_eq!(cfg.database, None);
    assert!(matches!(cfg.authentication(), Authentication::Integrated));
}

#[test]
fn value_stops_at_a_second_equals_sign() {
    let cfg = get_database_config("Password=a=b;User ID=u");
    assert_eq!(cfg.password.as_deref(), Some("a"));
}

#[test]
fn decimal_digits() {
    assert_eq!(decimal(0), "0");
    assert_eq!(decimal(7), "7");
    assert_eq!(decimal(10), "10");
    assert_eq!(decimal(4294967295), "4294967295");
}

#[test]
fn nc_and_archive_file_names() {
    assert_eq!(nc_file_name("PRG1", ".nc"), "PRG1.nc");
    assert_eq!(archive_file_name("PRG1", 0, ".nc"), "PRG1.nc");
    assert_eq!(archive_file_name("PRG1", 1, ".nc"), "PRG1_1.nc");
    assert_eq!(archive_file_name("PRG1", 12, ".nc"), "PRG1_12.nc");
}

#[test]
fn queue_row_defaults_and_description() {
    let row = Row {
        cells: vec![
            Cell { column: "Id".to_string(), value: Value::Null },
            Cell { column: "ProgramName".to_string(), value: Value::Text("PRG1".to_string()) },
            Cell { column: "MachineName".to_string(), value: Value::Text("LASER1".to_string()) },
        ],
    };
    let program = Program::from_row(&row);
    assert_eq!(program.id, 0);
    assert_eq!(program.describe(), "PRG1 at LASER1");
    assert_eq!(program.file_name(".nc"), "PRG1.nc");
    let empty = Program::from_row(&Row { cells: vec![] });
    assert_eq!(empty.name, "");
    assert_eq!(empty.machine, "");
}

#[test]
fn queue_entry_leaves_unless_archiving_failed() {
    assert!(leaves_queue(ArchiveOutcome::Moved));
    assert!(leaves_queue(ArchiveOutcome::SourceMissing));
    assert!(!leaves_queue(ArchiveOutcome::Failed));
}

#[test]
fn simtrans_arguments() {
    match parse_args(&args(&["simtrans-exec", "qas", "postexec"])).unwrap() {
        Invocation::Run(p) => {
            assert_eq!(p.server, "hiisqlserv6");
            assert_eq!(p.database, "SNInterQas");
            assert_eq!(p.query, "EXEC sap.SimTransPostExec;");
        }
        other => panic!("unexpected {:?}", other),
    }
    match parse_args(&args(&["simtrans-exec", "prd", "preexec"])).unwrap() {
        Invocation::Run(p) => {
            assert_eq!(p.server, "HSSSNData");
            assert_eq!(p.database, "SNInterPrd");
            assert_eq!(p.query, "EXEC sap.SimTransPreExec;");
        }
        other => panic!("unexpected {:?}", other),
    }
    assert!(matches!(parse_args(&args(&["simtrans-exec", "-h", "x"])), Ok(Invocation::Help)));
    assert!(matches!(parse_args(&args(&["simtrans-exec", "dev"])), Err(ArgsError::NotEnoughArguments)));
    assert!(matches!(parse_args(&args(&["simtrans-exec", "uat", "preexec"])), Err(ArgsError::InvalidEnvironment(e)) if e == "uat"));
    assert!(matches!(parse_args(&args(&["simtrans-exec", "dev", "exec"])), Err(ArgsError::InvalidPhase(p)) if p == "exec"));
}

#[test]
fn move_code_request_checks_in_order() {
    assert_eq!(check_request("invalid", "invalid", ""), Err(RequestError::InvalidProgramName));
    assert_eq!(check_request("invalid", "PRG1", ""), Err(RequestError::InvalidMachine));
    assert_eq!(check_request("LASER1", "PRG1", ""), Err(RequestError::NoHeatNumbers));
    assert_eq!(check_request("LASER1", "PRG1", "H1,H2"), Ok(()));
}
