use vstd::prelude::*;

use crate::records::program_name_aliases;
use crate::row::{Row, get_int, get_text, int_field, names_of, same_text, text_field};

verus! {

pub open spec fn id_aliases() -> Seq<Seq<char>> {
    seq!["Id"@]
}

pub open spec fn machine_aliases() -> Seq<Seq<char>> {
    seq!["MachineName"@]
}

/// A program waiting in the queue of NC code to move to its machine.
#[derive(Debug)]
pub struct Program {
    pub id: i32,
    pub machine: String,
    pub name: String,
}

/// The decimal digits of `n`, most significant first.
pub open spec fn decimal_of(n: nat) -> Seq<char>
    decreases n,
{
    if n < 10 {
        seq![digit_char(n)]
    } else {
        decimal_of(n / 10).push(digit_char(n % 10))
    }
}

pub open spec fn digit_char(d: nat) -> char {
    if d == 0 { '0' }
    else if d == 1 { '1' }
    else if d == 2 { '2' }
    else if d == 3 { '3' }
    else if d == 4 { '4' }
    else if d == 5 { '5' }
    else if d == 6 { '6' }
    else if d == 7 { '7' }
    else if d == 8 { '8' }
    else { '9' }
}

fn digit_text(d: u32) -> (r: &'static str)
    requires
        d < 10,
    ensures
        r@ == seq![digit_char(d as nat)],
{
    proof {
        reveal_strlit("0");
        reveal_strlit("1");
        reveal_strlit("2");
        reveal_strlit("3");
        reveal_strlit("4");
        reveal_strlit("5");
        reveal_strlit("6");
        reveal_strlit("7");
        reveal_strlit("8");
        reveal_strlit("9");
    }
    let r = if d == 0 { "0" }
    else if d == 1 { "1" }
    else if d == 2 { "2" }
    else if d == 3 { "3" }
    else if d == 4 { "4" }
    else if d == 5 { "5" }
    else if d == 6 { "6" }
    else if d == 7 { "7" }
    else if d == 8 { "8" }
    else { "9" };
    assert(r@ =~= seq![digit_char(d as nat)]);
    r
}

/// `n` written in decimal.
pub fn decimal(n: u32) -> (r: String)
    ensures
        r@ == decimal_of(n as nat),
    decreases n,
{
    if n < 10 {
        String::from_str(digit_text(n))
    } else {
        let mut r = decimal(n / 10);
        r.append(digit_text(n % 10));
        r
    }
}

/// The name of the NC file of program `name` on a machine whose files end
/// in `extension`.
pub open spec fn nc_file_name_of(name: Seq<char>, extension: Seq<char>) -> Seq<char> {
    name + extension
}

/// The `index`-th name tried when archiving the NC file of `name`: the
/// file name itself first, then `name_1`, `name_2`, ... with the
/// extension.
pub open spec fn archive_file_name_of(name: Seq<char>, index: nat, extension: Seq<char>) -> Seq<char> {
    if index == 0 {
        name + extension
    } else {
        name + "_"@ + decimal_of(index) + extension
    }
}

pub fn nc_file_name(name: &str, extension: &str) -> (r: String)
    ensures
        r@ == nc_file_name_of(name@, extension@),
{
    String::from_str(name).concat(extension)
}

pub fn archive_file_name(name: &str, index: u32, extension: &str) -> (r: String)
    ensures
        r@ == archive_file_name_of(name@, index as nat, extension@),
{
    if index == 0 {
        nc_file_name(name, extension)
    } else {
        let digits = decimal(index);
        String::from_str(name).concat("_").concat(digits.as_str()).concat(extension)
    }
}

/// A queue row read with defaults: a missing or null id is 0, missing
/// names are empty.
pub open spec fn queue_program_of_row(cells: Seq<crate::row::Cell>) -> (i32, Seq<char>, Seq<char>) {
    (
        match int_field(cells, id_aliases()) {
            Ok(v) => v,
            Err(_) => 0,
        },
        match text_field(cells, machine_aliases()) {
            Ok(v) => v,
            Err(_) => Seq::empty(),
        },
        match text_field(cells, program_name_aliases()) {
            Ok(v) => v,
            Err(_) => Seq::empty(),
        },
    )
}

impl Program {
    /// Reads a row of the move-code queue.
    pub fn from_row(row: &Row) -> (r: Program)
        ensures
            (r.id, r.machine@, r.name@) == queue_program_of_row(row.cells@),
    {
        assert(names_of(["Id"]@) =~= id_aliases());
        assert(names_of(["MachineName"]@) =~= machine_aliases());
        assert(names_of(["ProgramName"]@) =~= program_name_aliases());
        let id = match get_int(row, &["Id"]) {
            Ok(v) => v,
            Err(_) => 0,
        };
        let machine = match get_text(row, &["MachineName"]) {
            Ok(v) => v,
            Err(_) => String::new(),
        };
        let name = match get_text(row, &["ProgramName"]) {
            Ok(v) => v,
            Err(_) => String::new(),
        };
        Program { id, machine, name }
    }

    /// "name at machine".
    pub fn describe(&self) -> (r: String)
        ensures
            r@ == self.name@ + " at "@ + self.machine@,
    {
        self.name.clone().concat(" at ").concat(self.machine.as_str())
    }

    /// The name of this program's NC file.
    pub fn file_name(&self, extension: &str) -> (r: String)
        ensures
            r@ == nc_file_name_of(self.name@, extension@),
    {
        nc_file_name(self.name.as_str(), extension)
    }
}

/// How moving an NC file to the archive ended.
#[derive(Clone, Copy, Debug, PartialEq, Eq, Structural)]
pub enum ArchiveOutcome {
    Moved,
    /// The file was not in the production folder.
    SourceMissing,
    Failed,
}

/// Whether the program leaves the queue after an archive attempt: it does
/// once its file is archived or was never there, not after a failure.
pub fn leaves_queue(outcome: ArchiveOutcome) -> (r: bool)
    ensures
        r == (outcome != ArchiveOutcome::Failed),
{
    match outcome {
        ArchiveOutcome::Failed => false,
        _ => true,
    }
}

/// Why a move-code request on the command line is refused.
#[derive(Clone, Copy, Debug, PartialEq, Eq, Structural)]
pub enum RequestError {
    InvalidProgramName,
    InvalidMachine,
    NoHeatNumbers,
}

/// The first check a move-code request fails, in the order program name,
/// machine, heat numbers; `None` where it passes them all.
pub open spec fn request_error_of(machine: Seq<char>, program: Seq<char>, heat: Seq<char>) -> Option<RequestError> {
    if program == "invalid"@ {
        Some(RequestError::InvalidProgramName)
    } else if machine == "invalid"@ {
        Some(RequestError::InvalidMachine)
    } else if heat.len() == 0 {
        Some(RequestError::NoHeatNumbers)
    } else {
        None
    }
}

/// Checks the machine, program and heat numbers of a move-code request.
pub fn check_request(machine: &str, program: &str, heat: &str) -> (r: Result<(), RequestError>)
    ensures
        match request_error_of(machine@, program@, heat@) {
            Some(e) => r == Err::<(), RequestError>(e),
            None => r is Ok,
        },
{
    if same_text(program, "invalid") {
        Err(RequestError::InvalidProgramName)
    } else if same_text(machine, "invalid") {
        Err(RequestError::InvalidMachine)
    } else if heat.unicode_len() == 0 {
        Err(RequestError::NoHeatNumbers)
    } else {
        Ok(())
    }
}

} // verus!
