use vstd::prelude::*;

use crate::error::{Error, ErrorView};
use crate::views::result_view;
use crate::row::{
    Cell, Real, Row, get_int, get_real, get_text, int_field, names_of, real_field,
    text_field,
};

verus! {

pub open spec fn program_name_aliases() -> Seq<Seq<char>> {
    seq!["ProgramName"@]
}

pub open spec fn repeat_id_aliases() -> Seq<Seq<char>> {
    seq!["RepeatID"@, "RepeatId"@]
}

pub open spec fn machine_name_aliases() -> Seq<Seq<char>> {
    seq!["MachineName"@]
}

pub open spec fn cutting_time_aliases() -> Seq<Seq<char>> {
    seq!["CuttingTime"@]
}

pub open spec fn sheet_name_aliases() -> Seq<Seq<char>> {
    seq!["SheetName"@]
}

pub open spec fn material_aliases() -> Seq<Seq<char>> {
    seq!["MaterialMaster"@, "PrimeCode"@]
}

pub open spec fn part_name_aliases() -> Seq<Seq<char>> {
    seq!["PartName"@]
}

pub open spec fn part_qty_aliases() -> Seq<Seq<char>> {
    seq!["Qty"@, "QtyInProcess"@]
}

pub open spec fn job_aliases() -> Seq<Seq<char>> {
    seq!["Job"@, "Data1"@]
}

pub open spec fn shipment_aliases() -> Seq<Seq<char>> {
    seq!["Shipment"@]
}

pub open spec fn true_area_aliases() -> Seq<Seq<char>> {
    seq!["TrueArea"@]
}

pub open spec fn nested_area_aliases() -> Seq<Seq<char>> {
    seq!["NestedArea"@]
}

pub open spec fn remnant_name_aliases() -> Seq<Seq<char>> {
    seq!["RemnantName"@]
}

pub open spec fn length_aliases() -> Seq<Seq<char>> {
    seq!["Length"@]
}

pub open spec fn width_aliases() -> Seq<Seq<char>> {
    seq!["Width"@]
}

pub open spec fn area_aliases() -> Seq<Seq<char>> {
    seq!["Area"@]
}

/// A record that is read from one result row.
pub trait Record: View + Sized {
    /// What reading `cells` gives.
    spec fn of_row(cells: Seq<Cell>) -> Result<Self::V, ErrorView>;

    fn from_row(row: &Row) -> (r: Result<Self, Error>)
        ensures
            result_view(r) == Self::of_row(row.cells@),
    ;

    /// A copy with the same view.
    fn duplicate(&self) -> (r: Self)
        ensures
            r@ == self@,
    ;
}

/// One execution of a cutting program. Identity: name and repeat index.
#[derive(Debug)]
pub struct Program {
    pub program_name: String,
    pub repeat_id: i32,
    pub machine_name: String,
    /// Cutting time in seconds.
    pub cutting_time: Real,
}

pub struct ProgramView {
    pub program_name: Seq<char>,
    pub repeat_id: i32,
    pub machine_name: Seq<char>,
    pub cutting_time: Real,
}

impl View for Program {
    type V = ProgramView;

    open spec fn view(&self) -> ProgramView {
        ProgramView {
            program_name: self.program_name@,
            repeat_id: self.repeat_id,
            machine_name: self.machine_name@,
            cutting_time: self.cutting_time,
        }
    }
}

/// The stock sheet a program was cut from.
#[derive(Debug)]
pub struct Sheet {
    pub sheet_name: String,
    pub material_master: String,
}

pub struct SheetView {
    pub sheet_name: Seq<char>,
    pub material_master: Seq<char>,
}

impl View for Sheet {
    type V = SheetView;

    open spec fn view(&self) -> SheetView {
        SheetView { sheet_name: self.sheet_name@, material_master: self.material_master@ }
    }
}

/// A part cut by a program.
#[derive(Debug)]
pub struct Part {
    pub part_name: String,
    pub part_qty: i32,
    pub job: String,
    pub shipment: i32,
    pub true_area: Real,
    pub nested_area: Real,
}

pub struct PartView {
    pub part_name: Seq<char>,
    pub part_qty: i32,
    pub job: Seq<char>,
    pub shipment: i32,
    pub true_area: Real,
    pub nested_area: Real,
}

impl View for Part {
    type V = PartView;

    open spec fn view(&self) -> PartView {
        PartView {
            part_name: self.part_name@,
            part_qty: self.part_qty,
            job: self.job@,
            shipment: self.shipment,
            true_area: self.true_area,
            nested_area: self.nested_area,
        }
    }
}

/// Stock left over after a program is cut.
#[derive(Debug)]
pub struct Remnant {
    pub remnant_name: String,
    pub length: Real,
    pub width: Real,
    pub area: Real,
}

pub struct RemnantView {
    pub remnant_name: Seq<char>,
    pub length: Real,
    pub width: Real,
    pub area: Real,
}

impl View for Remnant {
    type V = RemnantView;

    open spec fn view(&self) -> RemnantView {
        RemnantView {
            remnant_name: self.remnant_name@,
            length: self.length,
            width: self.width,
            area: self.area,
        }
    }
}

/// The program read from a row.
pub open spec fn program_of_row(cells: Seq<Cell>) -> Result<ProgramView, ErrorView> {
    match text_field(cells, program_name_aliases()) {
        Err(e) => Err(e),
        Ok(program_name) => match int_field(cells, repeat_id_aliases()) {
            Err(e) => Err(e),
            Ok(repeat_id) => match text_field(cells, machine_name_aliases()) {
                Err(e) => Err(e),
                Ok(machine_name) => match real_field(cells, cutting_time_aliases()) {
                    Err(e) => Err(e),
                    Ok(cutting_time) => Ok(
                        ProgramView { program_name, repeat_id, machine_name, cutting_time },
                    ),
                },
            },
        },
    }
}

/// The sheet read from a row.
pub open spec fn sheet_of_row(cells: Seq<Cell>) -> Result<SheetView, ErrorView> {
    match text_field(cells, sheet_name_aliases()) {
        Err(e) => Err(e),
        Ok(sheet_name) => match text_field(cells, material_aliases()) {
            Err(e) => Err(e),
            Ok(material_master) => Ok(SheetView { sheet_name, material_master }),
        },
    }
}

/// The part read from a row.
pub open spec fn part_of_row(cells: Seq<Cell>) -> Result<PartView, ErrorView> {
    match text_field(cells, part_name_aliases()) {
        Err(e) => Err(e),
        Ok(part_name) => match int_field(cells, part_qty_aliases()) {
            Err(e) => Err(e),
            Ok(part_qty) => match text_field(cells, job_aliases()) {
                Err(e) => Err(e),
                Ok(job) => match int_field(cells, shipment_aliases()) {
                    Err(e) => Err(e),
                    Ok(shipment) => match real_field(cells, true_area_aliases()) {
                        Err(e) => Err(e),
                        Ok(true_area) => match real_field(cells, nested_area_aliases()) {
                            Err(e) => Err(e),
                            Ok(nested_area) => Ok(
                                PartView { part_name, part_qty, job, shipment, true_area, nested_area },
                            ),
                        },
                    },
                },
            },
        },
    }
}

/// The remnant read from a row.
pub open spec fn remnant_of_row(cells: Seq<Cell>) -> Result<RemnantView, ErrorView> {
    match text_field(cells, remnant_name_aliases()) {
        Err(e) => Err(e),
        Ok(remnant_name) => match real_field(cells, length_aliases()) {
            Err(e) => Err(e),
            Ok(length) => match real_field(cells, width_aliases()) {
                Err(e) => Err(e),
                Ok(width) => match real_field(cells, area_aliases()) {
                    Err(e) => Err(e),
                    Ok(area) => Ok(RemnantView { remnant_name, length, width, area }),
                },
            },
        },
    }
}

impl Record for Program {
    open spec fn of_row(cells: Seq<Cell>) -> Result<ProgramView, ErrorView> {
        program_of_row(cells)
    }

    fn from_row(row: &Row) -> (r: Result<Program, Error>) {
        assert(names_of(["ProgramName"]@) =~= program_name_aliases());
        assert(names_of(["RepeatID", "RepeatId"]@) =~= repeat_id_aliases());
        assert(names_of(["MachineName"]@) =~= machine_name_aliases());
        assert(names_of(["CuttingTime"]@) =~= cutting_time_aliases());
        let program_name = match get_text(row, &["ProgramName"]) {
            Ok(v) => v,
            Err(e) => return Err(e),
        };
        let repeat_id = match get_int(row, &["RepeatID", "RepeatId"]) {
            Ok(v) => v,
            Err(e) => return Err(e),
        };
        let machine_name = match get_text(row, &["MachineName"]) {
            Ok(v) => v,
            Err(e) => return Err(e),
        };
        let cutting_time = match get_real(row, &["CuttingTime"]) {
            Ok(v) => v,
            Err(e) => return Err(e),
        };
        Ok(Program { program_name, repeat_id, machine_name, cutting_time })
    }

    fn duplicate(&self) -> (r: Program) {
        Program {
            program_name: self.program_name.clone(),
            repeat_id: self.repeat_id,
            machine_name: self.machine_name.clone(),
            cutting_time: self.cutting_time,
        }
    }
}

impl Record for Sheet {
    open spec fn of_row(cells: Seq<Cell>) -> Result<SheetView, ErrorView> {
        sheet_of_row(cells)
    }

    fn from_row(row: &Row) -> (r: Result<Sheet, Error>) {
        assert(names_of(["SheetName"]@) =~= sheet_name_aliases());
        assert(names_of(["MaterialMaster", "PrimeCode"]@) =~= material_aliases());
        let sheet_name = match get_text(row, &["SheetName"]) {
            Ok(v) => v,
            Err(e) => return Err(e),
        };
        let material_master = match get_text(row, &["MaterialMaster", "PrimeCode"]) {
            Ok(v) => v,
            Err(e) => return Err(e),
        };
        Ok(Sheet { sheet_name, material_master })
    }

    fn duplicate(&self) -> (r: Sheet) {
        Sheet { sheet_name: self.sheet_name.clone(), material_master: self.material_master.clone() }
    }
}

impl Record for Part {
    open spec fn of_row(cells: Seq<Cell>) -> Result<PartView, ErrorView> {
        part_of_row(cells)
    }

    fn from_row(row: &Row) -> (r: Result<Part, Error>) {
        assert(names_of(["PartName"]@) =~= part_name_aliases());
        assert(names_of(["Qty", "QtyInProcess"]@) =~= part_qty_aliases());
        assert(names_of(["Job", "Data1"]@) =~= job_aliases());
        assert(names_of(["Shipment"]@) =~= shipment_aliases());
        assert(names_of(["TrueArea"]@) =~= true_area_aliases());
        assert(names_of(["NestedArea"]@) =~= nested_area_aliases());
        let part_name = match get_text(row, &["PartName"]) {
            Ok(v) => v,
            Err(e) => return Err(e),
        };
        let part_qty = match get_int(row, &["Qty", "QtyInProcess"]) {
            Ok(v) => v,
            Err(e) => return Err(e),
        };
        let job = match get_text(row, &["Job", "Data1"]) {
            Ok(v) => v,
            Err(e) => return Err(e),
        };
        let shipment = match get_int(row, &["Shipment"]) {
            Ok(v) => v,
            Err(e) => return Err(e),
        };
        let true_area = match get_real(row, &["TrueArea"]) {
            Ok(v) => v,
            Err(e) => return Err(e),
        };
        let nested_area = match get_real(row, &["NestedArea"]) {
            Ok(v) => v,
            Err(e) => return Err(e),
        };
        Ok(Part { part_name, part_qty, job, shipment, true_area, nested_area })
    }

    fn duplicate(&self) -> (r: Part) {
        Part {
            part_name: self.part_name.clone(),
            part_qty: self.part_qty,
            job: self.job.clone(),
            shipment: self.shipment,
            true_area: self.true_area,
            nested_area: self.nested_area,
        }
    }
}

impl Record for Remnant {
    open spec fn of_row(cells: Seq<Cell>) -> Result<RemnantView, ErrorView> {
        remnant_of_row(cells)
    }

    fn from_row(row: &Row) -> (r: Result<Remnant, Error>) {
        assert(names_of(["RemnantName"]@) =~= remnant_name_aliases());
        assert(names_of(["Length"]@) =~= length_aliases());
        assert(names_of(["Width"]@) =~= width_aliases());
        assert(names_of(["Area"]@) =~= area_aliases());
        let remnant_name = match get_text(row, &["RemnantName"]) {
            Ok(v) => v,
            Err(e) => return Err(e),
        };
        let length = match get_real(row, &["Length"]) {
            Ok(v) => v,
            Err(e) => return Err(e),
        };
        let width = match get_real(row, &["Width"]) {
            Ok(v) => v,
            Err(e) => return Err(e),
        };
        let area = match get_real(row, &["Area"]) {
            Ok(v) => v,
            Err(e) => return Err(e),
        };
        Ok(Remnant { remnant_name, length, width, area })
    }

    fn duplicate(&self) -> (r: Remnant) {
        Remnant {
            remnant_name: self.remnant_name.clone(),
            length: self.length,
            width: self.width,
            area: self.area,
        }
    }
}

} // verus!
