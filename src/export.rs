use vstd::prelude::*;

use crate::correlate::{
    Groups, Key, KeyView, children_of, keyed_rows, lemma_keyed_rows_fail,
};
use crate::error::{Error, ErrorView};
use crate::feedback::{FeedbackEntry, Nest, NestView, Phase, TransactionType, classify, phase_of_code};
use crate::records::{
    Part, PartView, Program, ProgramView, Record, Remnant, RemnantView, Sheet, program_of_row,
    sheet_of_row,
};
use crate::row::{Cell, Row, code_field, get_code, get_int, int_field, names_of, same_text};
use crate::views::views_of;

verus! {

pub open spec fn packet_id_aliases() -> Seq<Seq<char>> {
    seq!["ArchivePacketID"@]
}

pub open spec fn trans_type_aliases() -> Seq<Seq<char>> {
    seq!["TransType"@]
}

/// Packet id and phase of a program archive row.
pub open spec fn header_of_row(cells: Seq<Cell>) -> Result<(i32, Phase), ErrorView> {
    match int_field(cells, packet_id_aliases()) {
        Err(e) => Err(e),
        Ok(id) => match code_field(cells, trans_type_aliases()) {
            Err(e) => Err(e),
            Ok(code) => match phase_of_code(code) {
                None => Err(ErrorView::UnknownTransactionCode(code)),
                Some(phase) => Ok((id, phase)),
            },
        },
    }
}

/// The entry of an archive row whose creation payload is one record read
/// from the same row.
pub open spec fn record_entry_of_row<T: Record>(cells: Seq<Cell>) -> Result<FeedbackEntry<T::V>, ErrorView> {
    match header_of_row(cells) {
        Err(e) => Err(e),
        Ok((id, phase)) => if phase == Phase::Created {
            match T::of_row(cells) {
                Err(e) => Err(e),
                Ok(v) => Ok(FeedbackEntry { archive_packet_id: id, state: TransactionType::Created(v) }),
            }
        } else if phase == Phase::Deleted {
            Ok(FeedbackEntry { archive_packet_id: id, state: TransactionType::Deleted })
        } else {
            Ok(FeedbackEntry { archive_packet_id: id, state: TransactionType::Updated })
        },
    }
}

/// The entry of one program archive row, given the parts and remnants
/// read with their keys. A creation takes every part and remnant filed
/// under the program's name and repeat index, in source order.
pub open spec fn entry_of_row(
    cells: Seq<Cell>,
    parts: Seq<(KeyView, PartView)>,
    remnants: Seq<(KeyView, RemnantView)>,
) -> Result<FeedbackEntry<NestView>, ErrorView> {
    match header_of_row(cells) {
        Err(e) => Err(e),
        Ok((id, phase)) => if phase == Phase::Created {
            match program_of_row(cells) {
                Err(e) => Err(e),
                Ok(program) => match sheet_of_row(cells) {
                    Err(e) => Err(e),
                    Ok(sheet) => {
                        let k = (program.program_name, program.repeat_id);
                        Ok(
                            FeedbackEntry {
                                archive_packet_id: id,
                                state: TransactionType::Created(
                                    NestView {
                                        program,
                                        sheet,
                                        parts: children_of(parts, k),
                                        remnants: children_of(remnants, k),
                                    },
                                ),
                            },
                        )
                    },
                },
            }
        } else if phase == Phase::Deleted {
            Ok(FeedbackEntry { archive_packet_id: id, state: TransactionType::Deleted })
        } else {
            Ok(FeedbackEntry { archive_packet_id: id, state: TransactionType::Updated })
        },
    }
}

/// The entries of the program rows, in row order; the first row that
/// fails decides the error.
pub open spec fn entries_of_rows(
    rows: Seq<Row>,
    parts: Seq<(KeyView, PartView)>,
    remnants: Seq<(KeyView, RemnantView)>,
) -> Result<Seq<FeedbackEntry<NestView>>, ErrorView>
    decreases rows.len(),
{
    if rows.len() == 0 {
        Ok(Seq::empty())
    } else {
        match entries_of_rows(rows.drop_last(), parts, remnants) {
            Err(e) => Err(e),
            Ok(s) => match entry_of_row(rows.last().cells@, parts, remnants) {
                Err(e) => Err(e),
                Ok(entry) => Ok(s.push(entry)),
            },
        }
    }
}

/// The feedback of a snapshot: part rows, then remnant rows, then program
/// rows are read; any row that fails fails the whole export.
pub open spec fn feedback_of(programs: Seq<Row>, parts: Seq<Row>, remnants: Seq<Row>) -> Result<
    Seq<FeedbackEntry<NestView>>,
    ErrorView,
> {
    match keyed_rows::<Part>(parts) {
        Err(e) => Err(e),
        Ok(kp) => match keyed_rows::<Remnant>(remnants) {
            Err(e) => Err(e),
            Ok(kr) => entries_of_rows(programs, kp, kr),
        },
    }
}

pub open spec fn export_view(r: Result<Vec<FeedbackEntry<Nest>>, Error>) -> Result<
    Seq<FeedbackEntry<NestView>>,
    ErrorView,
> {
    match r {
        Ok(v) => Ok(views_of(v@)),
        Err(e) => Err(e@),
    }
}

/// Reads the packet id and the phase of a program archive row.
fn read_header(row: &Row) -> (r: Result<(i32, Phase), Error>)
    ensures
        match r {
            Ok(h) => header_of_row(row.cells@) == Ok::<(i32, Phase), ErrorView>(h),
            Err(e) => header_of_row(row.cells@) == Err::<(i32, Phase), ErrorView>(e@),
        },
{
    assert(names_of(["ArchivePacketID"]@) =~= packet_id_aliases());
    assert(names_of(["TransType"]@) =~= trans_type_aliases());
    let id = match get_int(row, &["ArchivePacketID"]) {
        Ok(v) => v,
        Err(e) => return Err(e),
    };
    let code = match get_code(row, &["TransType"]) {
        Ok(v) => v,
        Err(e) => return Err(e),
    };
    match classify(code.as_str()) {
        Ok(phase) => Ok((id, phase)),
        Err(e) => Err(e),
    }
}

impl<T: Record> FeedbackEntry<T> {
    /// Reads an archive row: its packet id, its transaction code, and for a
    /// creation the record the row carries.
    pub fn from_row(row: &Row) -> (r: Result<FeedbackEntry<T>, Error>)
        ensures
            match r {
                Ok(e) => record_entry_of_row::<T>(row.cells@) == Ok::<FeedbackEntry<T::V>, ErrorView>(e@),
                Err(e) => record_entry_of_row::<T>(row.cells@) == Err::<FeedbackEntry<T::V>, ErrorView>(e@),
            },
    {
        let (id, phase) = match read_header(row) {
            Ok(h) => h,
            Err(e) => return Err(e),
        };
        match phase {
            Phase::Created => match T::from_row(row) {
                Ok(v) => Ok(FeedbackEntry { archive_packet_id: id, state: TransactionType::Created(v) }),
                Err(e) => Err(e),
            },
            Phase::Deleted => Ok(FeedbackEntry { archive_packet_id: id, state: TransactionType::Deleted }),
            _ => Ok(FeedbackEntry { archive_packet_id: id, state: TransactionType::Updated }),
        }
    }
}

/// Builds the entry of one program archive row from the grouped parts and
/// remnants.
fn entry_of(
    row: &Row,
    parts: &Groups<Part>,
    remnants: &Groups<Remnant>,
    Ghost(kp): Ghost<Seq<(KeyView, PartView)>>,
    Ghost(kr): Ghost<Seq<(KeyView, RemnantView)>>,
) -> (r: Result<FeedbackEntry<Nest>, Error>)
    requires
        parts.wf(),
        remnants.wf(),
        forall|k: KeyView| #[trigger] parts.items_of(k) == children_of(kp, k),
        forall|k: KeyView| #[trigger] remnants.items_of(k) == children_of(kr, k),
    ensures
        match r {
            Ok(e) => entry_of_row(row.cells@, kp, kr) == Ok::<FeedbackEntry<NestView>, ErrorView>(e@),
            Err(e) => entry_of_row(row.cells@, kp, kr) == Err::<FeedbackEntry<NestView>, ErrorView>(e@),
        },
{
    let (id, phase) = match read_header(row) {
        Ok(h) => h,
        Err(e) => return Err(e),
    };
    match phase {
        Phase::Created => {
            let program = match Program::from_row(row) {
                Ok(p) => p,
                Err(e) => return Err(e),
            };
            let sheet = match Sheet::from_row(row) {
                Ok(s) => s,
                Err(e) => return Err(e),
            };
            let key = Key::of_program(&program);
            let nest = Nest { parts: parts.get(&key), remnants: remnants.get(&key), program, sheet };
            Ok(FeedbackEntry { archive_packet_id: id, state: TransactionType::Created(nest) })
        },
        Phase::Deleted => Ok(FeedbackEntry { archive_packet_id: id, state: TransactionType::Deleted }),
        _ => Ok(FeedbackEntry { archive_packet_id: id, state: TransactionType::Updated }),
    }
}

/// Once a program row fails, the entries of every longer prefix fail with
/// its error.
proof fn lemma_entries_fail(
    rows: Seq<Row>,
    i: int,
    kp: Seq<(KeyView, PartView)>,
    kr: Seq<(KeyView, RemnantView)>,
)
    requires
        0 <= i < rows.len(),
        entries_of_rows(rows.subrange(0, i), kp, kr) is Ok,
        entry_of_row(rows[i].cells@, kp, kr) is Err,
    ensures
        entries_of_rows(rows, kp, kr) == Err::<Seq<FeedbackEntry<NestView>>, ErrorView>(
            entry_of_row(rows[i].cells@, kp, kr)->Err_0,
        ),
    decreases rows.len() - i,
{
    if rows.len() == i + 1 {
        assert(rows.drop_last() =~= rows.subrange(0, i));
    } else {
        assert(rows.drop_last().subrange(0, i) =~= rows.subrange(0, i));
        lemma_entries_fail(rows.drop_last(), i, kp, kr);
    }
}

/// Exports the feedback of a snapshot: one entry per program archive row,
/// in row order. A creation carries its nest: the program and sheet of the
/// row, and the parts and remnants whose rows carry the same program name
/// and repeat index. A deletion or update carries nothing. A row with a
/// missing column or an unknown transaction code fails the whole export.
pub fn export_feedback(programs: &Vec<Row>, parts: &Vec<Row>, remnants: &Vec<Row>) -> (r: Result<
    Vec<FeedbackEntry<Nest>>,
    Error,
>)
    ensures
        export_view(r) == feedback_of(programs@, parts@, remnants@),
{
    let part_groups = match Groups::<Part>::from_rows(parts) {
        Ok(g) => g,
        Err(e) => return Err(e),
    };
    let remnant_groups = match Groups::<Remnant>::from_rows(remnants) {
        Ok(g) => g,
        Err(e) => return Err(e),
    };
    let ghost kp = keyed_rows::<Part>(parts@)->Ok_0;
    let ghost kr = keyed_rows::<Remnant>(remnants@)->Ok_0;
    let mut entries: Vec<FeedbackEntry<Nest>> = Vec::new();
    let mut i: usize = 0;
    assert(programs@.subrange(0, 0) =~= Seq::<Row>::empty());
    assert(views_of(entries@) =~= Seq::<FeedbackEntry<NestView>>::empty());
    assert(feedback_of(programs@, parts@, remnants@) == entries_of_rows(programs@, kp, kr));
    while i < programs.len()
        invariant
            i <= programs@.len(),
            part_groups.wf(),
            remnant_groups.wf(),
            forall|k: KeyView| #[trigger] part_groups.items_of(k) == children_of(kp, k),
            forall|k: KeyView| #[trigger] remnant_groups.items_of(k) == children_of(kr, k),
            entries_of_rows(programs@.subrange(0, i as int), kp, kr) == Ok::<
                Seq<FeedbackEntry<NestView>>,
                ErrorView,
            >(views_of(entries@)),
            feedback_of(programs@, parts@, remnants@) == entries_of_rows(programs@, kp, kr),
        decreases programs@.len() - i,
    {
        let ghost prefix = programs@.subrange(0, i as int + 1);
        assert(prefix.drop_last() =~= programs@.subrange(0, i as int));
        assert(prefix.last() == programs@[i as int]);
        match entry_of(&programs[i], &part_groups, &remnant_groups, Ghost(kp), Ghost(kr)) {
            Ok(entry) => {
                let ghost before = entries@;
                entries.push(entry);
                assert(views_of(entries@) =~= views_of(before).push(entries@.last()@));
            },
            Err(e) => {
                proof {
                    lemma_entries_fail(programs@, i as int, kp, kr);
                }
                return Err(e);
            },
        }
        i += 1;
    }
    assert(programs@.subrange(0, i as int) =~= programs@);
    Ok(entries)
}

/// The last program filed under the name `name`, if any.
pub open spec fn last_named(keyed: Seq<(KeyView, ProgramView)>, name: Seq<char>) -> Option<ProgramView>
    decreases keyed.len(),
{
    if keyed.len() == 0 {
        None
    } else if keyed.last().0.0 == name {
        Some(keyed.last().1)
    } else {
        last_named(keyed.drop_last(), name)
    }
}

/// The nest of the program named `name`, from the four result sets of one
/// point lookup. Without a program row of that name the state is
/// `NotFound`; of several, the last one is taken. Parts, sheet and
/// remnants are those filed under its name and repeat index; without a
/// sheet the lookup fails with `NotFound`.
pub open spec fn nest_lookup(
    name: Seq<char>,
    programs: Seq<Row>,
    parts: Seq<Row>,
    sheets: Seq<Row>,
    remnants: Seq<Row>,
) -> Result<TransactionType<NestView>, ErrorView> {
    match keyed_rows::<Program>(programs) {
        Err(e) => Err(e),
        Ok(kprog) => match last_named(kprog, name) {
            None => Ok(TransactionType::NotFound),
            Some(program) => {
                let k = (program.program_name, program.repeat_id);
                match keyed_rows::<Part>(parts) {
                    Err(e) => Err(e),
                    Ok(kp) => match keyed_rows::<Sheet>(sheets) {
                        Err(e) => Err(e),
                        Ok(ks) => if children_of(ks, k).len() == 0 {
                            Err(ErrorView::NotFound(name))
                        } else {
                            match keyed_rows::<Remnant>(remnants) {
                                Err(e) => Err(e),
                                Ok(kr) => Ok(
                                    TransactionType::Created(
                                        NestView {
                                            program,
                                            sheet: children_of(ks, k).last(),
                                            parts: children_of(kp, k),
                                            remnants: children_of(kr, k),
                                        },
                                    ),
                                ),
                            }
                        },
                    },
                }
            },
        },
    }
}

/// Reads every program row and keeps the last one named `name`.
fn find_program(name: &str, rows: &Vec<Row>) -> (r: Result<Option<Program>, Error>)
    ensures
        match r {
            Ok(found) => keyed_rows::<Program>(rows@) is Ok && match found {
                Some(p) => last_named(keyed_rows::<Program>(rows@)->Ok_0, name@) == Some(p@),
                None => last_named(keyed_rows::<Program>(rows@)->Ok_0, name@) is None,
            },
            Err(e) => keyed_rows::<Program>(rows@) == Err::<Seq<(KeyView, ProgramView)>, ErrorView>(e@),
        },
{
    let mut found: Option<Program> = None;
    let ghost mut keyed: Seq<(KeyView, ProgramView)> = Seq::empty();
    let mut i: usize = 0;
    assert(rows@.subrange(0, 0) =~= Seq::<Row>::empty());
    while i < rows.len()
        invariant
            i <= rows@.len(),
            keyed_rows::<Program>(rows@.subrange(0, i as int)) == Ok::<Seq<(KeyView, ProgramView)>, ErrorView>(keyed),
            match found {
                Some(p) => last_named(keyed, name@) == Some(p@),
                None => last_named(keyed, name@) is None,
            },
        decreases rows@.len() - i,
    {
        let ghost prefix = rows@.subrange(0, i as int + 1);
        assert(prefix.drop_last() =~= rows@.subrange(0, i as int));
        assert(prefix.last() == rows@[i as int]);
        let key = match Key::from_row(&rows[i]) {
            Ok(k) => k,
            Err(e) => {
                proof {
                    lemma_keyed_rows_fail::<Program>(rows@, i as int);
                }
                return Err(e);
            },
        };
        let program = match Program::from_row(&rows[i]) {
            Ok(p) => p,
            Err(e) => {
                proof {
                    lemma_keyed_rows_fail::<Program>(rows@, i as int);
                }
                return Err(e);
            },
        };
        proof {
            let old_keyed = keyed;
            keyed = keyed.push((key@, program@));
            assert(keyed.drop_last() =~= old_keyed);
        }
        if same_text(key.program_name.as_str(), name) {
            found = Some(program);
        }
        i += 1;
    }
    assert(rows@.subrange(0, i as int) =~= rows@);
    Ok(found)
}

pub open spec fn lookup_view(r: Result<TransactionType<Nest>, Error>) -> Result<TransactionType<NestView>, ErrorView> {
    match r {
        Ok(v) => Ok(v@),
        Err(e) => Err(e@),
    }
}

/// Looks up the nest of one program by name, from the program, part,
/// sheet and remnant rows that one request fetched for that name.
/// A name without a program row gives `NotFound`, not an error.
pub fn export_nest(
    name: &str,
    programs: &Vec<Row>,
    parts: &Vec<Row>,
    sheets: &Vec<Row>,
    remnants: &Vec<Row>,
) -> (r: Result<TransactionType<Nest>, Error>)
    ensures
        lookup_view(r) == nest_lookup(name@, programs@, parts@, sheets@, remnants@),
{
    let program = match find_program(name, programs) {
        Err(e) => return Err(e),
        Ok(None) => return Ok(TransactionType::NotFound),
        Ok(Some(p)) => p,
    };
    let key = Key::of_program(&program);
    let part_groups = match Groups::<Part>::from_rows(parts) {
        Ok(g) => g,
        Err(e) => return Err(e),
    };
    let sheet_groups = match Groups::<Sheet>::from_rows(sheets) {
        Ok(g) => g,
        Err(e) => return Err(e),
    };
    let mut found_sheets = sheet_groups.get(&key);
    let sheet = match found_sheets.pop() {
        Some(s) => s,
        None => {
            assert(views_of(found_sheets@).len() == 0);
            return Err(Error::NotFound(name.to_owned()));
        },
    };
    let remnant_groups = match Groups::<Remnant>::from_rows(remnants) {
        Ok(g) => g,
        Err(e) => return Err(e),
    };
    let nest = Nest {
        parts: part_groups.get(&key),
        remnants: remnant_groups.get(&key),
        program,
        sheet,
    };
    Ok(TransactionType::Created(nest))
}

} // verus!
