use vstd::prelude::*;

use crate::correlate::{KeyView, children_of, key_of_row, keyed_row, keyed_rows};
use crate::error::{Error, ErrorView};
use crate::export::{
    entries_of_rows, entry_of_row, export_view, feedback_of, last_named,
    nest_lookup, packet_id_aliases, trans_type_aliases,
};
use crate::feedback::{FeedbackEntry, Nest, NestView, TransactionType, phase_of_code};
use crate::records::{
    Part, PartView, Program, Record, Remnant, RemnantView, job_aliases, part_name_aliases,
    part_qty_aliases, shipment_aliases, true_area_aliases,
};
use crate::row::{Cell, Row, code_field, int_field, real_field, text_field};

verus! {

/// Reading rows succeeds only where every row reads, and then gives one
/// keyed record per row, in row order.
pub proof fn lemma_keyed_rows_elements<T: Record>(rows: Seq<Row>)
    requires
        keyed_rows::<T>(rows) is Ok,
    ensures
        keyed_rows::<T>(rows)->Ok_0.len() == rows.len(),
        forall|i: int|
            0 <= i < rows.len() ==> keyed_row::<T>(#[trigger] rows[i].cells@) == Ok::<(KeyView, T::V), ErrorView>(
                keyed_rows::<T>(rows)->Ok_0[i],
            ),
    decreases rows.len(),
{
    if rows.len() > 0 {
        lemma_keyed_rows_elements::<T>(rows.drop_last());
        assert forall|i: int| 0 <= i < rows.len() implies keyed_row::<T>(#[trigger] rows[i].cells@) == Ok::<
            (KeyView, T::V),
            ErrorView,
        >(keyed_rows::<T>(rows)->Ok_0[i]) by {
            if i < rows.len() - 1 {
                assert(rows.drop_last()[i] == rows[i]);
            }
        }
    }
}

/// An empty snapshot exports to no entries, not to an error.
pub proof fn lemma_empty_source_exports_nothing()
    ensures
        feedback_of(Seq::empty(), Seq::empty(), Seq::empty()) == Ok::<Seq<FeedbackEntry<NestView>>, ErrorView>(
            Seq::empty(),
        ),
{
    assert(keyed_rows::<Part>(Seq::empty()) == Ok::<Seq<(KeyView, PartView)>, ErrorView>(Seq::empty()));
    assert(keyed_rows::<Remnant>(Seq::empty()) == Ok::<Seq<(KeyView, RemnantView)>, ErrorView>(Seq::empty()));
}

/// Exporting keeps the program rows' order: on success there is exactly one
/// entry per program row, and entry `i` is the entry of row `i`.
pub proof fn lemma_export_keeps_row_order(programs: Seq<Row>, parts: Seq<Row>, remnants: Seq<Row>)
    requires
        feedback_of(programs, parts, remnants) is Ok,
    ensures
        ({
            let kp = keyed_rows::<Part>(parts)->Ok_0;
            let kr = keyed_rows::<Remnant>(remnants)->Ok_0;
            let s = feedback_of(programs, parts, remnants)->Ok_0;
            &&& s.len() == programs.len()
            &&& forall|i: int|
                0 <= i < programs.len() ==> entry_of_row(#[trigger] programs[i].cells@, kp, kr)
                    == Ok::<FeedbackEntry<NestView>, ErrorView>(s[i])
        }),
{
    let kp = keyed_rows::<Part>(parts)->Ok_0;
    let kr = keyed_rows::<Remnant>(remnants)->Ok_0;
    lemma_entries_elements(programs, kp, kr);
}

proof fn lemma_entries_elements(
    rows: Seq<Row>,
    kp: Seq<(KeyView, PartView)>,
    kr: Seq<(KeyView, RemnantView)>,
)
    requires
        entries_of_rows(rows, kp, kr) is Ok,
    ensures
        entries_of_rows(rows, kp, kr)->Ok_0.len() == rows.len(),
        forall|i: int|
            0 <= i < rows.len() ==> entry_of_row(#[trigger] rows[i].cells@, kp, kr) == Ok::<
                FeedbackEntry<NestView>,
                ErrorView,
            >(entries_of_rows(rows, kp, kr)->Ok_0[i]),
    decreases rows.len(),
{
    if rows.len() > 0 {
        lemma_entries_elements(rows.drop_last(), kp, kr);
        assert forall|i: int| 0 <= i < rows.len() implies entry_of_row(#[trigger] rows[i].cells@, kp, kr)
            == Ok::<FeedbackEntry<NestView>, ErrorView>(entries_of_rows(rows, kp, kr)->Ok_0[i]) by {
            if i < rows.len() - 1 {
                assert(rows.drop_last()[i] == rows[i]);
            }
        }
    }
}

/// A program row whose code is "SN101" gives a deletion and one whose code
/// is "SN102" an update; neither carries a payload.
pub proof fn lemma_marker_codes_carry_no_payload(
    cells: Seq<Cell>,
    kp: Seq<(KeyView, PartView)>,
    kr: Seq<(KeyView, RemnantView)>,
)
    requires
        int_field(cells, packet_id_aliases()) is Ok,
    ensures
        code_field(cells, trans_type_aliases()) == Ok::<Seq<char>, ErrorView>("SN101"@)
            ==> entry_of_row(cells, kp, kr) == Ok::<FeedbackEntry<NestView>, ErrorView>(
            FeedbackEntry {
                archive_packet_id: int_field(cells, packet_id_aliases())->Ok_0,
                state: TransactionType::Deleted,
            },
        ),
        code_field(cells, trans_type_aliases()) == Ok::<Seq<char>, ErrorView>("SN102"@)
            ==> entry_of_row(cells, kp, kr) == Ok::<FeedbackEntry<NestView>, ErrorView>(
            FeedbackEntry {
                archive_packet_id: int_field(cells, packet_id_aliases())->Ok_0,
                state: TransactionType::Updated,
            },
        ),
{
    reveal_strlit("SN100");
    reveal_strlit("SN101");
    reveal_strlit("SN102");
    assert("SN101"@[4] != "SN100"@[4]);
    assert("SN102"@[4] != "SN100"@[4]);
    assert("SN102"@[4] != "SN101"@[4]);
}

/// A program row with an unknown transaction code fails with
/// `UnknownTransactionCode` of that code, and so does the whole export once
/// the rows before it read.
pub proof fn lemma_unknown_code_fails(
    programs: Seq<Row>,
    parts: Seq<Row>,
    remnants: Seq<Row>,
    i: int,
)
    requires
        0 <= i < programs.len(),
        int_field(programs[i].cells@, packet_id_aliases()) is Ok,
        code_field(programs[i].cells@, trans_type_aliases()) is Ok,
        phase_of_code(code_field(programs[i].cells@, trans_type_aliases())->Ok_0) is None,
    ensures
        forall|kp: Seq<(KeyView, PartView)>, kr: Seq<(KeyView, RemnantView)>|
            #[trigger] entry_of_row(programs[i].cells@, kp, kr) == Err::<FeedbackEntry<NestView>, ErrorView>(
                ErrorView::UnknownTransactionCode(code_field(programs[i].cells@, trans_type_aliases())->Ok_0),
            ),
        feedback_of(programs, parts, remnants) is Err,
{
    if feedback_of(programs, parts, remnants) is Ok {
        let kp = keyed_rows::<Part>(parts)->Ok_0;
        let kr = keyed_rows::<Remnant>(remnants)->Ok_0;
        lemma_entries_elements(programs, kp, kr);
        assert(entry_of_row(programs[i].cells@, kp, kr) is Err);
    }
}

/// A row filed under another key never joins the records of `k`: taking
/// it out leaves them as they are. So two remnants of one program name and
/// different repeat indices never meet in one nest.
pub proof fn lemma_key_isolation<V>(keyed: Seq<(KeyView, V)>, k: KeyView, i: int)
    requires
        0 <= i < keyed.len(),
        keyed[i].0 != k,
    ensures
        children_of(keyed, k) == children_of(keyed.remove(i), k),
    decreases keyed.len(),
{
    if i == keyed.len() - 1 {
        assert(keyed.remove(i) =~= keyed.drop_last());
    } else {
        lemma_key_isolation(keyed.drop_last(), k, i);
        assert(keyed.remove(i).drop_last() =~= keyed.drop_last().remove(i));
        assert(keyed.remove(i).last() == keyed.last());
    }
}

/// Two exports of one unchanged snapshot give the same result.
pub proof fn lemma_export_is_deterministic(
    programs: Seq<Row>,
    parts: Seq<Row>,
    remnants: Seq<Row>,
    first: Result<Vec<FeedbackEntry<Nest>>, Error>,
    second: Result<Vec<FeedbackEntry<Nest>>, Error>,
)
    requires
        export_view(first) == feedback_of(programs, parts, remnants),
        export_view(second) == feedback_of(programs, parts, remnants),
    ensures
        export_view(first) == export_view(second),
{
}

/// A part row without a true area fails the whole export with
/// `MissingColumn` of the true-area aliases, once the part rows before it
/// and its own earlier columns read; any part row that does not read fails
/// the export.
pub proof fn lemma_missing_true_area_fails(
    programs: Seq<Row>,
    parts: Seq<Row>,
    remnants: Seq<Row>,
    i: int,
)
    requires
        0 <= i < parts.len(),
        real_field(parts[i].cells@, true_area_aliases()) is Err,
    ensures
        feedback_of(programs, parts, remnants) is Err,
        keyed_rows::<Part>(parts.subrange(0, i)) is Ok
            && key_of_row(parts[i].cells@) is Ok
            && text_field(parts[i].cells@, part_name_aliases()) is Ok
            && int_field(parts[i].cells@, part_qty_aliases()) is Ok
            && text_field(parts[i].cells@, job_aliases()) is Ok
            && int_field(parts[i].cells@, shipment_aliases()) is Ok
            ==> feedback_of(programs, parts, remnants) == Err::<Seq<FeedbackEntry<NestView>>, ErrorView>(
            ErrorView::MissingColumn(true_area_aliases()),
        ),
{
    assert(keyed_row::<Part>(parts[i].cells@) is Err);
    if keyed_rows::<Part>(parts) is Ok {
        lemma_keyed_rows_elements::<Part>(parts);
    }
    if keyed_rows::<Part>(parts.subrange(0, i)) is Ok {
        crate::correlate::lemma_keyed_rows_fail::<Part>(parts, i);
    }
}

/// A point lookup of a name that no program row carries gives `NotFound`,
/// neither an error nor an empty nest.
pub proof fn lemma_absent_name_not_found(
    name: Seq<char>,
    programs: Seq<Row>,
    parts: Seq<Row>,
    sheets: Seq<Row>,
    remnants: Seq<Row>,
)
    requires
        keyed_rows::<Program>(programs) is Ok,
        forall|i: int|
            0 <= i < programs.len() ==> (#[trigger] key_of_row(programs[i].cells@))->Ok_0.0 != name,
    ensures
        nest_lookup(name, programs, parts, sheets, remnants) == Ok::<TransactionType<NestView>, ErrorView>(
            TransactionType::NotFound,
        ),
{
    let kprog = keyed_rows::<Program>(programs)->Ok_0;
    lemma_keyed_rows_elements::<Program>(programs);
    assert forall|i: int| 0 <= i < kprog.len() implies #[trigger] kprog[i].0.0 != name by {
        assert(keyed_row::<Program>(programs[i].cells@) is Ok);
    }
    lemma_last_named_absent(kprog, name);
}

proof fn lemma_last_named_absent(keyed: Seq<(KeyView, crate::records::ProgramView)>, name: Seq<char>)
    requires
        forall|i: int| 0 <= i < keyed.len() ==> #[trigger] keyed[i].0.0 != name,
    ensures
        last_named(keyed, name) is None,
    decreases keyed.len(),
{
    if keyed.len() > 0 {
        assert(keyed.last().0.0 != name);
        assert forall|i: int| 0 <= i < keyed.drop_last().len() implies #[trigger] keyed.drop_last()[i].0.0
            != name by {
            assert(keyed.drop_last()[i] == keyed[i]);
        }
        lemma_last_named_absent(keyed.drop_last(), name);
    }
}

} // verus!
