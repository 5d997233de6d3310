use vstd::prelude::*;

use crate::error::{Error, ErrorView};
use crate::records::{Part, PartView, Program, ProgramView, Remnant, RemnantView, Sheet, SheetView};
use crate::row::same_text;
use crate::views::views_of;

verus! {

/// The phase of a transaction, without its payload.
#[derive(Clone, Copy, Debug, PartialEq, Eq, Structural)]
pub enum Phase {
    NotFound,
    Created,
    Deleted,
    Updated,
}

/// The state of an archived transaction. Only a creation carries a payload.
#[derive(Debug)]
pub enum TransactionType<T> {
    /// No row exists for the requested identity.
    NotFound,
    Created(T),
    Deleted,
    Updated,
}

impl<T: View> View for TransactionType<T> {
    type V = TransactionType<T::V>;

    open spec fn view(&self) -> TransactionType<T::V> {
        match self {
            TransactionType::NotFound => TransactionType::NotFound,
            TransactionType::Created(v) => TransactionType::Created(v@),
            TransactionType::Deleted => TransactionType::Deleted,
            TransactionType::Updated => TransactionType::Updated,
        }
    }
}

/// The transaction code of a phase; a missing identity has none.
pub open spec fn code_of(phase: Phase) -> Seq<char> {
    match phase {
        Phase::NotFound => Seq::empty(),
        Phase::Created => "SN100"@,
        Phase::Deleted => "SN101"@,
        Phase::Updated => "SN102"@,
    }
}

/// The phase that a transaction code stands for, if it is known.
pub open spec fn phase_of_code(code: Seq<char>) -> Option<Phase> {
    if code == "SN100"@ {
        Some(Phase::Created)
    } else if code == "SN101"@ {
        Some(Phase::Deleted)
    } else if code == "SN102"@ {
        Some(Phase::Updated)
    } else {
        None
    }
}

/// Maps a transaction code to its phase; an unknown code is an error.
pub fn classify(code: &str) -> (r: Result<Phase, Error>)
    ensures
        match phase_of_code(code@) {
            Some(p) => r == Ok::<Phase, Error>(p),
            None => r is Err && r->Err_0@ == ErrorView::UnknownTransactionCode(code@),
        },
{
    if same_text(code, "SN100") {
        Ok(Phase::Created)
    } else if same_text(code, "SN101") {
        Ok(Phase::Deleted)
    } else if same_text(code, "SN102") {
        Ok(Phase::Updated)
    } else {
        Err(Error::UnknownTransactionCode(code.to_owned()))
    }
}

impl<T> TransactionType<T> {
    pub open spec fn spec_phase(&self) -> Phase {
        match self {
            TransactionType::NotFound => Phase::NotFound,
            TransactionType::Created(_) => Phase::Created,
            TransactionType::Deleted => Phase::Deleted,
            TransactionType::Updated => Phase::Updated,
        }
    }

    /// The phase, that is the variant without its payload.
    pub fn phase(&self) -> (r: Phase)
        ensures
            r == self.spec_phase(),
    {
        match self {
            TransactionType::NotFound => Phase::NotFound,
            TransactionType::Created(_) => Phase::Created,
            TransactionType::Deleted => Phase::Deleted,
            TransactionType::Updated => Phase::Updated,
        }
    }

    /// Whether two states are in the same phase, whatever their payloads
    /// and payload types.
    pub fn same_phase<O>(&self, other: &TransactionType<O>) -> (r: bool)
        ensures
            r == (self.spec_phase() == other.spec_phase()),
    {
        self.phase() == other.phase()
    }

    /// The payload of a creation.
    pub fn unwrap(self) -> (r: T)
        requires
            self is Created,
        ensures
            self == TransactionType::Created(r),
    {
        match self {
            TransactionType::Created(v) => v,
            _ => vstd::pervasive::unreached(),
        }
    }

    /// The transaction code of the state.
    pub fn tcode(&self) -> (r: &'static str)
        requires
            !(self is NotFound),
        ensures
            r@ == code_of(self.spec_phase()),
    {
        match self {
            TransactionType::Created(_) => "SN100",
            TransactionType::Deleted => "SN101",
            _ => "SN102",
        }
    }

    /// A state without payload: the same marker phase, with another payload
    /// type; `None` for a creation, whose payload cannot change type.
    pub fn marker<U>(&self) -> (r: Option<TransactionType<U>>)
        ensures
            match r {
                Some(s) => !(self is Created) && s.spec_phase() == self.spec_phase(),
                None => self is Created,
            },
    {
        match self {
            TransactionType::NotFound => Some(TransactionType::NotFound),
            TransactionType::Created(_) => None,
            TransactionType::Deleted => Some(TransactionType::Deleted),
            TransactionType::Updated => Some(TransactionType::Updated),
        }
    }
}

/// One archived transaction: its packet id and its state.
#[derive(Debug)]
pub struct FeedbackEntry<T> {
    pub archive_packet_id: i32,
    pub state: TransactionType<T>,
}

impl<T: View> View for FeedbackEntry<T> {
    type V = FeedbackEntry<T::V>;

    open spec fn view(&self) -> FeedbackEntry<T::V> {
        FeedbackEntry { archive_packet_id: self.archive_packet_id, state: self.state@ }
    }
}

impl<T> FeedbackEntry<T> {
    /// Whether two entries have the same packet id and phase, whatever
    /// their payloads.
    pub fn same_entry<O>(&self, other: &FeedbackEntry<O>) -> (r: bool)
        ensures
            r == (self.archive_packet_id == other.archive_packet_id
                && self.state.spec_phase() == other.state.spec_phase()),
    {
        self.archive_packet_id == other.archive_packet_id && self.state.same_phase(&other.state)
    }

    /// The entry with another payload type, where it carries no payload.
    pub fn without_payload<U>(&self) -> (r: Option<FeedbackEntry<U>>)
        ensures
            match r {
                Some(e) => !(self.state is Created) && e.archive_packet_id == self.archive_packet_id
                    && e.state.spec_phase() == self.state.spec_phase(),
                None => self.state is Created,
            },
    {
        match self.state.marker() {
            Some(state) => Some(FeedbackEntry { archive_packet_id: self.archive_packet_id, state }),
            None => None,
        }
    }
}

/// One cutting-program execution: program, stock sheet, the parts it cut
/// and the remnants it left, in source order.
#[derive(Debug)]
pub struct Nest {
    pub program: Program,
    pub sheet: Sheet,
    pub parts: Vec<Part>,
    pub remnants: Vec<Remnant>,
}

pub struct NestView {
    pub program: ProgramView,
    pub sheet: SheetView,
    pub parts: Seq<PartView>,
    pub remnants: Seq<RemnantView>,
}

impl View for Nest {
    type V = NestView;

    open spec fn view(&self) -> NestView {
        NestView {
            program: self.program@,
            sheet: self.sheet@,
            parts: views_of(self.parts@),
            remnants: views_of(self.remnants@),
        }
    }
}

} // verus!
