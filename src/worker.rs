use vstd::prelude::*;

use crate::correlate::{Key, KeyView};
use crate::error::Error;
use crate::feedback::{FeedbackEntry, Nest, TransactionType};
use crate::records::{Part, Remnant};
use crate::views::views_of;

verus! {

/// How many lookup requests may wait for the worker before senders block.
pub const REQUEST_QUEUE_CAPACITY: usize = 8;

/// How many database connections the pool holds at most.
pub const POOL_SIZE: u32 = 8;

/// A request to the lookup worker: the children of one program key.
#[derive(Debug)]
pub enum LookupRequest {
    Parts(Key),
    Remnants(Key),
}

/// The worker's answer to one request.
#[derive(Debug)]
pub enum LookupReply {
    Parts(Result<Vec<Part>, Error>),
    Remnants(Result<Vec<Remnant>, Error>),
}

/// The key of the program of a nest.
pub open spec fn nest_key(nest: Nest) -> KeyView {
    (nest.program.program_name@, nest.program.repeat_id)
}

/// A feedback entry being completed through the worker. A creation asks
/// for its parts and its remnants, and is finished once both replies are
/// in, in whichever order they came; other entries need nothing.
#[derive(Debug)]
pub struct Enrichment {
    pub entry: FeedbackEntry<Nest>,
    pub parts: Option<Result<Vec<Part>, Error>>,
    pub remnants: Option<Result<Vec<Remnant>, Error>>,
}

impl Enrichment {
    pub open spec fn finished(&self) -> bool {
        !(self.entry.state is Created) || (self.parts is Some && self.remnants is Some)
    }

    /// Starts completing `entry`; returns the requests to send for it.
    pub fn start(entry: FeedbackEntry<Nest>) -> (r: (Enrichment, Vec<LookupRequest>))
        ensures
            r.0.entry == entry,
            r.0.parts is None,
            r.0.remnants is None,
            match entry.state {
                TransactionType::Created(nest) => r.1@.len() == 2
                    && r.1@[0] is Parts && r.1@[0]->Parts_0@ == nest_key(nest)
                    && r.1@[1] is Remnants && r.1@[1]->Remnants_0@ == nest_key(nest),
                _ => r.1@.len() == 0,
            },
    {
        let mut requests: Vec<LookupRequest> = Vec::new();
        match &entry.state {
            TransactionType::Created(nest) => {
                requests.push(LookupRequest::Parts(Key::of_program(&nest.program)));
                requests.push(LookupRequest::Remnants(Key::of_program(&nest.program)));
            },
            _ => {},
        }
        (Enrichment { entry, parts: None, remnants: None }, requests)
    }

    /// Records one reply; a later reply of the same kind replaces an
    /// earlier one.
    pub fn accept(&mut self, reply: LookupReply)
        ensures
            final(self).entry == old(self).entry,
            match reply {
                LookupReply::Parts(p) => final(self).parts == Some(p) && final(self).remnants
                    == old(self).remnants,
                LookupReply::Remnants(p) => final(self).remnants == Some(p) && final(self).parts
                    == old(self).parts,
            },
    {
        match reply {
            LookupReply::Parts(p) => {
                self.parts = Some(p);
            },
            LookupReply::Remnants(p) => {
                self.remnants = Some(p);
            },
        }
    }

    /// Whether every reply the entry waits for is in.
    pub fn is_finished(&self) -> (r: bool)
        ensures
            r == self.finished(),
    {
        match &self.entry.state {
            TransactionType::Created(_) => self.parts.is_some() && self.remnants.is_some(),
            _ => true,
        }
    }

    /// The completed entry. A creation gets the replied parts and remnants
    /// after those it had; a failed reply fails the entry, the parts reply
    /// first. Other entries come back as they were.
    pub fn finish(self) -> (r: Result<FeedbackEntry<Nest>, Error>)
        requires
            self.finished(),
        ensures
            match self.entry.state {
                TransactionType::Created(nest) => match (self.parts, self.remnants) {
                    (Some(Err(e)), _) => r == Err::<FeedbackEntry<Nest>, Error>(e),
                    (Some(Ok(_)), Some(Err(e))) => r == Err::<FeedbackEntry<Nest>, Error>(e),
                    (Some(Ok(ps)), Some(Ok(rs))) => r is Ok && r->Ok_0.archive_packet_id
                        == self.entry.archive_packet_id && r->Ok_0.state is Created && ({
                        let done = r->Ok_0.state->Created_0;
                        &&& done.program == nest.program
                        &&& done.sheet == nest.sheet
                        &&& views_of(done.parts@) == views_of(nest.parts@) + views_of(ps@)
                        &&& views_of(done.remnants@) == views_of(nest.remnants@) + views_of(rs@)
                    }),
                    _ => false,
                },
                _ => r == Ok::<FeedbackEntry<Nest>, Error>(self.entry),
            },
    {
        let Enrichment { entry, parts, remnants } = self;
        let FeedbackEntry { archive_packet_id, state } = entry;
        match state {
            TransactionType::Created(nest) => {
                let mut got_parts = match parts {
                    Some(Ok(p)) => p,
                    Some(Err(e)) => return Err(e),
                    None => vstd::pervasive::unreached(),
                };
                let mut got_remnants = match remnants {
                    Some(Ok(p)) => p,
                    Some(Err(e)) => return Err(e),
                    None => vstd::pervasive::unreached(),
                };
                let Nest { program, sheet, parts: mut all_parts, remnants: mut all_remnants } = nest;
                let ghost old_parts = all_parts@;
                let ghost old_remnants = all_remnants@;
                let ghost new_parts = got_parts@;
                let ghost new_remnants = got_remnants@;
                all_parts.append(&mut got_parts);
                all_remnants.append(&mut got_remnants);
                assert(views_of(all_parts@) =~= views_of(old_parts) + views_of(new_parts));
                assert(views_of(all_remnants@) =~= views_of(old_remnants) + views_of(new_remnants));
                Ok(
                    FeedbackEntry {
                        archive_packet_id,
                        state: TransactionType::Created(
                            Nest { program, sheet, parts: all_parts, remnants: all_remnants },
                        ),
                    },
                )
            },
            TransactionType::NotFound => Ok(FeedbackEntry { archive_packet_id, state: TransactionType::NotFound }),
            TransactionType::Deleted => Ok(FeedbackEntry { archive_packet_id, state: TransactionType::Deleted }),
            TransactionType::Updated => Ok(FeedbackEntry { archive_packet_id, state: TransactionType::Updated }),
        }
    }
}

} // verus!
