use sigmanest_interface::correlate::Key;
use sigmanest_interface::error::Error;
use sigmanest_interface::feedback::{FeedbackEntry, Nest, TransactionType};
use sigmanest_interface::records::{Part, Program, Remnant, Sheet};
use sigmanest_interface::row::Real;
use sigmanest_interface::worker::{Enrichment, LookupReply, LookupRequest};

fn measure(x: f64) -> Real {
    Real { bits: x.to_bits() }
}

fn nest(name: &str, repeat: i32) -> Nest {
    Nest {
        program: Program {
            program_name: name.to_string(),
            repeat_id: repeat,
            machine_name: "LASER1".to_string(),
            cutting_time: measure(1.0),
        },
        sheet: Sheet { sheet_name: "S".to_string(), material_master: "M".to_string() },
        parts: vec![],
        remnants: vec![],
    }
}

fn part(name: &str) -> Part {
    Part {
        part_name: name.to_string(),
        part_qty: 1,
        job: "J".to_string(),
        shipment: 1,
        true_area: measure(1.0),
        nested_area: measure(2.0),
    }
}

fn remnant(name: &str) -> Remnant {
    Remnant { remnant_name: name.to_string(), length: measure(1.0), width: measure(1.0), area: measure(1.0) }
}

fn key_of(request: &LookupRequest) -> &Key {
    match request {
        LookupRequest::Parts(k) | LookupRequest::Remnants(k) => k,
    }
}

#[test]
fn creation_asks_for_parts_then_remnants_of_its_key() {
    let entry = FeedbackEntry { archive_packet_id: 4, state: TransactionType::Created(nest("PRG1", 2)) };
    let (pending, requests) = Enrichment::start(entry);
    assert_eq!(requests.len(), 2);
    assert!(matches!(requests[0], LookupRequest::Parts(_)));
    assert!(matches!(requests[1], LookupRequest::Remnants(_)));
    for request in &requests {
        assert_eq!(key_of(request).program_name, "PRG1");
        assert_eq!(key_of(request).repeat_id, 2);
    }
    assert!(!pending.is_finished());
}

#[test]
fn creation_finishes_after_both_replies_in_any_order() {
    let entry = FeedbackEntry { archive_packet_id: 4, state: TransactionType::Created(nest("PRG1", 0)) };
    let (mut pending, _) = Enrichment::start(entry);
    pending.accept(LookupReply::Remnants(Ok(vec![remnant("X")])));
    assert!(!pending.is_finished());
    pending.accept(LookupReply::Parts(Ok(vec![part("A"), part("B")])));
    assert!(pending.is_finished());
    let done = pending.finish().unwrap();
    assert_eq!(done.archive_packet_id, 4);
    match done.state {
        TransactionType::Created(n) => {
            let parts: Vec<String> = n.parts.iter().map(|p| p.part_name.clone()).collect();
            let rems: Vec<String> = n.remnants.iter().map(|r| r.remnant_name.clone()).collect();
            assert_eq!(parts, vec!["A", "B"]);
            assert_eq!(rems, vec!["X"]);
        }
        other => panic!("unexpected {:?}", other),
    }
}

#[test]
fn failed_reply_fails_the_entry() {
    let entry = FeedbackEntry { archive_packet_id: 4, state: TransactionType::Created(nest("PRG1", 0)) };
    let (mut pending, _) = Enrichment::start(entry);
    pending.accept(LookupReply::Parts(Ok(vec![])));
    pending.accept(LookupReply::Remnants(Err(Error::ConnectionError)));
    assert!(matches!(pending.finish(), Err(Error::ConnectionError)));
}

#[test]
fn markers_need_no_lookup() {
    let entry: FeedbackEntry<Nest> = FeedbackEntry { archive_packet_id: 9, state: TransactionType::Updated };
    let (pending, requests) = Enrichment::start(entry);
    assert!(requests.is_empty());
    assert!(pending.is_finished());
    let done = pending.finish().unwrap();
    assert_eq!(done.archive_packet_id, 9);
    assert!(matches!(done.state, TransactionType::Updated));
}
