use vstd::prelude::*;

use crate::row::same_text;

verus! {

/// Whether a batch is cut from new stock or from a remnant.
#[derive(Clone, Copy, Debug, PartialEq, Eq, Structural)]
pub enum BatchType {
    New,
    Remnant,
}

/// The batch type that a remnant flag stands for: "N" for new stock, "Y"
/// for a remnant.
pub open spec fn batch_type_of_flag(flag: Seq<char>) -> Option<BatchType> {
    if flag == "N"@ {
        Some(BatchType::New)
    } else if flag == "Y"@ {
        Some(BatchType::Remnant)
    } else {
        None
    }
}

impl BatchType {
    /// Reads a remnant flag; any other text is no batch type.
    pub fn from_flag(flag: &str) -> (r: Option<BatchType>)
        ensures
            r == batch_type_of_flag(flag@),
    {
        if same_text(flag, "N") {
            Some(BatchType::New)
        } else if same_text(flag, "Y") {
            Some(BatchType::Remnant)
        } else {
            None
        }
    }
}

/// A batch of stock that programs can be cut from.
#[derive(Clone, Debug)]
pub struct Batch {
    pub id: String,
    pub mm: String,
    pub sheet_name: String,
    pub batch_type: BatchType,
}

} // verus!
