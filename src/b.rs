use vstd::prelude::*;
use crate::record::{info_record, Record, Tag};

verus! {

/// The second outer routine: its record carries the tag `B`.
pub fn b() -> (r: Record)
    ensures
        r == info_record(Tag::B),
{
    Record::info(Tag::B)
}

} // verus!
