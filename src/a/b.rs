use vstd::prelude::*;
use crate::record::{info_record, Record, Tag};

verus! {

/// The second inner routine of the `a` group: its record carries the tag `AB`.
pub fn b() -> (r: Record)
    ensures
        r == info_record(Tag::AB),
{
    Record::info(Tag::AB)
}

} // verus!
