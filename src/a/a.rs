use vstd::prelude::*;
use crate::record::{info_record, Record, Tag};

verus! {

/// The first inner routine of the `a` group: its record carries the tag `AA`.
pub fn a() -> (r: Record)
    ensures
        r == info_record(Tag::AA),
{
    Record::info(Tag::AA)
}

} // verus!
