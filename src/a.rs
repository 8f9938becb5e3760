use vstd::prelude::*;
use crate::record::{info_record, Record, Tag};

pub mod a;
pub mod b;

verus! {

/// The outer routine of this group: its record carries the tag `A`.
pub fn a() -> (r: Record)
    ensures
        r == info_record(Tag::A),
{
    Record::info(Tag::A)
}

} // verus!
