use vstd::prelude::*;

verus! {

/// Severity of a log record, from the most to the least severe.
#[derive(Clone, Copy, Debug, PartialEq, Eq, Structural)]
pub enum Level {
    Error,
    Warn,
    Info,
    Debug,
    Trace,
}

/// The fixed literal that identifies one of the four leaf routines.
#[derive(Clone, Copy, Debug, PartialEq, Eq, Structural)]
pub enum Tag {
    A,
    AA,
    AB,
    B,
}

/// The text of a tag, as it appears in the written record.
pub open spec fn tag_text(t: Tag) -> Seq<char> {
    match t {
        Tag::A => seq!['A'],
        Tag::AA => seq!['A', 'A'],
        Tag::AB => seq!['A', 'B'],
        Tag::B => seq!['B'],
    }
}

impl Tag {
    /// The text of this tag.
    pub fn text(&self) -> (r: &'static str)
        ensures
            r@ == tag_text(*self),
    {
        match self {
            Tag::A => {
                proof {
                    reveal_strlit("A");
                }
                assert("A"@ =~= tag_text(*self));
                "A"
            },
            Tag::AA => {
                proof {
                    reveal_strlit("AA");
                }
                assert("AA"@ =~= tag_text(*self));
                "AA"
            },
            Tag::AB => {
                proof {
                    reveal_strlit("AB");
                }
                assert("AB"@ =~= tag_text(*self));
                "AB"
            },
            Tag::B => {
                proof {
                    reveal_strlit("B");
                }
                assert("B"@ =~= tag_text(*self));
                "B"
            },
        }
    }
}

/// One log record: a severity and the tag that is its message.
#[derive(Clone, Copy, Debug, PartialEq, Eq, Structural)]
pub struct Record {
    pub level: Level,
    pub tag: Tag,
}

/// The informational record that carries `t`.
pub open spec fn info_record(t: Tag) -> Record {
    Record { level: Level::Info, tag: t }
}

impl Record {
    /// The informational record that carries `tag`.
    pub fn info(tag: Tag) -> (r: Record)
        ensures
            r == info_record(tag),
    {
        Record { level: Level::Info, tag }
    }
}

} // verus!
