use vstd::prelude::*;
use crate::logger::InstallError;
use crate::record::{info_record, Record, Tag};

verus! {

/// Where a run of the program stands.
#[derive(Clone, Copy, Debug, PartialEq, Eq, Structural)]
pub enum Phase {
    /// The logger is not installed yet.
    Install,
    /// The logger is installed; the record with this tag is the next to write.
    Write(Tag),
    /// All four records are written.
    Finished,
    /// Installing the logger failed.
    Aborted,
}

/// What the process is to do next.
#[derive(Clone, Copy, Debug, PartialEq, Eq, Structural)]
pub enum Action {
    /// Install the process-wide logger.
    Install,
    /// Write this record to the logger.
    Write(Record),
    /// End the process with exit status 0.
    Exit,
    /// End the process at once with a fatal error and a nonzero exit status.
    Abort,
}

/// What came of the last action.
#[derive(Clone, Copy, Debug, PartialEq, Eq, Structural)]
pub enum Outcome {
    Installed,
    InstallFailed,
    Written,
}

/// The tag of the record written after the one with `t`, if any.
pub open spec fn next_tag(t: Tag) -> Option<Tag> {
    match t {
        Tag::A => Some(Tag::AA),
        Tag::AA => Some(Tag::AB),
        Tag::AB => Some(Tag::B),
        Tag::B => None,
    }
}

/// The action that is due in phase `p`.
pub open spec fn action_of(p: Phase) -> Action {
    match p {
        Phase::Install => Action::Install,
        Phase::Write(t) => Action::Write(info_record(t)),
        Phase::Finished => Action::Exit,
        Phase::Aborted => Action::Abort,
    }
}

/// The phase after `o` came of the action due in `p`. An outcome that does
/// not answer that action changes nothing.
pub open spec fn advance(p: Phase, o: Outcome) -> Phase {
    match (p, o) {
        (Phase::Install, Outcome::Installed) => Phase::Write(Tag::A),
        (Phase::Install, Outcome::InstallFailed) => Phase::Aborted,
        (Phase::Write(t), Outcome::Written) => match next_tag(t) {
            Some(n) => Phase::Write(n),
            None => Phase::Finished,
        },
        _ => p,
    }
}

/// A phase in which the process ends.
pub open spec fn is_final(p: Phase) -> bool {
    p is Finished || p is Aborted
}

/// How many actions are left to take after the one due in `p`.
pub open spec fn remaining(p: Phase) -> nat {
    match p {
        Phase::Install => 5,
        Phase::Write(Tag::A) => 4,
        Phase::Write(Tag::AA) => 3,
        Phase::Write(Tag::AB) => 2,
        Phase::Write(Tag::B) => 1,
        _ => 0,
    }
}

/// What comes of `a` in a process where installing the logger succeeds
/// exactly when `installed` holds.
pub open spec fn reply(a: Action, installed: bool) -> Outcome {
    match a {
        Action::Install => if installed {
            Outcome::Installed
        } else {
            Outcome::InstallFailed
        },
        _ => Outcome::Written,
    }
}

/// The actions taken from phase `p` on, up to and including the last one.
pub open spec fn trace_from(p: Phase, installed: bool) -> Seq<Action>
    decreases remaining(p),
{
    if is_final(p) {
        seq![action_of(p)]
    } else {
        seq![action_of(p)] + trace_from(advance(p, reply(action_of(p), installed)), installed)
    }
}

/// The actions of a whole run of the program, where installing the logger
/// succeeds exactly when `installed` holds.
pub open spec fn run(installed: bool) -> Seq<Action> {
    trace_from(Phase::Install, installed)
}

/// The records written by the actions of `t`, in order.
pub open spec fn written(t: Seq<Action>) -> Seq<Record>
    decreases t.len(),
{
    if t.len() == 0 {
        Seq::empty()
    } else {
        let rest = written(t.drop_first());
        match t[0] {
            Action::Write(r) => seq![r] + rest,
            _ => rest,
        }
    }
}

/// The four records of a successful run, in the order they are written.
pub open spec fn program_records() -> Seq<Record> {
    seq![info_record(Tag::A), info_record(Tag::AA), info_record(Tag::AB), info_record(Tag::B)]
}

/// The record that the leaf routine of tag `t` stands for.
pub fn leaf_record(t: Tag) -> (r: Record)
    ensures
        r == info_record(t),
{
    match t {
        Tag::A => crate::a::a(),
        Tag::AA => crate::a::a::a(),
        Tag::AB => crate::a::b::b(),
        Tag::B => crate::b::b(),
    }
}

impl Outcome {
    /// The outcome of an attempt to install the logger.
    pub fn of_install(r: &Result<(), InstallError>) -> (o: Outcome)
        ensures
            r is Ok ==> o == Outcome::Installed,
            r is Err ==> o == Outcome::InstallFailed,
    {
        match r {
            Ok(()) => Outcome::Installed,
            Err(_) => Outcome::InstallFailed,
        }
    }
}

/// The decisions of one run of the program: the caller performs each action
/// that the session names and hands back what came of it.
pub struct Session {
    phase: Phase,
}

impl View for Session {
    type V = Phase;

    closed spec fn view(&self) -> Phase {
        self.phase
    }
}

impl Session {
    /// A run that has not installed the logger yet.
    pub fn new() -> (s: Session)
        ensures
            s@ == Phase::Install,
    {
        Session { phase: Phase::Install }
    }

    /// The action that is due now.
    pub fn action(&self) -> (a: Action)
        ensures
            a == action_of(self@),
    {
        match self.phase {
            Phase::Install => Action::Install,
            Phase::Write(t) => Action::Write(leaf_record(t)),
            Phase::Finished => Action::Exit,
            Phase::Aborted => Action::Abort,
        }
    }

    /// Whether the run has ended.
    pub fn is_done(&self) -> (b: bool)
        ensures
            b == is_final(self@),
    {
        matches!(self.phase, Phase::Finished | Phase::Aborted)
    }

    /// Takes note of what came of the action that was due.
    pub fn advance(&mut self, o: Outcome)
        ensures
            final(self)@ == advance(old(self)@, o),
    {
        self.phase = match (self.phase, o) {
            (Phase::Install, Outcome::Installed) => Phase::Write(Tag::A),
            (Phase::Install, Outcome::InstallFailed) => Phase::Aborted,
            (Phase::Write(t), Outcome::Written) => match t {
                Tag::A => Phase::Write(Tag::AA),
                Tag::AA => Phase::Write(Tag::AB),
                Tag::AB => Phase::Write(Tag::B),
                Tag::B => Phase::Finished,
            },
            (p, _) => p,
        };
    }

    /// The actions of a whole run, where installing the logger succeeds
    /// exactly when `installed` holds, from the first to the one that ends it.
    pub fn plan(installed: bool) -> (r: Vec<Action>)
        ensures
            r@ == run(installed),
    {
        let mut s = Session::new();
        let mut actions: Vec<Action> = Vec::new();
        while !s.is_done()
            invariant
                actions@ + trace_from(s@, installed) == run(installed),
            decreases remaining(s@),
        {
            let a = s.action();
            let o = match a {
                Action::Install => if installed {
                    Outcome::Installed
                } else {
                    Outcome::InstallFailed
                },
                _ => Outcome::Written,
            };
            assert(actions@.push(a) + trace_from(advance(s@, o), installed)
                =~= actions@ + trace_from(s@, installed));
            actions.push(a);
            s.advance(o);
        }
        let last = s.action();
        assert(actions@.push(last) =~= actions@ + trace_from(s@, installed));
        actions.push(last);
        actions
    }
}

} // verus!
