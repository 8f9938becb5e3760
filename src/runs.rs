use vstd::prelude::*;
use crate::record::{info_record, Level, Tag};
use crate::session::{
    action_of, advance, program_records, run, trace_from, written, Action, Outcome, Phase,
};

verus! {

/// The whole run in which installing the logger succeeds.
pub proof fn lemma_run_installed()
    ensures
        run(true) == seq![
            Action::Install,
            Action::Write(info_record(Tag::A)),
            Action::Write(info_record(Tag::AA)),
            Action::Write(info_record(Tag::AB)),
            Action::Write(info_record(Tag::B)),
            Action::Exit,
        ],
{
    let tb = trace_from(Phase::Write(Tag::B), true);
    let tab = trace_from(Phase::Write(Tag::AB), true);
    let taa = trace_from(Phase::Write(Tag::AA), true);
    let ta = trace_from(Phase::Write(Tag::A), true);
    assert(trace_from(Phase::Finished, true) == seq![Action::Exit]);
    assert(tb =~= seq![Action::Write(info_record(Tag::B)), Action::Exit]);
    assert(tab =~= seq![Action::Write(info_record(Tag::AB))] + tb);
    assert(taa =~= seq![Action::Write(info_record(Tag::AA))] + tab);
    assert(ta =~= seq![Action::Write(info_record(Tag::A))] + taa);
    assert(run(true) =~= seq![Action::Install] + ta);
}

/// The whole run in which installing the logger fails.
pub proof fn lemma_run_failed()
    ensures
        run(false) == seq![Action::Install, Action::Abort],
{
    assert(trace_from(Phase::Aborted, false) == seq![Action::Abort]);
    assert(run(false) =~= seq![Action::Install] + trace_from(Phase::Aborted, false));
}

/// What is written by a trace that begins with one action.
proof fn lemma_written_cons(a: Action, t: Seq<Action>)
    ensures
        written(seq![a] + t) == match a {
            Action::Write(r) => seq![r] + written(t),
            _ => written(t),
        },
{
    assert((seq![a] + t).drop_first() =~= t);
}

/// When installing the logger succeeds, a run writes exactly four records,
/// tagged `A`, `AA`, `AB` and `B` in that order, and then ends with exit
/// status 0.
pub proof fn lemma_successful_run_writes_four_records()
    ensures
        written(run(true)) == program_records(),
        run(true).last() == Action::Exit,
{
    lemma_run_installed();
    let e = seq![Action::Exit];
    lemma_written_cons(Action::Exit, Seq::empty());
    assert(e =~= seq![Action::Exit] + Seq::<Action>::empty());
    let s4 = seq![Action::Write(info_record(Tag::B))] + e;
    lemma_written_cons(Action::Write(info_record(Tag::B)), e);
    let s3 = seq![Action::Write(info_record(Tag::AB))] + s4;
    lemma_written_cons(Action::Write(info_record(Tag::AB)), s4);
    let s2 = seq![Action::Write(info_record(Tag::AA))] + s3;
    lemma_written_cons(Action::Write(info_record(Tag::AA)), s3);
    let s1 = seq![Action::Write(info_record(Tag::A))] + s2;
    lemma_written_cons(Action::Write(info_record(Tag::A)), s2);
    lemma_written_cons(Action::Install, s1);
    let t = run(true);
    assert(t =~= seq![Action::Install] + s1);
    assert(written(t) =~= program_records());
}

/// Every record that any phase of a run asks to write is informational.
pub proof fn lemma_records_are_informational(p: Phase)
    ensures
        action_of(p) is Write ==> action_of(p)->Write_0.level == Level::Info,
{
}

/// Every record written by a run is informational, whatever came of
/// installing the logger.
pub proof fn lemma_written_records_are_informational(installed: bool)
    ensures
        forall|i: int|
            0 <= i < written(run(installed)).len() ==> (#[trigger] written(run(installed))[i]).level
                == Level::Info,
{
    if installed {
        lemma_successful_run_writes_four_records();
    } else {
        lemma_failed_install_writes_nothing();
    }
}

/// A run begins by installing the logger, and no record is written before
/// the installation has come back successful: the phase that follows a
/// failed installation writes nothing, and every write comes after the first
/// action of a run in which installing succeeded.
pub proof fn lemma_no_record_before_install(installed: bool)
    ensures
        run(installed)[0] == Action::Install,
        action_of(Phase::Install) !is Write,
        forall|o: Outcome| #[trigger] action_of(advance(Phase::Install, o)) is Write ==> o
            == Outcome::Installed,
        forall|i: int|
            0 <= i < run(installed).len() && (#[trigger] run(installed)[i]) is Write ==> 0 < i
                && installed,
{
    if installed {
        lemma_run_installed();
    } else {
        lemma_run_failed();
    }
}

/// When installing the logger fails, the run ends with a fatal error and a
/// nonzero exit status, and writes none of the four records.
pub proof fn lemma_failed_install_writes_nothing()
    ensures
        run(false) == seq![Action::Install, Action::Abort],
        run(false).last() == Action::Abort,
        written(run(false)).len() == 0,
{
    lemma_run_failed();
    lemma_written_cons(Action::Abort, Seq::empty());
    assert(seq![Action::Abort] =~= seq![Action::Abort] + Seq::<Action>::empty());
    lemma_written_cons(Action::Install, seq![Action::Abort]);
    assert(run(false) =~= seq![Action::Install] + seq![Action::Abort]);
}

/// Runs keep nothing from one to the next: any two runs in which installing
/// the logger succeeds take the same actions and write the same four
/// records in the same order.
pub proof fn lemma_runs_agree(first: bool, second: bool)
    requires
        first,
        second,
    ensures
        run(first) == run(second),
        written(run(first)) == written(run(second)),
        written(run(second)) == program_records(),
{
    lemma_successful_run_writes_four_records();
}

} // verus!
