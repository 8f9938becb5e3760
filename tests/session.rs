use assembly::logger::{install_logger, InstallError};
use assembly::record::{Level, Record, Tag};
use assembly::session::{leaf_record, Action, Outcome, Session};

fn written_texts(actions: &[Action]) -> Vec<&'static str> {
    let mut texts = Vec::new();
    for a in actions {
        if let Action::Write(r) = a {
            texts.push(r.tag.text());
        }
    }
    texts
}

#[test]
fn successful_run_writes_four_tags_in_order_then_exits() {
    let plan = Session::plan(true);
    assert_eq!(plan.len(), 6);
    assert_eq!(plan[0], Action::Install);
    assert_eq!(written_texts(&plan), vec!["A", "AA", "AB", "B"]);
    assert_eq!(plan[5], Action::Exit);
}

#[test]
fn every_written_record_is_informational() {
    for installed in [true, false] {
        for a in Session::plan(installed) {
            if let Action::Write(r) = a {
                assert_eq!(r.level, Level::Info);
            }
        }
    }
}

#[test]
fn failed_install_aborts_without_records() {
    let plan = Session::plan(false);
    assert_eq!(plan, vec![Action::Install, Action::Abort]);
    assert!(written_texts(&plan).is_empty());
}

#[test]
fn nothing_is_written_before_install() {
    let s = Session::new();
    assert_eq!(s.action(), Action::Install);
    for installed in [true, false] {
        let plan = Session::plan(installed);
        assert_eq!(plan[0], Action::Install);
    }
}

#[test]
fn two_runs_agree() {
    assert_eq!(Session::plan(true), Session::plan(true));
    assert_eq!(Session::plan(false), Session::plan(false));
}

#[test]
fn stepping_by_hand_matches_plan() {
    let mut s = Session::new();
    let mut seen = Vec::new();
    while !s.is_done() {
        let a = s.action();
        seen.push(a);
        let o = if a == Action::Install { Outcome::Installed } else { Outcome::Written };
        s.advance(o);
    }
    seen.push(s.action());
    assert_eq!(seen, Session::plan(true));
}

#[test]
fn unanswering_outcome_changes_nothing() {
    let mut s = Session::new();
    s.advance(Outcome::Written);
    assert_eq!(s.action(), Action::Install);
    s.advance(Outcome::Installed);
    assert_eq!(s.action(), Action::Write(Record { level: Level::Info, tag: Tag::A }));
    s.advance(Outcome::Installed);
    s.advance(Outcome::InstallFailed);
    assert_eq!(s.action(), Action::Write(Record { level: Level::Info, tag: Tag::A }));
    assert!(!s.is_done());
}

#[test]
fn finished_and_aborted_are_final() {
    let mut s = Session::new();
    s.advance(Outcome::InstallFailed);
    assert!(s.is_done());
    assert_eq!(s.action(), Action::Abort);
    s.advance(Outcome::Written);
    s.advance(Outcome::Installed);
    assert_eq!(s.action(), Action::Abort);
}

#[test]
fn leaf_record_follows_each_routine() {
    assert_eq!(leaf_record(Tag::A), assembly::a::a());
    assert_eq!(leaf_record(Tag::AA), assembly::a::a::a());
    assert_eq!(leaf_record(Tag::AB), assembly::a::b::b());
    assert_eq!(leaf_record(Tag::B), assembly::b::b());
}

#[test]
fn outcome_of_install_result() {
    assert_eq!(Outcome::of_install(&Ok(())), Outcome::Installed);
    assert_eq!(
        Outcome::of_install(&Err(InstallError::AlreadyInstalled)),
        Outcome::InstallFailed
    );
}

#[test]
fn second_install_in_a_process_fails_and_aborts() {
    let mut first = Session::new();
    let mut written = Vec::new();
    while !first.is_done() {
        let o = match first.action() {
            Action::Install => Outcome::of_install(&install_logger()),
            Action::Write(r) => {
                written.push(r.tag.text());
                Outcome::Written
            }
            _ => Outcome::Written,
        };
        first.advance(o);
    }
    assert_eq!(first.action(), Action::Exit);
    assert_eq!(written, vec!["A", "AA", "AB", "B"]);

    assert_eq!(install_logger(), Err(InstallError::AlreadyInstalled));
    let mut second = Session::new();
    second.advance(Outcome::of_install(&install_logger()));
    assert!(second.is_done());
    assert_eq!(second.action(), Action::Abort);
}
