use rwlock::state::read_release_wake;
use rwlock::state::read_step;
use rwlock::state::ReadStep;
use rwlock::state::WRITER_SENTINEL;

#[test]
fn reader_decision_counts_up() {
    assert!(matches!(read_step(0), ReadStep::Acquire(1)));
    assert!(matches!(read_step(1), ReadStep::Acquire(2)));
    assert!(matches!(read_step(1000), ReadStep::Acquire(1001)));
    let highest = WRITER_SENTINEL - 2;
    match read_step(highest) {
        ReadStep::Acquire(target) => assert_eq!(target, WRITER_SENTINEL - 1),
        _ => panic!("a reader below the bound must acquire"),
    }
}

#[test]
fn reader_decision_at_the_bound() {
    assert!(matches!(read_step(WRITER_SENTINEL - 1), ReadStep::Exhausted));
}

#[test]
fn reader_decision_under_writer() {
    assert!(matches!(read_step(WRITER_SENTINEL), ReadStep::Park));
}

#[test]
fn only_final_reader_wakes() {
    assert!(read_release_wake(1));
    assert!(!read_release_wake(0));
    assert!(!read_release_wake(2));
    assert!(!read_release_wake(WRITER_SENTINEL - 1));
    assert!(!read_release_wake(WRITER_SENTINEL));
}
