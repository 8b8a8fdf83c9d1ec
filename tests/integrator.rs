use pathtrace::integrator::{advance, begin, Outcome, Step, Terminal};

#[test]
fn zero_budget_is_black() {
    assert_eq!(begin(0), Step::Finish(Terminal::Black));
}

#[test]
fn positive_budget_is_traced() {
    assert_eq!(begin(1), Step::Trace(1));
    assert_eq!(begin(50), Step::Trace(50));
    assert_eq!(begin(u64::MAX), Step::Trace(u64::MAX));
}

#[test]
fn miss_gives_sky() {
    assert_eq!(advance(3, Outcome::Missed), Step::Finish(Terminal::Sky));
}

#[test]
fn absorption_gives_black() {
    assert_eq!(advance(3, Outcome::Absorbed), Step::Finish(Terminal::Black));
}

#[test]
fn scatter_spends_one_bounce() {
    assert_eq!(advance(3, Outcome::Scattered), Step::Trace(2));
    assert_eq!(advance(1, Outcome::Scattered), Step::Finish(Terminal::Black));
}

#[test]
fn path_ends_within_budget() {
    let mut depth: u64 = 5;
    let mut bounces: u64 = 0;
    let end = loop {
        match begin(depth) {
            Step::Finish(t) => break t,
            Step::Trace(d) => match advance(d, Outcome::Scattered) {
                Step::Finish(t) => break t,
                Step::Trace(next) => {
                    bounces += 1;
                    depth = next;
                }
            },
        }
    };
    assert_eq!(end, Terminal::Black);
    assert_eq!(bounces, 4);
}
