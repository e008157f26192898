use careful_resume::resume::{CrState, OwnResume};
use careful_resume::saved::{
    is_usable, read_saved_file, SavedFile, SavedParams, PARAMS_MAXIMUM_GAP_SECS, SAVED_CC_FILE,
};
use careful_resume::span::Span;

const FILE: &str = "rtt,5,cwnd,80000,time,1000";

#[test]
fn constants() {
    assert_eq!(SAVED_CC_FILE, "saved_params.csv");
    assert_eq!(PARAMS_MAXIMUM_GAP_SECS, 120 * 60);
}

#[test]
fn complete_file() {
    assert_eq!(
        read_saved_file(FILE),
        SavedFile::Params(SavedParams { rtt_secs: Some(5), cwnd: Some(80000), time_secs: Some(1000) })
    );
    // What follows the sixth field is not read.
    assert_eq!(read_saved_file("rtt,5,cwnd,80000,time,1000,more"), read_saved_file(FILE));
}

#[test]
fn fields_without_a_number() {
    assert_eq!(
        read_saved_file("rtt,x,cwnd,,time,1000\n"),
        SavedFile::Params(SavedParams { rtt_secs: None, cwnd: None, time_secs: None })
    );
}

#[test]
fn short_files() {
    assert_eq!(read_saved_file(""), SavedFile::Blank);
    assert_eq!(read_saved_file("nothing here"), SavedFile::Blank);
    assert_eq!(read_saved_file("rtt,5"), SavedFile::Truncated);
    assert_eq!(read_saved_file("rtt,5,cwnd,80000"), SavedFile::Truncated);
    assert_eq!(read_saved_file("rtt,5,cwnd,80000,time"), SavedFile::Truncated);
}

#[test]
fn usable_files() {
    let now = Span::from_secs(1000);
    assert!(is_usable(None, Span::from_secs(0)));
    assert!(is_usable(Some(""), Span::from_secs(0)));
    assert!(is_usable(Some(FILE), now));
    assert!(!is_usable(Some(FILE), Span::new(999, 999_999_999)));
    assert!(!is_usable(Some("rtt,5,cwnd"), now));
}

#[test]
fn missing_or_blank_file_disables() {
    for contents in [None, Some(""), Some("5")] {
        let mut r = OwnResume::new(contents, Span::from_secs(0));
        assert_eq!(r.get_saved_rtt(), u64::MAX);
        assert_eq!(r.get_saved_cwnd(), 0);
        assert_eq!(r.get_state(), CrState::Reconnaissance);
        assert!(!r.enabled());
        assert_eq!(r.get_state(), CrState::Normal);
    }
}

#[test]
fn saved_parameters_expire() {
    let mut fresh = OwnResume::new(Some(FILE), Span::from_secs(1000 + 7200));
    assert!(fresh.enabled());
    assert_eq!(fresh.get_saved_rtt(), 5);
    assert_eq!(fresh.get_saved_cwnd(), 80000);
    let mut stale = OwnResume::new(Some(FILE), Span::new(1000 + 7200, 1));
    assert!(!stale.enabled());
    // The parameters are kept even where they are too old to be used.
    assert_eq!(stale.get_saved_cwnd(), 80000);
}

#[test]
fn missing_parameter_disables() {
    let now = Span::from_secs(1000);
    let mut no_rtt = OwnResume::new(Some("rtt,x,cwnd,80000,time,1000"), now);
    assert!(!no_rtt.enabled());
    assert_eq!((no_rtt.get_saved_rtt(), no_rtt.get_saved_cwnd()), (u64::MAX, 80000));
    let mut no_cwnd = OwnResume::new(Some("rtt,5,cwnd,,time,1000"), now);
    assert!(!no_cwnd.enabled());
    assert_eq!((no_cwnd.get_saved_rtt(), no_cwnd.get_saved_cwnd()), (5, 0));
    assert!(OwnResume::new(Some("rtt,5,cwnd,80000,time,1000"), now).enabled());
}

#[test]
fn unreadable_time_counts_from_the_epoch() {
    let file = "rtt,5,cwnd,80000,time,?";
    assert!(OwnResume::new(Some(file), Span::from_secs(7200)).enabled());
    assert!(!OwnResume::new(Some(file), Span::from_secs(7201)).enabled());
}
