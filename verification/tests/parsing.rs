use nightly_watch::check::update;
use nightly_watch::check::Updated;
use nightly_watch::errors::CheckError;
use nightly_watch::errors::NotifyError;
use nightly_watch::errors::ProbeError;
use nightly_watch::notify::notify_message;
use nightly_watch::notify::PREAMBLE;
use nightly_watch::notify::URL_PREFIX;
use nightly_watch::probe::get_rustc_version;

#[test]
fn extracts_date_field() {
    let r = get_rustc_version("rustc 1.80.0-nightly (abcdef123 2024-05-01)");
    assert_eq!(r, Ok("2024-05-01".to_string()));
}

#[test]
fn no_qualifying_field_fails() {
    let r = get_rustc_version("rustc 1.80.0-stable");
    assert_eq!(r, Err(ProbeError::NoMatch));
}

#[test]
fn empty_output_fails() {
    assert_eq!(get_rustc_version(""), Err(ProbeError::NoMatch));
    assert_eq!(get_rustc_version("   \t\n  "), Err(ProbeError::NoMatch));
}

#[test]
fn two_qualifying_fields_fail() {
    let r = get_rustc_version("a-b-c d-e-f");
    assert_eq!(r, Err(ProbeError::NoMatch));
}

#[test]
fn strips_exactly_one_trailing_character() {
    assert_eq!(get_rustc_version("2024-05-01)"), Ok("2024-05-01".to_string()));
    assert_eq!(get_rustc_version("--"), Ok("-".to_string()));
}

#[test]
fn surrounding_whitespace_is_ignored() {
    let r = get_rustc_version("  \t\n one 1.2.3 \n 2024-05-01) \n");
    assert_eq!(r, Ok("2024-05-01".to_string()));
}

#[test]
fn splits_on_unicode_whitespace() {
    // An em space separates the fields just as an ASCII space would.
    let r = get_rustc_version("a-b-c\u{2003}def");
    assert_eq!(r, Ok("a-b-".to_string()));
}

#[test]
fn one_separator_is_not_enough() {
    assert_eq!(get_rustc_version("1.80.0-nightly"), Err(ProbeError::NoMatch));
}

#[test]
fn unchanged_marker_means_no_update() {
    assert_eq!(update("info: component 'nightly' is unchanged"), Updated::No);
}

#[test]
fn up_to_date_output_means_update() {
    // "up to date" does not contain the marker, so the outcome is a change.
    assert_eq!(update("info: component 'nightly' is up to date"), Updated::Yes);
}

#[test]
fn empty_output_means_update() {
    assert_eq!(update(""), Updated::Yes);
}

#[test]
fn marker_found_inside_a_word() {
    assert_eq!(update("xxunchangedyy"), Updated::No);
    assert_eq!(update("unchanged"), Updated::No);
}

#[test]
fn boolean_conversion_flips_polarity() {
    // The raw boolean says "the marker was present", so it inverts.
    assert_eq!(Updated::from(true), Updated::No);
    assert_eq!(Updated::from(false), Updated::Yes);
}

#[test]
fn message_is_plain_concatenation() {
    let v = "2024-05-01";
    let msg = notify_message(v);
    assert_eq!(msg, format!("{}{}{}", PREAMBLE, URL_PREFIX, v));
    assert_eq!(
        msg,
        "A new nightly has been released. See what has changed since the last \
         one https://github.com/rust-lang/rust/commits/master?since=2024-05-01"
    );
}

#[test]
fn error_messages_name_the_failing_phase() {
    assert!(ProbeError::Subprocess.message().starts_with("probe failed"));
    assert!(ProbeError::Decode.message().starts_with("probe failed"));
    assert!(ProbeError::NoMatch.message().starts_with("probe failed"));
    assert!(CheckError::Subprocess.message().starts_with("check failed"));
    assert!(CheckError::Decode.message().starts_with("check failed"));
    assert!(NotifyError::Auth.message().starts_with("notify failed"));
    assert!(NotifyError::Transport.message().starts_with("notify failed"));
}
