use jitstreamer_pair::{normalize_arg, normalize_args, parse_args, upload_url, DEFAULT_TARGET};

fn strings(v: &[&str]) -> Vec<String> {
    v.iter().map(|s| s.to_string()).collect()
}

#[test]
fn em_dash_reads_as_double_hyphen() {
    assert_eq!(normalize_arg("\u{2014}target"), "--target");
}

#[test]
fn en_dash_reads_as_hyphen() {
    assert_eq!(normalize_arg("\u{2013}t"), "-t");
    assert_eq!(normalize_arg("a\u{2013}b\u{2013}"), "a-b-");
}

#[test]
fn plain_argument_is_unchanged() {
    assert_eq!(normalize_arg("https://example.org/é"), "https://example.org/é");
    assert_eq!(normalize_arg(""), "");
}

#[test]
fn em_dash_target_behaves_as_target() {
    let args = normalize_args(&strings(&["pair", "\u{2014}target", "http://10.0.0.1:8080"]));
    let o = parse_args(&args);
    assert_eq!(o.target, "http://10.0.0.1:8080");
    assert!(!o.help);
}

#[test]
fn default_target_without_flag() {
    let o = parse_args(&strings(&["pair"]));
    assert_eq!(o.target, DEFAULT_TARGET);
    assert_eq!(o.target, "https://jitstreamer.com");
    assert!(!o.help && !o.about && !o.version);
}

#[test]
fn target_flag_overrides_upload_base() {
    let o = parse_args(&strings(&["pair", "--target", "http://local:9000"]));
    assert_eq!(upload_url(&o.target, "1234"), "http://local:9000/potential_follow_up/1234/");
    let o = parse_args(&strings(&["pair", "-t", "a", "-t", "b"]));
    assert_eq!(o.target, "b");
}

#[test]
fn default_upload_url() {
    assert_eq!(
        upload_url(DEFAULT_TARGET, "abc"),
        "https://jitstreamer.com/potential_follow_up/abc/"
    );
}

#[test]
fn target_flag_without_value_is_ignored() {
    let o = parse_args(&strings(&["pair", "--target"]));
    assert_eq!(o.target, DEFAULT_TARGET);
}

#[test]
fn help_stops_reading() {
    let o = parse_args(&strings(&["pair", "-a", "-h", "-v", "-t", "x"]));
    assert!(o.help);
    assert!(o.about);
    assert!(!o.version);
    assert_eq!(o.target, DEFAULT_TARGET);
}

#[test]
fn about_and_version_flags() {
    let o = parse_args(&strings(&["pair", "--version", "--about"]));
    assert!(o.about && o.version && !o.help);
}
