use markup_css_once::{css_once, CssOnce};

#[test]
fn first_call_is_not_rendered() {
    let mut css = CssOnce::new();
    assert!(!css.is_rendered("Hello"));
}

#[test]
fn repeated_calls_are_rendered() {
    let mut css = CssOnce::new();
    assert!(!css.is_rendered("Hello"));
    assert!(css.is_rendered("Hello"));
    assert!(css.is_rendered("Hello"));
    assert!(css.is_rendered("Hello"));
}

#[test]
fn distinct_kinds_are_independent() {
    let mut css = CssOnce::new();
    assert!(!css.is_rendered("Hello"));
    assert!(!css.is_rendered("Goodbye"));
    assert!(css.is_rendered("Hello"));
    assert!(css.is_rendered("Goodbye"));
}

#[test]
fn separate_trackers_do_not_share_state() {
    let mut a = CssOnce::new();
    let mut b = CssOnce::new();
    assert!(!a.is_rendered("Hello"));
    assert!(a.is_rendered("Hello"));
    assert!(!b.is_rendered("Hello"));
    assert!(b.is_rendered("Hello"));
}

#[test]
fn default_tracker_is_fresh() {
    let mut css = CssOnce::default();
    assert!(!css.is_rendered("Hello"));
    assert!(css.is_rendered("Hello"));
}

#[test]
fn empty_kind_is_a_kind() {
    let mut css = CssOnce::new();
    assert!(!css.is_rendered(""));
    assert!(css.is_rendered(""));
    assert!(!css.is_rendered("Hello"));
}

#[test]
fn kinds_differing_in_case_are_distinct() {
    let mut css = CssOnce::new();
    assert!(!css.is_rendered("hello"));
    assert!(!css.is_rendered("Hello"));
}

#[test]
fn interleaved_kinds_emit_on_first_occurrence_only() {
    let mut css = CssOnce::new();
    let a = ["p { color: red }"];
    let b = ["b { color: green }"];
    assert_eq!(css_once(&mut css, "A", &a), "<style>p { color: red }</style>\n");
    assert_eq!(css_once(&mut css, "B", &b), "<style>b { color: green }</style>\n");
    assert_eq!(css_once(&mut css, "A", &a), "");
    assert_eq!(css_once(&mut css, "B", &b), "");
}
