use cycle_certs::text::{copy_optional, join, sanitize};

#[test]
fn join_puts_the_separator_between_neighbours() {
    let none: Vec<String> = vec![];
    assert_eq!(join(&none, "_"), "");
    assert_eq!(join(&vec!["a".to_string()], "_"), "a");
    assert_eq!(join(&vec!["a".to_string(), "b".to_string(), "c".to_string()], "_"), "a_b_c");
    assert_eq!(join(&vec!["".to_string(), "".to_string()], "--"), "--");
    assert_eq!(join(&vec!["a".to_string(), "b".to_string()], ""), "ab");
}

#[test]
fn sanitize_replaces_every_dot() {
    assert_eq!(sanitize(""), "");
    assert_eq!(sanitize("cycle.io"), "cycle_io");
    assert_eq!(sanitize("..."), "___");
    assert_eq!(sanitize("no dots_here"), "no dots_here");
    assert_eq!(sanitize("ü.ö"), "ü_ö");
}

#[test]
fn optional_texts_are_copied() {
    assert_eq!(copy_optional(&None), None);
    assert_eq!(copy_optional(&Some("x".to_string())), Some("x".to_string()));
}
