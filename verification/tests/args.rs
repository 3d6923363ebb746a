use lifecycle_core::args::{classify, Invocation};

#[test]
fn help_wins_over_paths() {
    let invocation =
        classify(Some("usage: app [FILE]...".to_string()), Some(vec!["a.torrent".to_string()]));
    assert_eq!(invocation, Invocation::Usage { text: "usage: app [FILE]...".to_string() });
    assert!(invocation.is_usage());
}

#[test]
fn paths_become_the_batch_in_order() {
    let invocation = classify(None, Some(vec!["b.torrent".to_string(), "a.torrent".to_string()]));
    assert_eq!(
        invocation,
        Invocation::Launch { batch: vec!["b.torrent".to_string(), "a.torrent".to_string()] }
    );
    assert!(!invocation.is_usage());
}

#[test]
fn no_paths_give_the_empty_batch() {
    assert_eq!(classify(None, None), Invocation::Launch { batch: vec![] });
    assert_eq!(classify(None, Some(vec![])), Invocation::Launch { batch: vec![] });
}
