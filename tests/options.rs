use mp::opts::{parse_opts, OptError, Parsed};

fn args(v: &[&str]) -> Vec<String> {
    v.iter().map(|s| s.to_string()).collect()
}

fn run(v: &[&str]) -> mp::opts::Options {
    match parse_opts(&args(v)) {
        Ok(Parsed::Run(o)) => o,
        _ => panic!("expected options for {v:?}"),
    }
}

fn err(v: &[&str]) -> OptError {
    match parse_opts(&args(v)) {
        Err(e) => e,
        Ok(_) => panic!("expected an error for {v:?}"),
    }
}

#[test]
fn time_and_missing_target_is_refused() {
    // no file or command: refused before anything starts
    assert!(matches!(err(&["--time=2", "--file=data.txt"]), OptError::NoTarget));
    let o = run(&["--time=2", "--file=data.txt", "--", "ls"]);
    assert_eq!(o.time.as_deref(), Some("2"));
    assert_eq!(o.files, vec!["data.txt".to_string()]);
}

#[test]
fn file_is_watched_unless_never() {
    let o = run(&["notes.txt"]);
    assert_eq!(o.file.as_deref(), Some("notes.txt"));
    assert_eq!(o.files, vec!["notes.txt".to_string()]);
    let o = run(&["-0", "notes.txt"]);
    assert!(o.never);
    assert!(o.files.is_empty());
}

#[test]
fn command_words_are_joined() {
    let o = run(&["-e", "--", "ls", "-l", "/tmp"]);
    assert_eq!(o.cmd.as_deref(), Some("ls -l /tmp"));
    assert!(o.errexit);
    assert!(o.file.is_none());
    assert_eq!(run(&["--"]).cmd.as_deref(), Some(""));
}

#[test]
fn every_time_form() {
    assert_eq!(run(&["-t", "0.5", "f"]).time.as_deref(), Some("0.5"));
    assert_eq!(run(&["--time", "3", "f"]).time.as_deref(), Some("3"));
    assert_eq!(run(&["-t2", "f"]).time.as_deref(), Some("2"));
    assert_eq!(run(&["--time=1.5", "f"]).time.as_deref(), Some("1.5"));
    assert!(matches!(err(&["-t", "1", "-t2", "f"]), OptError::TimeTwice));
    assert!(matches!(err(&["-t"]), OptError::TimeValue));
}

#[test]
fn flags_and_watch_lists() {
    let o = run(&["-s", "--diff", "-f", "a", "--dir", "b", "--dir=c", "-d", "d", "x"]);
    assert!(o.size && o.diff && !o.never && !o.errexit);
    assert_eq!(o.files, args(&["a", "b", "c", "d", "x"]));
    assert!(matches!(err(&["-f"]), OptError::FileValue));
    assert!(matches!(err(&["--dir"]), OptError::DirValue));
}

#[test]
fn unknown_options() {
    match err(&["--colour=red", "f"]) {
        OptError::Unrecognized(a) => assert_eq!(a, "--colour=red"),
        _ => panic!("wrong error"),
    }
    for bad in ["-x", "--bogus", "-"] {
        match err(&[bad, "f"]) {
            OptError::Unrecognized(a) => assert_eq!(a, bad),
            _ => panic!("wrong error for {bad}"),
        }
    }
}

#[test]
fn never_stands_alone() {
    assert!(matches!(err(&["--never", "-s", "f"]), OptError::NeverWithUpdates));
    assert!(matches!(err(&["-0", "-t1", "--", "ls"]), OptError::NeverWithUpdates));
    assert!(run(&["-0", "--", "ls"]).never);
}

#[test]
fn help_and_version() {
    assert!(matches!(parse_opts(&args(&["-h", "--bogus=1"])), Ok(Parsed::Help)));
    assert!(matches!(parse_opts(&args(&["--version"])), Ok(Parsed::Version)));
    assert!(matches!(parse_opts(&args(&["f", "--help"])), Ok(Parsed::Run(_))));
}
