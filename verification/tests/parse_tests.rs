use status::kind::ChangeKind;
use status::parse::parse_line;

fn kinds() -> Vec<ChangeKind> {
    vec![
        ChangeKind::Deleted,
        ChangeKind::Modified,
        ChangeKind::NotTracked,
        ChangeKind::Added,
        ChangeKind::ModifiedInBothStages,
        ChangeKind::AddedThenModified,
    ]
}

#[test]
fn recognized_codes_parse() {
    let cases = vec![
        (" D", ChangeKind::Deleted),
        (" M", ChangeKind::Modified),
        ("??", ChangeKind::NotTracked),
        (" A", ChangeKind::Added),
        ("MM", ChangeKind::ModifiedInBothStages),
        ("AM", ChangeKind::AddedThenModified),
    ];
    for (code, kind) in cases {
        let line = format!("{} some/path.txt", code);
        let fc = parse_line(&line).unwrap();
        assert_eq!(fc.kind, kind);
        assert_eq!(fc.path, "some/path.txt");
    }
}

#[test]
fn display_code_round_trips() {
    for kind in kinds() {
        let line = format!("{} p", kind.code());
        let fc = parse_line(&line).unwrap();
        assert_eq!(fc.kind, kind);
        assert_eq!(fc.path, "p");
    }
}

#[test]
fn display_codes_are_the_fixed_set() {
    assert_eq!(ChangeKind::Deleted.code(), " D");
    assert_eq!(ChangeKind::Modified.code(), " M");
    assert_eq!(ChangeKind::NotTracked.code(), "??");
    assert_eq!(ChangeKind::Added.code(), " A");
    assert_eq!(ChangeKind::ModifiedInBothStages.code(), "MM");
    assert_eq!(ChangeKind::AddedThenModified.code(), "AM");
}

#[test]
fn from_code_matches_table() {
    assert_eq!(ChangeKind::from_code(' ', 'D'), Some(ChangeKind::Deleted));
    assert_eq!(ChangeKind::from_code(' ', 'M'), Some(ChangeKind::Modified));
    assert_eq!(ChangeKind::from_code('?', '?'), Some(ChangeKind::NotTracked));
    assert_eq!(ChangeKind::from_code(' ', 'A'), Some(ChangeKind::Added));
    assert_eq!(ChangeKind::from_code('M', 'M'), Some(ChangeKind::ModifiedInBothStages));
    assert_eq!(ChangeKind::from_code('A', 'M'), Some(ChangeKind::AddedThenModified));
    assert_eq!(ChangeKind::from_code('X', 'Y'), None);
    assert_eq!(ChangeKind::from_code('D', ' '), None);
}

#[test]
fn untracked_source_file() {
    let fc = parse_line("?? src/awesome.rs").unwrap();
    assert_eq!(fc.kind, ChangeKind::NotTracked);
    assert_eq!(fc.path, "src/awesome.rs");
}

#[test]
fn deleted_license() {
    let fc = parse_line(" D LICENSE").unwrap();
    assert_eq!(fc.kind, ChangeKind::Deleted);
    assert_eq!(fc.path, "LICENSE");
}

#[test]
fn unrecognized_codes_rejected() {
    for line in ["XX foo", "zz a", "D  x", "?! a", "M? b", "A  c"] {
        let err = parse_line(line).unwrap_err();
        assert_eq!(err.line, line);
    }
}

#[test]
fn short_lines_rejected() {
    for line in ["", "?", "??", " D"] {
        let err = parse_line(line).unwrap_err();
        assert_eq!(err.line, line);
    }
}

#[test]
fn missing_separator_rejected() {
    for line in ["??x", "MMabc", " D.gitignore"] {
        let err = parse_line(line).unwrap_err();
        assert_eq!(err.line, line);
    }
}

#[test]
fn path_taken_verbatim_after_separator() {
    let fc = parse_line(" D  lorem").unwrap();
    assert_eq!(fc.kind, ChangeKind::Deleted);
    assert_eq!(fc.path, " lorem");
}

#[test]
fn empty_path_accepted() {
    let fc = parse_line("?? ").unwrap();
    assert_eq!(fc.kind, ChangeKind::NotTracked);
    assert_eq!(fc.path, "");
}
