use diff_locator::{DiffLocation, DiffSelection, Line, LocateError, Origin, ResolutionError};
use std::ops::Range;
use std::path::PathBuf;

const BEFORE: &str = "h2 {\n  margin-bottom: 1rem;\n}\n.event {\n  margin-bottom: 1rem;\n}\nhr {\n  margin: 1rem 0;\n}\ndiv {\n  margin: 1rem 0;\n}\n.button {\n  margin-bottom: 1rem;\n}\n";

const AFTER: &str = ".event {\n  margin-bottom: 1rem;\n}\nh2 {\n  margin-bottom: 1rem;\n  padding: 1px;\n}\nhr {\n  margin: 1rem 0;\n}\ndiv {\n  margin: 1rem 0;\n}\n.button {\n  margin-bottom: 2rem;\n}\n";

const BASE: &str = "1111111111111111111111111111111111111111";

const HEAD: &str = "2222222222222222222222222222222222222222";

fn location(base: &str, head: &str, hunk: usize, lines: Range<usize>) -> DiffLocation {
    DiffLocation {
        base: git2::Oid::from_str(base).unwrap(),
        head: git2::Oid::from_str(head).unwrap(),
        path: PathBuf::from("README"),
        selection: DiffSelection { hunk, lines },
    }
}

fn content(text: &str) -> Result<Vec<u8>, ResolutionError> {
    Ok(text.as_bytes().to_vec())
}

fn line(sigil: char, text: &str) -> Line {
    Line { sigil, content: text.as_bytes().to_vec() }
}

#[test]
fn inserted_line_is_found_at_its_coordinate() {
    let found = location(BASE, HEAD, 0, 7..8).find_lines(content(BEFORE), content(AFTER)).unwrap();
    assert_eq!(found.len(), 1);
    assert_eq!(found[0].origin(), Origin::Addition);
    assert_eq!(found[0].content, b"  padding: 1px;\n".to_vec());
}

#[test]
fn same_coordinate_against_the_base_itself_fails() {
    let outcome = location(BASE, BASE, 0, 7..8).find_lines(content(BEFORE), content(BEFORE));
    assert_eq!(outcome, Err(LocateError::HunkIndexOutOfRange));
}

#[test]
fn first_hunk_of_the_stylesheet_change_has_eleven_rows() {
    let found = location(BASE, HEAD, 0, 0..11).find_lines(content(BEFORE), content(AFTER)).unwrap();
    assert_eq!(found.len(), 11);
    assert_eq!(found[0], line('-', "h2 {\n"));
    assert_eq!(found[1], line('+', ".event {\n"));
    assert_eq!(found[10], line(' ', "  margin: 1rem 0;\n"));
    let past = location(BASE, HEAD, 0, 0..12).find_lines(content(BEFORE), content(AFTER));
    assert_eq!(past, Err(LocateError::LineIndexOutOfRange { index: 11 }));
}

#[test]
fn second_hunk_holds_the_changed_margin() {
    let found = location(BASE, HEAD, 1, 3..5).find_lines(content(BEFORE), content(AFTER));
    assert_eq!(
        found,
        Ok(vec![line('-', "  margin-bottom: 1rem;\n"), line('+', "  margin-bottom: 2rem;\n")])
    );
    let origins: Vec<Origin> = found.unwrap().iter().map(|l| l.origin()).collect();
    assert_eq!(origins, vec![Origin::Deletion, Origin::Addition]);
}

#[test]
fn hunk_past_the_last_fails() {
    let outcome = location(BASE, HEAD, 2, 0..1).find_lines(content(BEFORE), content(AFTER));
    assert_eq!(outcome, Err(LocateError::HunkIndexOutOfRange));
}

#[test]
fn empty_range_probes_a_hunk() {
    let there = location(BASE, HEAD, 1, 0..0).find_lines(content(BEFORE), content(AFTER));
    assert_eq!(there, Ok(vec![]));
    let gone = location(BASE, HEAD, 2, 0..0).find_lines(content(BEFORE), content(AFTER));
    assert_eq!(gone, Err(LocateError::HunkIndexOutOfRange));
}

#[test]
fn unchanged_content_fails_for_every_selection() {
    for hunk in 0..3 {
        for start in 0..3 {
            for end in 0..4 {
                let outcome = location(BASE, HEAD, hunk, start..end)
                    .find_lines(content(AFTER), content(AFTER));
                assert_eq!(outcome, Err(LocateError::HunkIndexOutOfRange));
            }
        }
    }
}

#[test]
fn path_missing_from_head_fails_whatever_the_selection() {
    for hunk in 0..3 {
        for end in 0..3 {
            let outcome = location(BASE, HEAD, hunk, 0..end)
                .find_lines(content(BEFORE), Err(ResolutionError::PathNotFound));
            assert_eq!(outcome, Err(LocateError::PathNotFound));
        }
    }
}

#[test]
fn path_missing_from_base_fails() {
    let outcome = location(BASE, HEAD, 0, 0..1)
        .find_lines(Err(ResolutionError::PathNotFound), content(AFTER));
    assert_eq!(outcome, Err(LocateError::PathNotFound));
    let both = location(BASE, HEAD, 0, 0..1)
        .find_lines(Err(ResolutionError::PathNotFound), Err(ResolutionError::PathNotFound));
    assert_eq!(both, Err(LocateError::PathNotFound));
}

#[test]
fn unknown_revision_fails() {
    let base = location(BASE, HEAD, 0, 0..1)
        .find_lines(Err(ResolutionError::RevisionNotFound), content(AFTER));
    assert_eq!(base, Err(LocateError::RevisionNotFound));
    let head = location(BASE, HEAD, 0, 0..1)
        .find_lines(content(BEFORE), Err(ResolutionError::RevisionNotFound));
    assert_eq!(head, Err(LocateError::RevisionNotFound));
}

#[test]
fn unknown_revision_comes_before_a_missing_path() {
    let outcome = location(BASE, HEAD, 0, 0..1)
        .find_lines(Err(ResolutionError::PathNotFound), Err(ResolutionError::RevisionNotFound));
    assert_eq!(outcome, Err(LocateError::RevisionNotFound));
    let outcome = location(BASE, HEAD, 0, 0..1)
        .find_lines(Err(ResolutionError::RevisionNotFound), Err(ResolutionError::PathNotFound));
    assert_eq!(outcome, Err(LocateError::RevisionNotFound));
}

#[test]
fn repeated_calls_give_the_same_rows() {
    let first = location(BASE, HEAD, 0, 2..9).find_lines(content(BEFORE), content(AFTER));
    let second = location(BASE, HEAD, 0, 2..9).find_lines(content(BEFORE), content(AFTER));
    assert!(first.is_ok());
    assert_eq!(first, second);
}

#[test]
fn location_keeps_what_it_was_given() {
    let at = location(BASE, HEAD, 1, 3..5);
    assert_eq!(at.base.to_string(), BASE);
    assert_eq!(at.head.to_string(), HEAD);
    assert_eq!(at.path, PathBuf::from("README"));
    assert_eq!(at.selection, DiffSelection { hunk: 1, lines: 3..5 });
}

#[test]
fn rows_of_a_commit_pair_in_a_repository_are_found() {
    let dir = tempfile::TempDir::new().unwrap();
    let repo = git2::Repository::init(dir.path().join("line-comments")).unwrap();
    let who = git2::Signature::now("nobody", "nobody@example.org").unwrap();
    let mut commits: Vec<git2::Oid> = Vec::new();
    for text in [BEFORE, AFTER] {
        let blob = repo.blob(text.as_bytes()).unwrap();
        let mut builder = repo.treebuilder(None).unwrap();
        builder.insert("README", blob, git2::FileMode::Blob.into()).unwrap();
        let tree = repo.find_tree(builder.write().unwrap()).unwrap();
        let parents: Vec<git2::Commit> =
            commits.iter().map(|id| repo.find_commit(*id).unwrap()).collect();
        let parents: Vec<&git2::Commit> = parents.iter().collect();
        commits.push(repo.commit(None, &who, &who, "", &tree, &parents).unwrap());
    }
    let at = DiffLocation {
        base: commits[0],
        head: commits[1],
        path: PathBuf::from("README"),
        selection: DiffSelection { hunk: 0, lines: 0..11 },
    };
    let read = |id: git2::Oid| -> Result<Vec<u8>, ResolutionError> {
        let tree = repo
            .find_commit(id)
            .and_then(|c| c.tree())
            .map_err(|_| ResolutionError::RevisionNotFound)?;
        let blob = tree
            .get_path(&at.path)
            .and_then(|e| e.to_object(&repo))
            .and_then(|o| o.peel_to_blob())
            .map_err(|_| ResolutionError::PathNotFound)?;
        Ok(blob.content().to_vec())
    };
    let found = at.find_lines(read(at.base), read(at.head)).unwrap();
    assert_eq!(found.len(), 11);
    assert_eq!(found[7], line('+', "  padding: 1px;\n"));
    let unknown = git2::Oid::from_str(BASE).unwrap();
    assert_eq!(
        at.find_lines(read(unknown), read(at.head)),
        Err(LocateError::RevisionNotFound)
    );
}
