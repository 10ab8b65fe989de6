use nargo_debug::path::SourcePath;

fn path(parts: &[&str]) -> SourcePath {
    SourcePath::new(parts.iter().map(|part| part.to_string()).collect())
}

#[test]
fn new_keeps_the_segments_in_order() {
    let p = SourcePath::new(vec!["src".to_string(), "main.nr".to_string()]);
    assert_eq!(p.segments, vec!["src".to_string(), "main.nr".to_string()]);
    assert_eq!(p.len(), 2);
    assert_eq!(path(&[]).len(), 0);
}

#[test]
fn parent_drops_the_last_segment() {
    assert_eq!(path(&["src", "main.nr"]).parent(), Some(path(&["src"])));
    assert_eq!(path(&["/", "home", "foo", "src", "main.nr"]).parent(), Some(path(&["/", "home", "foo", "src"])));
    assert_eq!(path(&["/", "main.nr"]).parent(), Some(path(&["/"])));
}

#[test]
fn parent_of_a_bare_file_name_is_none() {
    assert_eq!(path(&["main.nr"]).parent(), None);
}

#[test]
fn parent_of_the_root_and_of_the_empty_path_is_none() {
    assert_eq!(path(&["/"]).parent(), None);
    assert_eq!(path(&[]).parent(), None);
}

#[test]
fn same_as_compares_segment_by_segment() {
    assert!(path(&["a", "b"]).same_as(&path(&["a", "b"])));
    assert!(!path(&["a", "b"]).same_as(&path(&["a", "c"])));
    assert!(!path(&["a", "b"]).same_as(&path(&["a"])));
    assert!(!path(&["a"]).same_as(&path(&["a", "b"])));
    assert!(path(&[]).same_as(&path(&[])));
    assert!(!path(&["/", "a"]).same_as(&path(&["a"])));
}

#[test]
fn prefix_is_looks_at_the_first_segments_only() {
    let p = path(&["src", "utils", "math.nr"]);
    assert!(p.prefix_is(1, &path(&["src"])));
    assert!(p.prefix_is(2, &path(&["src", "utils"])));
    assert!(p.prefix_is(3, &path(&["src", "utils", "math.nr"])));
    assert!(p.prefix_is(0, &path(&[])));
    assert!(!p.prefix_is(2, &path(&["src"])));
    assert!(!p.prefix_is(1, &path(&["utils"])));
    assert!(!p.prefix_is(2, &path(&["src", "util"])));
    assert!(!p.prefix_is(4, &path(&["src", "utils", "math.nr", "x"])));
    assert!(!p.prefix_is(4, &path(&["src", "utils", "math.nr"])));
}


#[test]
fn has_ancestor_finds_the_path_itself_and_every_directory_above() {
    let p = path(&["src", "utils", "math.nr"]);
    assert!(p.has_ancestor(&path(&["src", "utils", "math.nr"])));
    assert!(p.has_ancestor(&path(&["src", "utils"])));
    assert!(p.has_ancestor(&path(&["src"])));
}

#[test]
fn has_ancestor_rejects_what_is_not_above() {
    let p = path(&["src", "utils", "math.nr"]);
    assert!(!p.has_ancestor(&path(&["utils"])));
    assert!(!p.has_ancestor(&path(&["src", "utils", "math.nr", "x"])));
    assert!(!p.has_ancestor(&path(&["other", "src"])));
    assert!(!p.has_ancestor(&path(&["sr"])));
    assert!(!p.has_ancestor(&path(&["/", "src"])));
}

#[test]
fn the_empty_path_is_only_its_own_ancestor() {
    assert!(!path(&["src", "main.nr"]).has_ancestor(&path(&[])));
    assert!(!path(&["main.nr"]).has_ancestor(&path(&[])));
    assert!(path(&[]).has_ancestor(&path(&[])));
    assert!(!path(&[]).has_ancestor(&path(&["src"])));
}

#[test]
fn a_single_segment_has_itself_as_ancestor() {
    assert!(path(&["src"]).has_ancestor(&path(&["src"])));
    assert!(!path(&["src"]).has_ancestor(&path(&["lib"])));
}
