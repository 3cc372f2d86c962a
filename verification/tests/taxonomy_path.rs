use suibi::taxonomy_path::{PathError, TaxonomyPath};

fn path(s: &str) -> TaxonomyPath {
    TaxonomyPath::new(s.to_string())
}

fn texts(v: &[TaxonomyPath]) -> Vec<String> {
    v.iter().map(|p| p.as_path().to_string()).collect()
}

#[test]
fn parent_drops_the_last_component() {
    assert_eq!(path("tech/rust/async").parent().unwrap().as_path(), "tech/rust");
    assert_eq!(path("tech").parent().unwrap().as_path(), "");
    assert!(path("").parent().is_none());
    assert!(path("/").parent().is_none());
    assert_eq!(path("/tech").parent().unwrap().as_path(), "/");
}

#[test]
fn ancestors_are_nearest_first() {
    assert_eq!(texts(&path("tech/rust/async").ancestors()), vec!["tech/rust", "tech", ""]);
    assert_eq!(texts(&path("/tech/rust").ancestors()), vec!["/tech", "/"]);
    assert!(path("").ancestors().is_empty());
}

#[test]
fn parent_and_child_relations() {
    // `a.is_parent_of(b)` holds when the parent of `a` is `b`.
    assert!(path("tech/rust").is_parent_of(&path("tech")));
    assert!(!path("tech").is_parent_of(&path("tech/rust")));
    assert!(!path("tech/rust/async").is_parent_of(&path("tech")));
    // `a.is_child_of(b)` is `b.is_parent_of(a)`.
    assert!(path("tech").is_child_of(&path("tech/rust")));
    assert!(!path("tech/rust").is_child_of(&path("tech")));
}

#[test]
fn ancestor_and_descendant_relations() {
    assert!(path("tech").is_ancestor_of(&path("tech/rust/async")));
    assert!(path("tech/rust").is_ancestor_of(&path("tech/rust/async")));
    assert!(!path("tech/rust/async").is_ancestor_of(&path("tech/rust/async")));
    assert!(!path("science").is_ancestor_of(&path("tech/rust")));
    assert!(path("tech/rust/async").is_descendant_of(&path("tech")));
    assert!(!path("tech").is_descendant_of(&path("tech/rust")));
}

#[test]
fn parent_is_an_ancestor() {
    let a = path("tech/rust");
    let b = path("tech");
    assert!(a.is_parent_of(&b));
    assert!(b.is_ancestor_of(&a));
    assert!(a.is_descendant_of(&b));
}

#[test]
fn paths_compare_by_components() {
    assert!(path("tech/rust") == path("tech/rust"));
    assert!(path("tech/rust") == path("tech//rust/"));
    assert!(path("tech/rust") != path("tech/go"));
    assert!(path("tech//rust").is_parent_of(&path("tech/")));
}

#[test]
fn text_round_trip_and_emptiness() {
    let p = path("tech/rust");
    assert_eq!(p.to_string(), "tech/rust");
    assert_eq!(p.clone().into_inner(), "tech/rust");
    assert!(!p.is_empty());
    assert!(path("").is_empty());
}

#[test]
fn empty_text_is_not_a_taxonomy_path() {
    assert!(matches!(TaxonomyPath::try_from(String::new()), Err(PathError::Empty)));
    let p = TaxonomyPath::try_from("tech".to_string()).unwrap();
    assert_eq!(p.as_path(), "tech");
}

#[test]
fn ancestry_is_a_strict_order() {
    let a = TaxonomyPath::new("tech".to_string());
    let b = TaxonomyPath::new("tech/rust".to_string());
    let c = TaxonomyPath::new("tech/rust/async".to_string());
    assert!(!a.is_ancestor_of(&a));
    assert!(!c.is_ancestor_of(&c));
    assert!(a.is_ancestor_of(&b) && b.is_ancestor_of(&c) && a.is_ancestor_of(&c));
    assert!(!b.is_ancestor_of(&a));
    assert!(!c.is_ancestor_of(&a));
    let spaced = TaxonomyPath::new("tech//rust/".to_string());
    assert!(!spaced.is_ancestor_of(&b) && !b.is_ancestor_of(&spaced));
    assert!(a.is_ancestor_of(&spaced));
}
