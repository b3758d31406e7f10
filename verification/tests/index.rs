use karpal::index::item::ApiItem;
use karpal::index::source::parse_source;
use karpal::index::workspace::{CrateSource, WorkspaceIndex, build_cross_references};

const SOURCE: &str = "/// A semigroup. Combines values.
pub trait Semigroup {
    fn combine(self, other: Self) -> Self;
}

/// A monoid.
pub trait Monoid: Semigroup {
    fn empty() -> Self;
    type Item;
}

pub struct Sum;

impl Semigroup for Sum {
}

pub enum Choice { A, B }

pub type Alias = Sum;

pub fn helper(x: u8) -> u8 { x }
";

fn parsed() -> Vec<ApiItem> {
    let mut items = Vec::new();
    assert!(parse_source(SOURCE, "algebra", "algebra/src/lib.rs", &mut items));
    items
}

#[test]
fn parse_source_finds_public_items() {
    let items = parsed();
    let names: Vec<&str> = items.iter().map(|i| i.name.as_str()).collect();
    assert_eq!(names, vec!["Semigroup", "Monoid", "Sum", "Choice", "Alias", "helper"]);
    let kinds: Vec<&str> = items.iter().map(|i| i.kind).collect();
    assert_eq!(kinds, vec!["trait", "trait", "struct", "enum", "type alias", "function"]);
    assert_eq!(items[0].docs.as_deref(), Some("A semigroup. Combines values."));
    assert_eq!(items[0].summary.as_deref(), Some("A semigroup"));
    assert_eq!(items[0].methods, vec!["fn combine(self, other: Self) -> Self;"]);
    assert_eq!(items[1].supertraits, vec!["Semigroup"]);
    assert_eq!(items[1].methods, vec!["fn empty() -> Self;", "type Item;"]);
    assert_eq!(items[0].implementors, vec!["Sum"]);
    assert_eq!(items[2].trait_impls, vec!["Semigroup"]);
    assert_eq!(items[5].signature.as_deref(), Some("pub fn helper(x: u8) -> u8 { x }"));
    assert_eq!(items[2].crate_name, "algebra");
    assert_eq!(items[2].path, "algebra/src/lib.rs:12");
    assert_eq!(items[0].path, "algebra/src/lib.rs:5");
    assert_eq!(items[1].summary.as_deref(), Some("A monoid."));
}

#[test]
fn unbalanced_trait_body_is_rejected() {
    let mut items = parsed();
    let before = items.len();
    assert!(!parse_source("pub trait Broken {\n}}\n", "c", "p", &mut items));
    assert_eq!(items.len(), before);
}

#[test]
fn cross_references_record_subtraits() {
    let mut items = parsed();
    build_cross_references(&mut items);
    assert_eq!(items[0].subtraits, vec!["Monoid"]);
    assert!(items[1].subtraits.is_empty());
}

fn sample_index() -> WorkspaceIndex {
    let crates = vec![
        CrateSource {
            name: "karpal-core".to_string(),
            manifest: "[package]\nname = \"karpal-core\"\ndescription = \"Core traits\"\n".to_string(),
            files: vec![("karpal-core/src/lib.rs".to_string(), SOURCE.to_string())],
        },
        CrateSource {
            name: "karpal-cli".to_string(),
            manifest: "[package]\ndescription = \"A tool\"\n[[bin]]\nname = \"cli\"\n".to_string(),
            files: vec![("karpal-cli/src/main.rs".to_string(), "pub struct Hidden;\n".to_string())],
        },
        CrateSource {
            name: "alpha".to_string(),
            manifest: "description = \"First\"\n".to_string(),
            files: vec![("alpha/src/lib.rs".to_string(), "pub struct monoidal;\n".to_string())],
        },
    ];
    WorkspaceIndex::build(&crates)
}

#[test]
fn build_skips_binaries_and_sorts_descriptions() {
    let index = sample_index();
    assert!(index.find("Hidden").is_none());
    let names: Vec<&str> = index.crate_descriptions.iter().map(|(n, _)| n.as_str()).collect();
    assert_eq!(names, vec!["alpha", "karpal-core"]);
    assert_eq!(index.crate_descriptions[1].1, "Core traits");
    assert_eq!(index.crate_item_count("karpal-core"), 6);
    assert_eq!(index.crate_item_count("alpha"), 1);
    assert_eq!(index.find("Semigroup").unwrap().subtraits, vec!["Monoid"]);
}

#[test]
fn search_is_case_insensitive_and_sorted() {
    let index = sample_index();
    let found: Vec<&str> = index.search("MONOID").iter().map(|i| i.name.as_str()).collect();
    assert_eq!(found, vec!["Monoid", "monoidal"]);
    assert!(index.search("nothing-like-this").is_empty());
    assert_eq!(index.search("").len(), index.items.len());
}

#[test]
fn set_description_replaces_and_inserts_in_order() {
    let mut index = WorkspaceIndex { items: Vec::new(), crate_descriptions: Vec::new() };
    index.set_description("b".to_string(), "1".to_string());
    index.set_description("a".to_string(), "2".to_string());
    index.set_description("b".to_string(), "3".to_string());
    assert_eq!(
        index.crate_descriptions,
        vec![("a".to_string(), "2".to_string()), ("b".to_string(), "3".to_string())]
    );
}
