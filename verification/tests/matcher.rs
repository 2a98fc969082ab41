use relic_ocr::error::OcrError;
use relic_ocr::matcher::{closest_index, find_closest_levenshtein_match, CatalogItem};

fn item(name: &str) -> CatalogItem {
    CatalogItem {
        id: format!("id-{}", name),
        url_name: name.to_lowercase().replace(' ', "_"),
        thumb: format!("{}.png", name),
        item_name: name.to_string(),
    }
}

fn catalog(names: &[&str]) -> Vec<CatalogItem> {
    names.iter().map(|n| item(n)).collect()
}

#[test]
fn exact_name_returns_its_entry() {
    let items = catalog(&["Neo Lith", "Meso Lith", "Axi Lith", "Forma Blueprint"]);
    for expected in &items {
        let found = find_closest_levenshtein_match(&items, &expected.item_name);
        assert_eq!(found, Ok(expected.clone()));
    }
}

#[test]
fn noisy_name_resolves_to_nearest() {
    let items = catalog(&["Neo Lith", "Meso Lith"]);
    let found = find_closest_levenshtein_match(&items, "Neo Litn").unwrap();
    assert_eq!(found.item_name, "Neo Lith");
    assert_eq!(found, items[0]);
    assert_eq!(closest_index(&items, "Neo Litn"), Some(0));
    assert_eq!(closest_index(&items, "Meso Lit"), Some(1));
}

#[test]
fn empty_catalog_is_an_error() {
    let items: Vec<CatalogItem> = Vec::new();
    assert_eq!(find_closest_levenshtein_match(&items, "Neo Lith"), Err(OcrError::EmptyCatalog));
    assert_eq!(find_closest_levenshtein_match(&items, ""), Err(OcrError::EmptyCatalog));
    assert_eq!(closest_index(&items, "anything"), None);
}

#[test]
fn first_entry_wins_a_tie() {
    // "cat" is one substitution from both "bat" and "cab"
    let items = catalog(&["bat", "cab", "dog"]);
    assert_eq!(closest_index(&items, "cat"), Some(0));
    let swapped = catalog(&["dog", "cab", "bat"]);
    assert_eq!(closest_index(&swapped, "cat"), Some(1));
    // equal names: the first of them
    let twice = catalog(&["same", "same"]);
    assert_eq!(closest_index(&twice, "same"), Some(0));
}

#[test]
fn later_entry_wins_only_when_strictly_nearer() {
    let items = catalog(&["kitten", "sitten", "sittin", "sitting"]);
    assert_eq!(closest_index(&items, "sitting"), Some(3));
    assert_eq!(closest_index(&items, "sittin"), Some(2));
    assert_eq!(closest_index(&items, "mitten"), Some(0));
}

#[test]
fn distance_is_counted_over_characters() {
    // one character each, though several bytes
    let items = catalog(&["ab", "é"]);
    assert_eq!(closest_index(&items, "è"), Some(1));
}

#[test]
fn far_targets_still_match() {
    let items = catalog(&["a"]);
    let long: String = "z".repeat(12000);
    assert_eq!(closest_index(&items, &long), Some(0));
    assert_eq!(find_closest_levenshtein_match(&items, &long), Ok(items[0].clone()));
}

#[test]
fn sentinel_entry_is_matched_like_any_other() {
    let mut items = catalog(&["Neo Lith", "Meso Lith"]);
    items.push(CatalogItem {
        id: String::new(),
        url_name: String::new(),
        thumb: String::new(),
        item_name: "Forma Blueprint".to_string(),
    });
    let found = find_closest_levenshtein_match(&items, "Forma Bluepr1nt").unwrap();
    assert_eq!(found.item_name, "Forma Blueprint");
    assert_eq!(found.id, "");
}

#[test]
fn clone_keeps_every_field() {
    let a = item("Axi Lith");
    let b = a.clone();
    assert_eq!(a, b);
    assert_eq!(b.id, "id-Axi Lith");
    assert_eq!(b.url_name, "axi_lith");
    assert_eq!(b.thumb, "Axi Lith.png");
}
