use relic_ocr::config::{add_sentinel, fix_items, is_part_name, sentinel, Config, ITEMS_CACHE_EXPIRY_S};
use relic_ocr::matcher::CatalogItem;

fn item(name: &str) -> CatalogItem {
    CatalogItem {
        id: format!("id-{}", name),
        url_name: format!("url-{}", name),
        thumb: format!("thumb-{}", name),
        item_name: name.to_string(),
    }
}

fn config(stamp: u64, names: &[&str]) -> Config {
    Config {
        jwt_token: "token".to_string(),
        items_timestamp: stamp,
        items: names.iter().map(|n| item(n)).collect(),
    }
}

#[test]
fn catalog_expires_after_a_day() {
    assert_eq!(ITEMS_CACHE_EXPIRY_S, 86400);
    let c = config(1000, &[]);
    assert!(!c.is_stale(1000));
    assert!(!c.is_stale(1000 + 86400));
    assert!(c.is_stale(1000 + 86401));
    assert!(c.is_stale(u64::MAX));
    assert!(!c.is_stale(0));
    assert!(!config(u64::MAX, &[]).is_stale(5));
}

#[test]
fn part_names_are_told_by_their_word() {
    assert!(is_part_name("Ash Prime Neuroptics"));
    assert!(is_part_name("Ash Prime Systems"));
    assert!(is_part_name("Ash Prime Chassis"));
    assert!(is_part_name("Chassis"));
    assert!(is_part_name("xSystemsx"));
    assert!(!is_part_name("Ash Prime Blueprint"));
    assert!(!is_part_name("ash prime chassis"));
    assert!(!is_part_name("Chassi"));
    assert!(!is_part_name(""));
}

#[test]
fn fix_items_names_parts_as_shown() {
    let mut items: Vec<CatalogItem> = vec![
        item("Ash Prime Neuroptics"),
        item("Braton Prime Barrel"),
        item("Ember Prime Systems"),
        item("Frost Prime Chassis"),
        item("Forma Blueprint"),
    ];
    let before = items.clone();
    fix_items(&mut items);
    let names: Vec<&str> = items.iter().map(|i| i.item_name.as_str()).collect();
    assert_eq!(
        names,
        vec![
            "Ash Prime Neuroptics blueprint",
            "Braton Prime Barrel",
            "Ember Prime Systems blueprint",
            "Frost Prime Chassis blueprint",
            "Forma Blueprint",
        ]
    );
    for (a, b) in items.iter().zip(before.iter()) {
        assert_eq!(a.id, b.id);
        assert_eq!(a.url_name, b.url_name);
        assert_eq!(a.thumb, b.thumb);
    }
    let mut none: Vec<CatalogItem> = Vec::new();
    fix_items(&mut none);
    assert!(none.is_empty());
}

#[test]
fn sentinel_has_only_a_name() {
    let s = sentinel();
    assert_eq!(s.item_name, "Forma Blueprint");
    assert_eq!(s.id, "");
    assert_eq!(s.url_name, "");
    assert_eq!(s.thumb, "");
}

#[test]
fn sentinel_is_appended_last() {
    let mut c = config(7, &["Neo Lith", "Meso Lith"]);
    let before = c.clone();
    add_sentinel(&mut c);
    assert_eq!(c.jwt_token, before.jwt_token);
    assert_eq!(c.items_timestamp, 7);
    assert_eq!(c.items.len(), 3);
    assert_eq!(&c.items[..2], &before.items[..]);
    assert_eq!(c.items[2], sentinel());
}
