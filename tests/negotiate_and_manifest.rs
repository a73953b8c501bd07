use kodi_repo::index::AddonIndex;
use kodi_repo::manifest::{ids_from_selection, read_listing, write_listing, ManifestError, SelectedNode, Selection};
use kodi_repo::negotiate::{compression_preference, negotiate, transfer, NoGzipW, Transfer};

fn payload(t: Transfer<Vec<u8>>) -> (Vec<u8>, bool) {
    match t {
        Transfer::Compressed(b) => (b, true),
        Transfer::Verbatim(w) => (w.into_inner(), false),
    }
}

#[test]
fn compression_header_values() {
    assert_eq!(compression_preference(None), Some(false));
    assert_eq!(compression_preference(Some("true")), Some(true));
    assert_eq!(compression_preference(Some("false")), Some(false));
    assert_eq!(compression_preference(Some("TRUE")), None);
    assert_eq!(compression_preference(Some("")), None);
    assert_eq!(compression_preference(Some("1")), None);
}

#[test]
fn body_identical_compressed_or_not() {
    let body = vec![1u8, 2, 3, 250];
    let with = payload(transfer(negotiate(body.clone(), true), true));
    let without = payload(transfer(negotiate(body.clone(), false), true));
    assert_eq!(with, (body.clone(), true));
    assert_eq!(without, (body.clone(), false));
}

#[test]
fn transport_refusal_falls_back_to_verbatim() {
    let body = vec![9u8; 16];
    assert_eq!(payload(transfer(negotiate(body.clone(), true), false)), (body, false));
}

#[test]
fn no_gzip_keeps_value() {
    assert_eq!(NoGzipW::new(String::from("x")).into_inner(), "x");
}

#[test]
fn read_listing_ids() {
    let text = "<addons><addon id=\"skin.estuary\" version=\"1\"/><addon id=\"plugin.video.example\"/></addons>";
    let index: AddonIndex = read_listing(text).ok().expect("listing must read");
    assert!(index.contains("skin.estuary"));
    assert!(index.contains("plugin.video.example"));
    assert!(!index.contains("unknown.addon"));
    assert!(!index.contains("1"));
}

#[test]
fn read_listing_malformed() {
    assert_eq!(read_listing("<addons><addon id=\"a\"></addons>").err(), Some(ManifestError::Malformed));
    assert_eq!(read_listing("").err(), Some(ManifestError::Malformed));
}

#[test]
fn read_listing_without_addons() {
    let index = read_listing("<other><addon id=\"a\"/></other>").ok().expect("well-formed");
    assert!(!index.contains("a"));
}

#[test]
fn selection_errors() {
    assert_eq!(ids_from_selection(Selection::NotNodes).err(), Some(ManifestError::NotNodes));
    let mixed = Selection::Nodes(vec![SelectedNode::Attribute("a".to_string()), SelectedNode::Other]);
    assert_eq!(ids_from_selection(mixed).err(), Some(ManifestError::NotAttribute));
    let good = Selection::Nodes(vec![SelectedNode::Attribute("a".to_string()), SelectedNode::Attribute("b".to_string())]);
    assert_eq!(ids_from_selection(good).ok(), Some(vec!["a".to_string(), "b".to_string()]));
    assert_eq!(ids_from_selection(Selection::Nodes(vec![])).ok(), Some(vec![]));
}

#[test]
fn write_listing_text() {
    assert_eq!(write_listing(&vec![]), "<addons></addons>");
    assert_eq!(
        write_listing(&vec!["skin.estuary".to_string(), "a&b<\"c\">".to_string()]),
        "<addons><addon id=\"skin.estuary\"/><addon id=\"a&amp;b&lt;&quot;c&quot;&gt;\"/></addons>"
    );
}

#[test]
fn written_listing_reads_back() {
    let ids = vec!["skin.estuary".to_string(), "odd&\"id\"".to_string()];
    let index = read_listing(&write_listing(&ids)).ok().expect("listing must read");
    assert!(index.contains("skin.estuary"));
    assert!(index.contains("odd&\"id\""));
    assert!(!index.contains("odd&amp;&quot;id&quot;"));
}

#[test]
fn read_listing_keeps_order_free_set() {
    let text = "<addons><addon id=\"b\"/><addon id=\"a\"/><addon id=\"b\"/></addons>";
    let index = read_listing(text).ok().expect("listing must read");
    assert!(index.contains("a"));
    assert!(index.contains("b"));
    assert!(!index.contains("c"));
}
