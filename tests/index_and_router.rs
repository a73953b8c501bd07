use kodi_repo::cache::ArchiveCache;
use kodi_repo::index::AddonIndex;
use kodi_repo::negotiate::Transfer;
use kodi_repo::router::{archive_path, existence, outcome_status, serve, Request, ServeStep};

fn sample_index() -> AddonIndex {
    AddonIndex::from_ids(vec!["skin.estuary".to_string(), "plugin.video.example".to_string()])
}

#[test]
fn index_contains_exactly_listed_ids() {
    let index = sample_index();
    assert!(index.contains("skin.estuary"));
    assert!(index.contains("plugin.video.example"));
    assert!(!index.contains("unknown.addon"));
    assert!(!index.contains(""));
    assert!(!index.contains("skin.estuar"));
    assert!(!index.contains("skin.estuary "));
}

#[test]
fn empty_index_contains_nothing() {
    let index = AddonIndex::from_ids(vec![]);
    assert!(!index.contains("skin.estuary"));
    assert!(!index.contains(""));
}

#[test]
fn existence_of_known_addon() {
    let r = existence(&sample_index(), "skin.estuary");
    assert_eq!(r.status, 200);
    assert_eq!(r.body, "skin.estuary exists!");
}

#[test]
fn existence_of_unknown_addon() {
    let index = sample_index();
    let r = existence(&index, "unknown.addon");
    assert_eq!(r.status, 404);
    assert_eq!(r.body, "");
    let r = existence(&index, "");
    assert_eq!(r.status, 404);
    let r = existence(&index, "../skin.estuary");
    assert_eq!(r.status, 404);
}

#[test]
fn archive_path_in_cache_dir() {
    assert_eq!(archive_path("/srv/addons/.zips", "skin.estuary"), "/srv/addons/.zips/skin.estuary.zip");
}

#[test]
fn outcome_statuses() {
    assert_eq!(outcome_status(&Some("a.zip".to_string())), 200);
    assert_eq!(outcome_status(&None), 500);
}

fn body_of(step: ServeStep) -> (u16, String, bool) {
    match step {
        ServeStep::Respond(Transfer::Compressed(r)) => (r.status, r.body, true),
        ServeStep::Respond(Transfer::Verbatim(w)) => {
            let r = w.into_inner();
            (r.status, r.body, false)
        }
        _ => panic!("expected a response"),
    }
}

#[test]
fn serve_existence_same_body_either_way() {
    let index = sample_index();
    let mut cache = ArchiveCache::new();
    let req = Request::Existence("skin.estuary".to_string());
    let plain = body_of(serve(&index, &mut cache, "/c", &req, None, true, 1));
    let zipped = body_of(serve(&index, &mut cache, "/c", &req, Some("true"), true, 2));
    let refused = body_of(serve(&index, &mut cache, "/c", &req, Some("true"), false, 3));
    let said_no = body_of(serve(&index, &mut cache, "/c", &req, Some("false"), true, 4));
    assert_eq!(plain, (200, "skin.estuary exists!".to_string(), false));
    assert_eq!(zipped, (200, "skin.estuary exists!".to_string(), true));
    assert_eq!(refused, (200, "skin.estuary exists!".to_string(), false));
    assert_eq!(said_no, (200, "skin.estuary exists!".to_string(), false));
}

#[test]
fn serve_rejects_bad_header() {
    let index = sample_index();
    let mut cache = ArchiveCache::new();
    let req = Request::Archive("skin.estuary".to_string());
    assert!(matches!(serve(&index, &mut cache, "/c", &req, Some("yes"), true, 1), ServeStep::BadHeader));
    // the cache was not touched: the next request still starts the build
    assert!(matches!(
        serve(&index, &mut cache, "/c", &req, None, true, 2),
        ServeStep::Build { compress: false, .. }
    ));
}

#[test]
fn serve_unknown_archive_not_found() {
    let index = sample_index();
    let mut cache = ArchiveCache::new();
    let req = Request::Archive("unknown.addon".to_string());
    let (status, body, _) = body_of(serve(&index, &mut cache, "/c", &req, None, true, 1));
    assert_eq!(status, 404);
    assert_eq!(body, "");
}

#[test]
fn example_scenario_two_simultaneous_archive_requests() {
    let index = sample_index();
    let mut cache = ArchiveCache::new();
    assert_eq!(existence(&index, "skin.estuary").body, "skin.estuary exists!");
    assert_eq!(existence(&index, "unknown.addon").status, 404);
    let req = Request::Archive("skin.estuary".to_string());
    let first = serve(&index, &mut cache, "/c", &req, None, true, 1);
    let second = serve(&index, &mut cache, "/c", &req, Some("true"), true, 2);
    let path = match first {
        ServeStep::Build { path, compress } => {
            assert!(!compress);
            path
        }
        _ => panic!("first request must build"),
    };
    assert_eq!(path, "/c/skin.estuary.zip");
    assert!(matches!(second, ServeStep::Wait { compress: true }));
    let released = cache.finish_build("skin.estuary", Some(path.clone()));
    assert_eq!(released, vec![1, 2]);
    assert_eq!(outcome_status(&Some(path.clone())), 200);
    match serve(&index, &mut cache, "/c", &req, None, true, 3) {
        ServeStep::SendArchive { path: p, compress } => {
            assert_eq!(p, path);
            assert!(!compress);
        }
        _ => panic!("third request must be served from the cache"),
    }
}

#[test]
fn serve_unknown_id_not_found_whatever_the_header() {
    let index = sample_index();
    let mut cache = ArchiveCache::new();
    for header in [None, Some("true"), Some("false"), Some("yes"), Some("")] {
        let req = Request::Existence("unknown.addon".to_string());
        assert_eq!(body_of(serve(&index, &mut cache, "/c", &req, header, true, 1)), (404, String::new(), false));
        let req = Request::Archive("unknown.addon".to_string());
        assert_eq!(body_of(serve(&index, &mut cache, "/c", &req, header, true, 2)), (404, String::new(), false));
        let req = Request::Existence(String::new());
        assert_eq!(body_of(serve(&index, &mut cache, "/c", &req, header, true, 3)).0, 404);
    }
    // no entry was made for the unknown id
    assert!(cache.finish_build("unknown.addon", None).is_empty());
}
