use onvif_events::onvif::ServiceEntry;
use onvif_events::registry::MemoryRepository;
use onvif_events::store::DbStore;
use onvif_events::Credentials;

fn creds(user: &str, pass: &str) -> Credentials {
    Credentials { username: user.to_string(), password: pass.to_string() }
}

#[test]
fn store_assigns_increasing_ids() {
    let mut store = DbStore::new();
    let a = store.insert_camera("a", "http://10.0.0.5", "10.0.0.5", &creds("u", "p"), &None);
    let b = store.insert_camera("b", "http://10.0.0.6", "10.0.0.6", &creds("u", "p"), &None);
    assert_eq!(a, 1);
    assert_eq!(b, 2);
}

#[test]
fn store_join_attaches_subscribers_in_row_order() {
    let mut store = DbStore::new();
    let a = store.insert_camera("a", "http://10.0.0.5", "10.0.0.5", &creds("u", "p"), &None);
    let b = store.insert_camera("b", "http://10.0.0.6", "10.0.0.6", &creds("u", "p"), &None);
    store.insert_subscription(a, 10);
    store.insert_subscription(b, 20);
    store.insert_subscription(a, 30);
    let rows = store.get_cameras();
    assert_eq!(rows.len(), 2);
    assert_eq!(rows[0].subscriptors, vec![10, 30]);
    assert_eq!(rows[1].subscriptors, vec![20]);
}

#[test]
fn store_remove_subscription_deletes_the_pair() {
    let mut store = DbStore::new();
    let a = store.insert_camera("a", "http://10.0.0.5", "10.0.0.5", &creds("u", "p"), &None);
    store.insert_subscription(a, 10);
    store.insert_subscription(a, 20);
    store.remove_subscription(a, 10);
    let rows = store.get_cameras();
    assert_eq!(rows[0].subscriptors, vec![20]);
    assert!(!store.has_pair(a, 10));
    assert!(store.has_pair(a, 20));
}

#[test]
fn persist_then_load_reproduces_camera_and_subscribers() {
    let mut store = DbStore::new();
    let id = store.insert_camera(
        "porch",
        "http://10.0.0.5:8080",
        "10.0.0.5",
        &creds("admin", "secret"),
        &Some("http://10.0.0.5/snap.jpg".to_string()),
    );
    store.insert_subscription(id, 42);
    let rows = store.get_cameras();
    assert_eq!(rows.len(), 1);
    let row = &rows[0];
    assert_eq!(row.name, "porch");
    assert_eq!(row.uri, "http://10.0.0.5:8080");
    assert_eq!(row.address, "10.0.0.5");
    assert_eq!(row.username, "admin");
    assert_eq!(row.password, "secret");
    assert_eq!(row.snapshot_uri.as_deref(), Some("http://10.0.0.5/snap.jpg"));
    assert_eq!(row.subscriptors, vec![42]);

    let mut repo = MemoryRepository::new(2, store);
    let rows = repo.store.get_cameras();
    let services: Vec<ServiceEntry> = Vec::new();
    for row in &rows {
        repo.attach_loaded_camera(row, &services).unwrap();
    }
    let cam = repo.get_camera(id).unwrap();
    assert_eq!(cam.name, "porch");
    assert_eq!(cam.address, "10.0.0.5");
    assert_eq!(cam.client.uri, "http://10.0.0.5:8080");
    assert_eq!(cam.client.credentials.username, "admin");
    assert_eq!(cam.client.credentials.password, "secret");
    assert_eq!(cam.snapshot_uri.as_deref(), Some("http://10.0.0.5/snap.jpg"));
    assert_eq!(cam.subscriptors, vec![42]);
}

#[test]
fn loading_twice_from_unchanged_store_changes_nothing() {
    let mut store = DbStore::new();
    let a = store.insert_camera("a", "http://10.0.0.5", "10.0.0.5", &creds("u", "p"), &None);
    let b = store.insert_camera("b", "http://10.0.0.6", "10.0.0.6", &creds("u", "p"), &None);
    store.insert_subscription(a, 10);
    store.insert_subscription(b, 20);
    let mut repo = MemoryRepository::new(2, store);
    let services: Vec<ServiceEntry> = Vec::new();

    let rows = repo.store.get_cameras();
    for row in &rows {
        repo.attach_loaded_camera(row, &services).unwrap();
    }
    let first: Vec<(i64, String, Vec<i64>)> = repo
        .get_cameras()
        .iter()
        .map(|c| (c.id, c.address.clone(), c.subscriptors.clone()))
        .collect();

    let rows = repo.store.get_cameras();
    for row in &rows {
        repo.attach_loaded_camera(row, &services).unwrap();
    }
    let second: Vec<(i64, String, Vec<i64>)> = repo
        .get_cameras()
        .iter()
        .map(|c| (c.id, c.address.clone(), c.subscriptors.clone()))
        .collect();

    assert_eq!(first.len(), 2);
    assert_eq!(first, second);
}

#[test]
fn attach_skips_camera_with_unparsable_uri() {
    let mut store = DbStore::new();
    store.insert_camera("bad", "not a url", "10.0.0.5", &creds("u", "p"), &None);
    store.insert_camera("good", "http://10.0.0.6", "10.0.0.6", &creds("u", "p"), &None);
    let mut repo = MemoryRepository::new(2, store);
    let services: Vec<ServiceEntry> = Vec::new();
    let rows = repo.store.get_cameras();
    let mut errors = 0;
    for row in &rows {
        if repo.attach_loaded_camera(row, &services).is_err() {
            errors += 1;
        }
    }
    assert_eq!(errors, 1);
    let cameras = repo.get_cameras();
    assert_eq!(cameras.len(), 1);
    assert_eq!(cameras[0].name, "good");
}
