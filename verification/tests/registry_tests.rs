use onvif_events::onvif::{OnvifCamera, OnvifClients};
use onvif_events::registry::{Camera, MemoryRepository};
use onvif_events::store::DbStore;
use onvif_events::{Credentials, RegistryError};

fn test_client(uri: &str) -> OnvifCamera {
    OnvifCamera {
        uri: uri.to_string(),
        credentials: Credentials { username: "admin".to_string(), password: "pw".to_string() },
        clients: OnvifClients {
            devicemgmt: format!("{}/onvif/device_service", uri),
            event: None,
            deviceio: None,
            media: None,
            media2: None,
            imaging: None,
            ptz: None,
            analytics: None,
        },
        event_subscription: None,
    }
}

fn test_camera(id: i64, address: &str) -> Camera {
    Camera {
        id,
        name: format!("camera-{}", id),
        address: address.to_string(),
        snapshot_uri: None,
        client: test_client("http://10.0.0.5:8080"),
        subscriptors: Vec::new(),
    }
}

#[test]
fn add_duplicate_address_conflicts_and_keeps_catalogue() {
    let mut repo = MemoryRepository::new(2, DbStore::new());
    assert!(repo.add_camera(test_camera(1, "10.0.0.5")).is_ok());
    let r = repo.add_camera(test_camera(2, "10.0.0.5"));
    assert_eq!(r, Err(RegistryError::Conflict));
    let cameras = repo.get_cameras();
    assert_eq!(cameras.len(), 1);
    assert_eq!(cameras[0].id, 1);
}

#[test]
fn add_duplicate_id_conflicts() {
    let mut repo = MemoryRepository::new(2, DbStore::new());
    assert!(repo.add_camera(test_camera(1, "10.0.0.5")).is_ok());
    let r = repo.add_camera(test_camera(1, "10.0.0.6"));
    assert_eq!(r, Err(RegistryError::Conflict));
    assert_eq!(repo.get_cameras().len(), 1);
}

#[test]
fn subscribe_twice_conflicts_with_one_occurrence() {
    let mut repo = MemoryRepository::new(2, DbStore::new());
    repo.add_camera(test_camera(1, "10.0.0.5")).unwrap();
    assert!(repo.subscribe_to_camera(1, 77, true).is_ok());
    let again = repo.subscribe_to_camera(1, 77, true);
    assert_eq!(again, Err(RegistryError::Conflict));
    let cam = repo.get_camera(1).unwrap();
    assert_eq!(cam.subscriptors.iter().filter(|c| **c == 77).count(), 1);
}

#[test]
fn subscribe_unknown_camera_not_found() {
    let mut repo = MemoryRepository::new(2, DbStore::new());
    assert_eq!(repo.subscribe_to_camera(9, 77, true), Err(RegistryError::NotFound));
}

#[test]
fn unsubscribe_flow_reports_not_subscribed() {
    let mut repo = MemoryRepository::new(2, DbStore::new());
    repo.add_camera(test_camera(1, "10.0.0.5")).unwrap();
    assert!(repo.subscribe_to_camera(1, 100, true).is_ok());
    assert_eq!(repo.unsubscribe_from_camera(1, 200, true), Err(RegistryError::Conflict));
    assert!(repo.unsubscribe_from_camera(1, 100, true).is_ok());
    let cam = repo.get_camera(1).unwrap();
    assert!(cam.subscriptors.is_empty());
}

#[test]
fn unsubscribe_unknown_camera_not_found() {
    let mut repo = MemoryRepository::new(2, DbStore::new());
    assert_eq!(repo.unsubscribe_from_camera(3, 1, false), Err(RegistryError::NotFound));
}

#[test]
fn polling_interval_is_replaced_whole() {
    let mut repo = MemoryRepository::new(2, DbStore::new());
    assert_eq!(repo.get_polling_seconds(), 2);
    repo.set_polling_seconds(30);
    assert_eq!(repo.get_polling_seconds(), 30);
}

#[test]
fn get_camera_returns_copy_or_nothing() {
    let mut repo = MemoryRepository::new(2, DbStore::new());
    repo.add_camera(test_camera(4, "10.0.0.9")).unwrap();
    assert!(repo.get_camera(4).is_some());
    assert!(repo.get_camera(5).is_none());
}

#[test]
fn update_snapshot_uri_in_memory() {
    let mut repo = MemoryRepository::new(2, DbStore::new());
    repo.add_camera(test_camera(1, "10.0.0.5")).unwrap();
    assert!(repo.update_camera_snapshot_uri(1, "http://10.0.0.5/snap.jpg").is_ok());
    assert_eq!(
        repo.get_camera(1).unwrap().snapshot_uri.as_deref(),
        Some("http://10.0.0.5/snap.jpg")
    );
    assert_eq!(repo.update_camera_snapshot_uri(9, "x"), Err(RegistryError::NotFound));
}

#[test]
fn register_discovered_persists_then_inserts() {
    let mut repo = MemoryRepository::new(2, DbStore::new());
    let id = repo
        .register_discovered_camera(
            "porch",
            "10.0.0.7",
            &Some("http://10.0.0.7/snap.jpg".to_string()),
            test_client("http://10.0.0.7:8080"),
        )
        .unwrap();
    assert_eq!(id, 1);
    // The store keeps the probed locator; the catalogue entry starts bare.
    let rows = repo.store.get_cameras();
    assert_eq!(rows.len(), 1);
    assert_eq!(rows[0].snapshot_uri.as_deref(), Some("http://10.0.0.7/snap.jpg"));
    assert_eq!(repo.get_camera(1).unwrap().snapshot_uri, None);
    // The same address is refused the second time, before anything is written.
    let again = repo.register_discovered_camera(
        "porch2",
        "10.0.0.7",
        &None,
        test_client("http://10.0.0.7:8080"),
    );
    assert_eq!(again, Err(RegistryError::Conflict));
    assert_eq!(repo.store.get_cameras().len(), 1);
}

#[test]
fn describe_lists_identity_and_subscriber_count() {
    let mut cam = test_camera(3, "10.0.0.5");
    cam.name = "porch".to_string();
    cam.snapshot_uri = Some("http://10.0.0.5/snap.jpg".to_string());
    cam.subscriptors = vec![7, 8];
    let text = cam.describe();
    assert_eq!(
        text,
        "\nCamera 3\n- Name: porch\n- Uri: \"http://10.0.0.5:8080\"\n- Address: 10.0.0.5\n- SnapshotUri: http://10.0.0.5/snap.jpg \n- Subscriptors: 2"
    );
}

#[test]
fn discovered_device_uri_is_built_from_host_and_port() {
    assert_eq!(
        MemoryRepository::device_uri_from_parts("10.0.0.5", 8080),
        "http://10.0.0.5:8080"
    );
    assert_eq!(MemoryRepository::device_uri_from_parts("", 0), "http://:0");
}
