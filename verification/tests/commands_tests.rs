use onvif_events::commands::{
    camera_list_texts, command_handler, fix_snapshot_uri, is_allowed_chat, user_exists, Command,
    CommandAction,
};
use onvif_events::onvif::{OnvifCamera, OnvifClients};
use onvif_events::registry::{Camera, MemoryRepository};
use onvif_events::store::DbStore;
use onvif_events::Credentials;

fn handler_client() -> OnvifCamera {
    OnvifCamera {
        uri: "http://10.0.0.5:8080".to_string(),
        credentials: Credentials { username: "u".to_string(), password: "p".to_string() },
        clients: OnvifClients {
            devicemgmt: "http://10.0.0.5:8080/onvif/device_service".to_string(),
            event: None,
            deviceio: None,
            media: None,
            media2: None,
            imaging: None,
            ptz: None,
            analytics: None,
        },
        event_subscription: None,
    }
}

fn handler_camera(id: i64, address: &str, snapshot_uri: Option<&str>) -> Camera {
    Camera {
        id,
        name: format!("cam-{}", id),
        address: address.to_string(),
        snapshot_uri: snapshot_uri.map(|s| s.to_string()),
        client: handler_client(),
        subscriptors: Vec::new(),
    }
}

fn reply_text(action: CommandAction) -> String {
    match action {
        CommandAction::Reply { text } => text,
        _ => panic!("expected a plain reply"),
    }
}

#[test]
fn help_lists_the_commands() {
    let mut repo = MemoryRepository::new(2, DbStore::new());
    let text = reply_text(command_handler(&mut repo, 1, &Command::Help));
    assert!(text.starts_with("These commands are supported:"));
    assert!(text.contains("/subscribe"));
    assert!(text.contains("/fixsnapshot"));
}

#[test]
fn get_cameras_requests_discovery() {
    let mut repo = MemoryRepository::new(2, DbStore::new());
    assert!(matches!(
        command_handler(&mut repo, 1, &Command::GetCameras),
        CommandAction::Discover
    ));
}

#[test]
fn subscribe_command_replies_and_persists() {
    let mut repo = MemoryRepository::new(2, DbStore::new());
    repo.add_camera(handler_camera(1, "10.0.0.5", None)).unwrap();
    let text = reply_text(command_handler(&mut repo, 42, &Command::Subscribe(1)));
    assert_eq!(text, "Subscribed successfully");
    assert!(repo.store.has_pair(1, 42));
    assert_eq!(repo.get_camera(1).unwrap().subscriptors, vec![42]);
}

#[test]
fn subscribe_command_reports_unknown_camera() {
    let mut repo = MemoryRepository::new(2, DbStore::new());
    let text = reply_text(command_handler(&mut repo, 42, &Command::Subscribe(5)));
    assert_eq!(text, "camera 5 not found");
}

#[test]
fn subscribe_command_reports_duplicate() {
    let mut repo = MemoryRepository::new(2, DbStore::new());
    repo.add_camera(handler_camera(1, "10.0.0.5", None)).unwrap();
    reply_text(command_handler(&mut repo, 42, &Command::Subscribe(1)));
    let text = reply_text(command_handler(&mut repo, 42, &Command::Subscribe(1)));
    assert_eq!(text, "already subscribed to this camera");
}

#[test]
fn unsubscribe_command_round_trip() {
    let mut repo = MemoryRepository::new(2, DbStore::new());
    repo.add_camera(handler_camera(1, "10.0.0.5", None)).unwrap();
    reply_text(command_handler(&mut repo, 42, &Command::Subscribe(1)));
    let text = reply_text(command_handler(&mut repo, 42, &Command::Unsubscribe(1)));
    assert_eq!(text, "Unsubscribed successfully");
    assert!(!repo.store.has_pair(1, 42));
    let text = reply_text(command_handler(&mut repo, 42, &Command::Unsubscribe(1)));
    assert_eq!(text, "not subscribed to this camera");
}

#[test]
fn set_polling_time_command_updates_interval() {
    let mut repo = MemoryRepository::new(2, DbStore::new());
    let text = reply_text(command_handler(&mut repo, 1, &Command::SetPollingTime(45)));
    assert_eq!(text, "Polling time updated successfully");
    assert_eq!(repo.get_polling_seconds(), 45);
}

#[test]
fn get_snapshot_command_reports_missing_camera() {
    let mut repo = MemoryRepository::new(2, DbStore::new());
    let text = reply_text(command_handler(&mut repo, 1, &Command::GetSnapshot(9)));
    assert_eq!(text, "cannot find camera with id: 9");
}

#[test]
fn get_snapshot_command_reports_missing_locator() {
    let mut repo = MemoryRepository::new(2, DbStore::new());
    repo.add_camera(handler_camera(1, "10.0.0.5", None)).unwrap();
    let text = reply_text(command_handler(&mut repo, 1, &Command::GetSnapshot(1)));
    assert_eq!(text, "no snapshot url specified for camera cam-1");
}

#[test]
fn get_snapshot_command_hands_out_the_locator() {
    let mut repo = MemoryRepository::new(2, DbStore::new());
    repo.add_camera(handler_camera(1, "10.0.0.5", Some("http://10.0.0.5/snap.jpg"))).unwrap();
    match command_handler(&mut repo, 1, &Command::GetSnapshot(1)) {
        CommandAction::SendSnapshot { camera_name, snapshot_uri } => {
            assert_eq!(camera_name, "cam-1");
            assert_eq!(snapshot_uri, "http://10.0.0.5/snap.jpg");
        },
        _ => panic!("expected a snapshot request"),
    }
}

#[test]
fn fix_snapshot_command_asks_for_a_user_check() {
    let mut repo = MemoryRepository::new(2, DbStore::new());
    repo.add_camera(handler_camera(1, "10.0.0.5", None)).unwrap();
    match command_handler(&mut repo, 1, &Command::FixSnapshot(1)) {
        CommandAction::CheckUsers { camera_id, camera_uri } => {
            assert_eq!(camera_id, 1);
            assert_eq!(camera_uri, "http://10.0.0.5:8080");
        },
        _ => panic!("expected a user check"),
    }
    let text = reply_text(command_handler(&mut repo, 1, &Command::FixSnapshot(9)));
    assert_eq!(text, "cannot find camera with id: 9");
}

#[test]
fn fix_snapshot_uri_rewrites_and_stores_the_locator() {
    let mut repo = MemoryRepository::new(2, DbStore::new());
    repo.add_camera(handler_camera(1, "10.0.0.5", Some("http://10.0.0.5/webcapture.jpg?user=a&password=b")))
        .unwrap();
    let camera = repo.get_camera(1).unwrap();
    let fixed = fix_snapshot_uri(&mut repo, &camera).unwrap();
    assert_eq!(fixed, "http://10.0.0.5/webcapture.jpg?user=oet1&password=oet12345");
    assert_eq!(repo.get_camera(1).unwrap().snapshot_uri.as_deref(), Some(fixed.as_str()));
}

#[test]
fn fix_snapshot_uri_requires_a_locator() {
    let mut repo = MemoryRepository::new(2, DbStore::new());
    repo.add_camera(handler_camera(1, "10.0.0.5", None)).unwrap();
    let camera = repo.get_camera(1).unwrap();
    let err = fix_snapshot_uri(&mut repo, &camera).unwrap_err();
    assert_eq!(err, "camera cam-1 doesnt have snapshot uri");
}

#[test]
fn allow_list_matches_rendered_chat_id() {
    let allowed = vec!["123".to_string(), "-55".to_string()];
    assert!(is_allowed_chat(&allowed, 123));
    assert!(is_allowed_chat(&allowed, -55));
    assert!(!is_allowed_chat(&allowed, 124));
    assert!(!is_allowed_chat(&Vec::new(), 123));
}

#[test]
fn user_lookup_is_exact() {
    let users = vec!["admin".to_string(), "oet1".to_string()];
    assert!(user_exists(&users, "oet1"));
    assert!(!user_exists(&users, "oet"));
}

#[test]
fn camera_listing_describes_each_camera() {
    let mut repo = MemoryRepository::new(2, DbStore::new());
    repo.add_camera(handler_camera(1, "10.0.0.5", None)).unwrap();
    repo.add_camera(handler_camera(2, "10.0.0.6", None)).unwrap();
    let texts = camera_list_texts(&repo);
    assert_eq!(texts.len(), 2);
    assert!(texts[0].starts_with("\nCamera 1"));
    assert!(texts[1].starts_with("\nCamera 2"));
}

#[test]
fn fix_snapshot_uri_reports_unparsable_locator() {
    let mut repo = MemoryRepository::new(2, DbStore::new());
    repo.add_camera(handler_camera(1, "10.0.0.5", Some("not a url"))).unwrap();
    let camera = repo.get_camera(1).unwrap();
    let err = fix_snapshot_uri(&mut repo, &camera).unwrap_err();
    assert_eq!(err, "cannot fix snapshot uri of camera cam-1");
    assert_eq!(repo.get_camera(1).unwrap().snapshot_uri.as_deref(), Some("not a url"));
}
