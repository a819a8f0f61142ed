use onvif_events::detection::{EventBatch, EventRecord, SimpleItem};
use onvif_events::onvif::{OnvifCamera, OnvifClients};
use onvif_events::polling::{build_notification, notification_message, plan_cycle, CycleDecision};
use onvif_events::registry::Camera;
use onvif_events::Credentials;

fn cycle_client() -> OnvifCamera {
    OnvifCamera {
        uri: "http://10.0.0.5:8080".to_string(),
        credentials: Credentials { username: "u".to_string(), password: "p".to_string() },
        clients: OnvifClients {
            devicemgmt: "http://10.0.0.5:8080/onvif/device_service".to_string(),
            event: None,
            deviceio: None,
            media: None,
            media2: None,
            imaging: None,
            ptz: None,
            analytics: None,
        },
        event_subscription: None,
    }
}

fn cycle_camera(id: i64, address: &str, snapshot_uri: Option<&str>) -> Camera {
    Camera {
        id,
        name: format!("cam-{}", id),
        address: address.to_string(),
        snapshot_uri: snapshot_uri.map(|s| s.to_string()),
        client: cycle_client(),
        subscriptors: vec![5, 6],
    }
}

fn motion_batch() -> EventBatch {
    EventBatch {
        current_time: "2024-05-06 07:08:09".to_string(),
        termination_time: None,
        records: vec![EventRecord {
            source: vec![SimpleItem {
                name: "Rule".to_string(),
                value: "MyMotionDetectorRule".to_string(),
            }],
            data: vec![SimpleItem { name: "IsMotion".to_string(), value: "true".to_string() }],
        }],
    }
}

fn quiet_batch() -> EventBatch {
    EventBatch {
        current_time: "2024-05-06 07:08:09".to_string(),
        termination_time: None,
        records: Vec::new(),
    }
}

#[test]
fn cycle_processes_every_camera_and_dispatches_once() {
    let cameras = vec![
        cycle_camera(1, "10.0.0.1", Some("http://10.0.0.1/snap.jpg")),
        cycle_camera(2, "10.0.0.2", Some("http://10.0.0.2/snap.jpg")),
        cycle_camera(3, "10.0.0.3", Some("http://10.0.0.3/snap.jpg")),
    ];
    let pulls = vec![
        Err("device unreachable".to_string()),
        Ok(quiet_batch()),
        Ok(motion_batch()),
    ];
    let decisions = plan_cycle(&cameras, &pulls);
    assert_eq!(decisions.len(), 3);
    assert!(matches!(decisions[0], CycleDecision::AdapterFailed));
    assert!(matches!(decisions[1], CycleDecision::NoDetection));
    match &decisions[2] {
        CycleDecision::Fetch { snapshot_uri } => {
            assert_eq!(snapshot_uri, "http://10.0.0.3/snap.jpg");
        },
        other => panic!("camera with a detection must fetch, got {:?}", std::mem::discriminant(other)),
    }
    let fetches = decisions
        .iter()
        .filter(|d| matches!(d, CycleDecision::Fetch { .. }))
        .count();
    assert_eq!(fetches, 1);
}

#[test]
fn detection_without_locator_skips_dispatch() {
    let cameras = vec![cycle_camera(1, "10.0.0.1", None)];
    let pulls = vec![Ok(motion_batch())];
    let decisions = plan_cycle(&cameras, &pulls);
    assert!(matches!(decisions[0], CycleDecision::NoSnapshotUri));
}

#[test]
fn notification_text_and_recipients() {
    let camera = cycle_camera(7, "10.0.0.7", Some("http://10.0.0.7/snap.jpg"));
    let batch = motion_batch();
    let (caption, recipients) = notification_message(&camera, &batch);
    assert_eq!(caption, "\nNEW DETECTION\nCamera:cam-7\nTime: 2024-05-06 07:08:09");
    assert_eq!(recipients, vec![5, 6]);
}

#[test]
fn notification_event_carries_batch_facts() {
    let camera = cycle_camera(7, "10.0.0.7", Some("http://10.0.0.7/snap.jpg"));
    let event = build_notification(&camera, motion_batch(), vec![1, 2, 3]);
    assert_eq!(event.camera_id, 7);
    assert_eq!(event.time, "2024-05-06 07:08:09");
    assert_eq!(event.termination_time, None);
    assert_eq!(event.snapshot, vec![1, 2, 3]);
}
