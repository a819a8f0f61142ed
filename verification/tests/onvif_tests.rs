use onvif_events::config::CameraConfig;
use onvif_events::onvif::{OnvifCamera, OnvifClients, ServiceEntry};
use onvif_events::onvif_camera_client::OnvifCameraClient;

fn entry(namespace: &str, x_addr: &str) -> ServiceEntry {
    ServiceEntry { namespace: namespace.to_string(), x_addr: x_addr.to_string() }
}

#[test]
fn services_are_sorted_by_namespace() {
    let services = vec![
        entry("http://www.onvif.org/ver10/events/wsdl", "http://10.0.0.5:8080/onvif/event"),
        entry("http://www.onvif.org/ver10/media/wsdl", "http://10.0.0.5:8080/onvif/media"),
        entry("http://example.org/unknown/wsdl", "http://10.0.0.5:8080/onvif/other"),
    ];
    let clients = OnvifClients::new("http://10.0.0.5:8080", &services).unwrap();
    assert_eq!(clients.devicemgmt, "http://10.0.0.5:8080/onvif/device_service");
    assert_eq!(clients.event.as_deref(), Some("http://10.0.0.5:8080/onvif/event"));
    assert_eq!(clients.media.as_deref(), Some("http://10.0.0.5:8080/onvif/media"));
    assert_eq!(clients.media2, None);
    assert_eq!(clients.ptz, None);
}

#[test]
fn matching_devicemgmt_service_is_accepted() {
    let services = vec![entry(
        "http://www.onvif.org/ver10/device/wsdl",
        "http://10.0.0.5:8080/onvif/device_service",
    )];
    let clients = OnvifClients::new("http://10.0.0.5:8080", &services).unwrap();
    assert_eq!(clients.devicemgmt, "http://10.0.0.5:8080/onvif/device_service");
}

#[test]
fn service_outside_base_is_refused() {
    let services = vec![entry(
        "http://www.onvif.org/ver10/events/wsdl",
        "http://10.9.9.9/onvif/event",
    )];
    let err = match OnvifClients::new("http://10.0.0.5:8080", &services) {
        Err(e) => e,
        Ok(_) => panic!("a service outside the base must be refused"),
    };
    assert_eq!(
        err,
        "Service URI http://10.9.9.9/onvif/event is not within base URI http://10.0.0.5:8080/"
    );
}

#[test]
fn wrong_devicemgmt_address_is_refused() {
    let services = vec![entry(
        "http://www.onvif.org/ver10/device/wsdl",
        "http://10.0.0.5:8080/elsewhere",
    )];
    let err = match OnvifClients::new("http://10.0.0.5:8080", &services) {
        Err(e) => e,
        Ok(_) => panic!("a wrong device management address must be refused"),
    };
    assert_eq!(
        err,
        "advertised device mgmt uri http://10.0.0.5:8080/elsewhere not expected http://10.0.0.5:8080/onvif/device_service"
    );
}

#[test]
fn unparsable_base_is_refused() {
    let err = match OnvifClients::new("not a url", &Vec::new()) {
        Err(e) => e,
        Ok(_) => panic!("an unparsable base must be refused"),
    };
    assert_eq!(err, "cannot parse base uri");
}

#[test]
fn camera_handle_carries_credentials_and_no_subscription() {
    let camera =
        OnvifCamera::new("http://10.0.0.5:8080", "admin", "secret", &Vec::new()).unwrap();
    assert_eq!(camera.uri, "http://10.0.0.5:8080");
    assert_eq!(camera.credentials.username, "admin");
    assert_eq!(camera.credentials.password, "secret");
    assert_eq!(camera.event_subscription, None);
    assert_eq!(camera.event_endpoint(), None);
}

#[test]
fn camera_records_opened_subscription() {
    let mut camera =
        OnvifCamera::new("http://10.0.0.5:8080", "admin", "secret", &Vec::new()).unwrap();
    camera.set_event_subscription("http://10.0.0.5:8080/onvif/pull/1".to_string());
    assert_eq!(camera.event_subscription.as_deref(), Some("http://10.0.0.5:8080/onvif/pull/1"));
}

#[test]
fn configured_client_starts_without_pull_subscription() {
    let client = OnvifCameraClient::new(CameraConfig {
        name: "porch".to_string(),
        ip: "10.0.0.5".to_string(),
        snapshot_uri: "http://10.0.0.5/snap.jpg".to_string(),
        username: "admin".to_string(),
        password: "secret".to_string(),
    });
    assert_eq!(client.camera_name, "porch");
    assert_eq!(client.ip, "10.0.0.5");
    assert_eq!(client.snapshot_uri, "http://10.0.0.5/snap.jpg");
    assert_eq!(client.credentials.username, "admin");
    assert!(!client.can_pull());
    assert_eq!(client.event_service_url(), "http://10.0.0.5/onvif/event_service");
}

#[test]
fn configured_client_records_pull_subscription() {
    let mut client = OnvifCameraClient::new(CameraConfig {
        name: "porch".to_string(),
        ip: "10.0.0.5".to_string(),
        snapshot_uri: "http://10.0.0.5/snap.jpg".to_string(),
        username: "admin".to_string(),
        password: "secret".to_string(),
    });
    client.set_pull_client("http://10.0.0.5/onvif/pull/7".to_string());
    assert!(client.can_pull());
    assert_eq!(client.pull_client.as_deref(), Some("http://10.0.0.5/onvif/pull/7"));
}
