//! A camera client built from static configuration rather than discovery:
//! it knows the device's address, a fixed snapshot locator, and — once the
//! caller opens one — the endpoint of its pull-point subscription.

use crate::config::CameraConfig;
use crate::{clone_opt_string, Credentials};
use vstd::prelude::*;

verus! {

/// The statically configured camera client.
pub struct OnvifCameraClient {
    pub camera_name: String,
    pub ip: String,
    pub snapshot_uri: String,
    pub credentials: Credentials,
    pub pull_client: Option<String>,
}

impl OnvifCameraClient {
    /// A client over one configured camera; no subscription is open yet.
    pub fn new(camera_config: CameraConfig) -> (r: Self)
        ensures
            r.camera_name@ == camera_config.name@,
            r.ip@ == camera_config.ip@,
            r.snapshot_uri@ == camera_config.snapshot_uri@,
            r.credentials@.username == camera_config.username@,
            r.credentials@.password == camera_config.password@,
            r.pull_client is None,
    {
        let credentials = Credentials {
            username: camera_config.username,
            password: camera_config.password,
        };
        OnvifCameraClient {
            camera_name: camera_config.name,
            ip: camera_config.ip,
            snapshot_uri: camera_config.snapshot_uri,
            credentials,
            pull_client: None,
        }
    }

    /// The event service URL a subscription is requested from, derived
    /// from the device's address.
    pub fn event_service_url(&self) -> (r: String)
        ensures
            r@ == "http://"@ + self.ip@ + "/onvif/event_service"@,
    {
        let mut out = String::from_str("http://");
        out.append(self.ip.as_str());
        out.append("/onvif/event_service");
        proof {
            assert(out@ =~= "http://"@ + self.ip@ + "/onvif/event_service"@);
        }
        out
    }

    /// Records the endpoint of the pull-point subscription the caller
    /// opened.
    pub fn set_pull_client(&mut self, endpoint: String)
        ensures
            final(self).camera_name@ == old(self).camera_name@,
            final(self).ip@ == old(self).ip@,
            final(self).snapshot_uri@ == old(self).snapshot_uri@,
            final(self).credentials@ == old(self).credentials@,
            final(self).pull_client matches Some(e) && e@ == endpoint@,
    {
        self.pull_client = Some(endpoint);
    }

    /// Whether a pull-point subscription is open, so events can be pulled.
    pub fn can_pull(&self) -> (r: bool)
        ensures
            r == (self.pull_client is Some),
    {
        match &self.pull_client {
            Some(_) => true,
            None => false,
        }
    }
}

} // verus!
