//! Model of the per-camera event client adapter: the service endpoints a
//! device advertises, sorted by namespace into a clients record, and the
//! camera handle built from them. The network calls that discover services
//! and open pull-point subscriptions happen outside the library; their plain
//! results come in as arguments.

use crate::text::{is_prefix_of, str_eq, str_starts_with};
use crate::urls::{normalized_url_of, url_join, url_join_of, normalize_url};
use crate::{clone_opt_string, result_view, Credentials, CredentialsView};
use vstd::prelude::*;

verus! {

/// One service a device advertises: its namespace and its address.
pub struct ServiceEntry {
    pub namespace: String,
    pub x_addr: String,
}

/// Mathematical value of a service entry.
#[verifier::ext_equal]
pub struct ServiceEntryView {
    pub namespace: Seq<char>,
    pub x_addr: Seq<char>,
}

impl View for ServiceEntry {
    type V = ServiceEntryView;

    open spec fn view(&self) -> ServiceEntryView {
        ServiceEntryView { namespace: self.namespace@, x_addr: self.x_addr@ }
    }
}

impl DeepView for ServiceEntry {
    type V = ServiceEntryView;

    open spec fn deep_view(&self) -> ServiceEntryView {
        self.view()
    }
}

/// The per-protocol service endpoints of one device, each the normalised
/// URL the device advertised for that namespace.
pub struct OnvifClients {
    pub devicemgmt: String,
    pub event: Option<String>,
    pub deviceio: Option<String>,
    pub media: Option<String>,
    pub media2: Option<String>,
    pub imaging: Option<String>,
    pub ptz: Option<String>,
    pub analytics: Option<String>,
}

/// Mathematical value of a clients record.
#[verifier::ext_equal]
pub struct OnvifClientsView {
    pub devicemgmt: Seq<char>,
    pub event: Option<Seq<char>>,
    pub deviceio: Option<Seq<char>>,
    pub media: Option<Seq<char>>,
    pub media2: Option<Seq<char>>,
    pub imaging: Option<Seq<char>>,
    pub ptz: Option<Seq<char>>,
    pub analytics: Option<Seq<char>>,
}

impl View for OnvifClients {
    type V = OnvifClientsView;

    open spec fn view(&self) -> OnvifClientsView {
        OnvifClientsView {
            devicemgmt: self.devicemgmt@,
            event: self.event.deep_view(),
            deviceio: self.deviceio.deep_view(),
            media: self.media.deep_view(),
            media2: self.media2.deep_view(),
            imaging: self.imaging.deep_view(),
            ptz: self.ptz.deep_view(),
            analytics: self.analytics.deep_view(),
        }
    }
}

impl DeepView for OnvifClients {
    type V = OnvifClientsView;

    open spec fn deep_view(&self) -> OnvifClientsView {
        self.view()
    }
}

impl Clone for OnvifClients {
    fn clone(&self) -> (r: Self)
        ensures
            r@ == self@,
    {
        OnvifClients {
            devicemgmt: self.devicemgmt.clone(),
            event: clone_opt_string(&self.event),
            deviceio: clone_opt_string(&self.deviceio),
            media: clone_opt_string(&self.media),
            media2: clone_opt_string(&self.media2),
            imaging: clone_opt_string(&self.imaging),
            ptz: clone_opt_string(&self.ptz),
            analytics: clone_opt_string(&self.analytics),
        }
    }
}

/// A clients record before any service entry is applied: only the device
/// management endpoint, which the caller derives from the base URL.
pub open spec fn initial_clients(devicemgmt: Seq<char>) -> OnvifClientsView {
    OnvifClientsView {
        devicemgmt: devicemgmt,
        event: None,
        deviceio: None,
        media: None,
        media2: None,
        imaging: None,
        ptz: None,
        analytics: None,
    }
}

/// Error text for a service address that does not parse.
pub open spec fn bad_service_uri_msg(x_addr: Seq<char>) -> Seq<char> {
    "cannot parse service uri "@ + x_addr
}

/// Error text for a service that lies outside the base URL.
pub open spec fn outside_base_msg(service_url: Seq<char>, base: Seq<char>) -> Seq<char> {
    "Service URI "@ + service_url + " is not within base URI "@ + base
}

/// Error text for an advertised device management URL other than the
/// expected one.
pub open spec fn wrong_devicemgmt_msg(service_url: Seq<char>, expected: Seq<char>) -> Seq<char> {
    "advertised device mgmt uri "@ + service_url + " not expected "@ + expected
}

/// Applies one advertised service to the clients record: its address is
/// normalised, must lie within the base URL, and is filed under its
/// namespace; a later entry of the same namespace replaces an earlier one,
/// and an unknown namespace is ignored.
pub open spec fn apply_service(
    c: OnvifClientsView,
    base: Seq<char>,
    devicemgmt: Seq<char>,
    svc: ServiceEntryView,
) -> Result<OnvifClientsView, Seq<char>> {
    match normalized_url_of(svc.x_addr) {
        None => Err(bad_service_uri_msg(svc.x_addr)),
        Some(u) => if !is_prefix_of(base, u) {
            Err(outside_base_msg(u, base))
        } else if svc.namespace == "http://www.onvif.org/ver10/device/wsdl"@ {
            if u == devicemgmt {
                Ok(c)
            } else {
                Err(wrong_devicemgmt_msg(u, devicemgmt))
            }
        } else if svc.namespace == "http://www.onvif.org/ver10/events/wsdl"@ {
            Ok(OnvifClientsView { event: Some(u), ..c })
        } else if svc.namespace == "http://www.onvif.org/ver10/deviceIO/wsdl"@ {
            Ok(OnvifClientsView { deviceio: Some(u), ..c })
        } else if svc.namespace == "http://www.onvif.org/ver10/media/wsdl"@ {
            Ok(OnvifClientsView { media: Some(u), ..c })
        } else if svc.namespace == "http://www.onvif.org/ver20/media/wsdl"@ {
            Ok(OnvifClientsView { media2: Some(u), ..c })
        } else if svc.namespace == "http://www.onvif.org/ver20/imaging/wsdl"@ {
            Ok(OnvifClientsView { imaging: Some(u), ..c })
        } else if svc.namespace == "http://www.onvif.org/ver20/ptz/wsdl"@ {
            Ok(OnvifClientsView { ptz: Some(u), ..c })
        } else if svc.namespace == "http://www.onvif.org/ver20/analytics/wsdl"@ {
            Ok(OnvifClientsView { analytics: Some(u), ..c })
        } else {
            Ok(c)
        },
    }
}

/// Applies the advertised services in order, stopping at the first faulty
/// one.
pub open spec fn assign_services(
    base: Seq<char>,
    devicemgmt: Seq<char>,
    services: Seq<ServiceEntryView>,
) -> Result<OnvifClientsView, Seq<char>>
    decreases services.len(),
{
    if services.len() == 0 {
        Ok(initial_clients(devicemgmt))
    } else {
        match assign_services(base, devicemgmt, services.drop_last()) {
            Err(e) => Err(e),
            Ok(c) => apply_service(c, base, devicemgmt, services.last()),
        }
    }
}

/// The clients record a device's base URL and advertised services define:
/// the base must parse, the device management endpoint is the base joined
/// with its well-known path, and the services are applied in order.
pub open spec fn clients_of(uri: Seq<char>, services: Seq<ServiceEntryView>) -> Result<
    OnvifClientsView,
    Seq<char>,
> {
    match normalized_url_of(uri) {
        None => Err("cannot parse base uri"@),
        Some(base) => match url_join_of(uri, "/onvif/device_service"@) {
            None => Err("cannot build device management uri"@),
            Some(devicemgmt) => assign_services(base, devicemgmt, services),
        },
    }
}

impl OnvifClients {
    /// Sorts a device's advertised services into a clients record.
    pub fn new(uri: &str, services: &Vec<ServiceEntry>) -> (r: Result<OnvifClients, String>)
        ensures
            result_view(r) == clients_of(uri@, services.deep_view()),
    {
        let base = match normalize_url(uri) {
            Some(b) => b,
            None => {
                return Err(String::from_str("cannot parse base uri"));
            },
        };
        let devicemgmt = match url_join(uri, "/onvif/device_service") {
            Some(d) => d,
            None => {
                return Err(String::from_str("cannot build device management uri"));
            },
        };
        let mut out = OnvifClients {
            devicemgmt: devicemgmt.clone(),
            event: None,
            deviceio: None,
            media: None,
            media2: None,
            imaging: None,
            ptz: None,
            analytics: None,
        };
        proof {
            assert(out@ =~= initial_clients(devicemgmt@));
        }
        let mut i: usize = 0;
        while i < services.len()
            invariant
                i <= services@.len(),
                normalized_url_of(uri@) == Some(base@),
                url_join_of(uri@, "/onvif/device_service"@) == Some(devicemgmt@),
                assign_services(base@, devicemgmt@, services.deep_view().take(i as int)) == Ok::<
                    OnvifClientsView,
                    Seq<char>,
                >(out@),
            decreases services@.len() - i,
        {
            let svc = &services[i];
            proof {
                assert(services.deep_view().take(i as int + 1).drop_last() =~= services.deep_view()
                    .take(i as int));
                assert(services.deep_view().take(i as int + 1).last() == services@[i as int]@);
            }
            let service_url = match normalize_url(svc.x_addr.as_str()) {
                Some(u) => u,
                None => {
                    let msg = String::from_str("cannot parse service uri ").concat(
                        svc.x_addr.as_str(),
                    );
                    proof {
                        lemma_assign_services_err(
                            base@,
                            devicemgmt@,
                            services.deep_view(),
                            i as int,
                            msg@,
                        );
                    }
                    return Err(msg);
                },
            };
            if !str_starts_with(service_url.as_str(), base.as_str()) {
                let msg = String::from_str("Service URI ").concat(service_url.as_str()).concat(
                    " is not within base URI ",
                ).concat(base.as_str());
                proof {
                    lemma_assign_services_err(
                        base@,
                        devicemgmt@,
                        services.deep_view(),
                        i as int,
                        msg@,
                    );
                }
                return Err(msg);
            }
            if str_eq(svc.namespace.as_str(), "http://www.onvif.org/ver10/device/wsdl") {
                if !str_eq(service_url.as_str(), devicemgmt.as_str()) {
                    let msg = String::from_str("advertised device mgmt uri ").concat(
                        service_url.as_str(),
                    ).concat(" not expected ").concat(devicemgmt.as_str());
                    proof {
                        lemma_assign_services_err(
                            base@,
                            devicemgmt@,
                            services.deep_view(),
                            i as int,
                            msg@,
                        );
                    }
                    return Err(msg);
                }
            } else if str_eq(svc.namespace.as_str(), "http://www.onvif.org/ver10/events/wsdl") {
                out.event = Some(service_url);
            } else if str_eq(svc.namespace.as_str(), "http://www.onvif.org/ver10/deviceIO/wsdl") {
                out.deviceio = Some(service_url);
            } else if str_eq(svc.namespace.as_str(), "http://www.onvif.org/ver10/media/wsdl") {
                out.media = Some(service_url);
            } else if str_eq(svc.namespace.as_str(), "http://www.onvif.org/ver20/media/wsdl") {
                out.media2 = Some(service_url);
            } else if str_eq(svc.namespace.as_str(), "http://www.onvif.org/ver20/imaging/wsdl") {
                out.imaging = Some(service_url);
            } else if str_eq(svc.namespace.as_str(), "http://www.onvif.org/ver20/ptz/wsdl") {
                out.ptz = Some(service_url);
            } else if str_eq(svc.namespace.as_str(), "http://www.onvif.org/ver20/analytics/wsdl") {
                out.analytics = Some(service_url);
            }
            proof {
                assert(assign_services(base@, devicemgmt@, services.deep_view().take(i as int + 1))
                    =~~= Ok::<OnvifClientsView, Seq<char>>(out@));
            }
            i += 1;
        }
        proof {
            assert(services.deep_view().take(services@.len() as int) =~= services.deep_view());
        }
        Ok(out)
    }
}

/// When the services before index `i` apply cleanly and the one at `i`
/// fails with this message, the whole sequence fails with it.
proof fn lemma_assign_services_err(
    base: Seq<char>,
    devicemgmt: Seq<char>,
    services: Seq<ServiceEntryView>,
    i: int,
    msg: Seq<char>,
)
    requires
        0 <= i < services.len(),
        assign_services(base, devicemgmt, services.take(i)) is Ok,
        apply_service(
            assign_services(base, devicemgmt, services.take(i))->Ok_0,
            base,
            devicemgmt,
            services[i],
        ) == Err::<OnvifClientsView, Seq<char>>(msg),
    ensures
        assign_services(base, devicemgmt, services) == Err::<OnvifClientsView, Seq<char>>(msg),
    decreases services.len() - i,
{
    assert(services.take(i + 1).drop_last() =~= services.take(i));
    assert(services.take(i + 1).last() == services[i]);
    if i + 1 == services.len() {
        assert(services.take(i + 1) =~= services);
    } else {
        lemma_assign_services_err_propagates(base, devicemgmt, services, i + 1, msg);
    }
}

/// An error reached after some prefix of the services is the error of the
/// whole sequence.
proof fn lemma_assign_services_err_propagates(
    base: Seq<char>,
    devicemgmt: Seq<char>,
    services: Seq<ServiceEntryView>,
    k: int,
    msg: Seq<char>,
)
    requires
        0 < k <= services.len(),
        assign_services(base, devicemgmt, services.take(k)) == Err::<
            OnvifClientsView,
            Seq<char>,
        >(msg),
    ensures
        assign_services(base, devicemgmt, services) == Err::<OnvifClientsView, Seq<char>>(msg),
    decreases services.len() - k,
{
    if k == services.len() {
        assert(services.take(k) =~= services);
    } else {
        assert(services.take(k + 1).drop_last() =~= services.take(k));
        lemma_assign_services_err_propagates(base, devicemgmt, services, k + 1, msg);
    }
}

/// The camera handle the registry keeps: its connection facts and the
/// endpoints of its adapter, including the pull-point endpoint once a
/// subscription is opened.
pub struct OnvifCamera {
    pub uri: String,
    pub credentials: Credentials,
    pub clients: OnvifClients,
    pub event_subscription: Option<String>,
}

/// Mathematical value of a camera handle.
#[verifier::ext_equal]
pub struct OnvifCameraView {
    pub uri: Seq<char>,
    pub credentials: CredentialsView,
    pub clients: OnvifClientsView,
    pub event_subscription: Option<Seq<char>>,
}

impl View for OnvifCamera {
    type V = OnvifCameraView;

    open spec fn view(&self) -> OnvifCameraView {
        OnvifCameraView {
            uri: self.uri@,
            credentials: self.credentials@,
            clients: self.clients@,
            event_subscription: self.event_subscription.deep_view(),
        }
    }
}

impl DeepView for OnvifCamera {
    type V = OnvifCameraView;

    open spec fn deep_view(&self) -> OnvifCameraView {
        self.view()
    }
}

impl Clone for OnvifCamera {
    fn clone(&self) -> (r: Self)
        ensures
            r@ == self@,
    {
        OnvifCamera {
            uri: self.uri.clone(),
            credentials: self.credentials.clone(),
            clients: self.clients.clone(),
            event_subscription: clone_opt_string(&self.event_subscription),
        }
    }
}

impl OnvifCamera {
    /// Builds the handle for one device from its base URL, its credentials,
    /// and the services it advertises; no subscription is open yet.
    pub fn new(uri: &str, username: &str, password: &str, services: &Vec<ServiceEntry>) -> (r:
        Result<OnvifCamera, String>)
        ensures
            match clients_of(uri@, services.deep_view()) {
                Ok(c) => r matches Ok(cam) && cam@ == (OnvifCameraView {
                    uri: uri@,
                    credentials: CredentialsView { username: username@, password: password@ },
                    clients: c,
                    event_subscription: None,
                }),
                Err(e) => r matches Err(msg) && msg@ == e,
            },
    {
        let clients = match OnvifClients::new(uri, services) {
            Ok(c) => c,
            Err(e) => {
                return Err(e);
            },
        };
        Ok(
            OnvifCamera {
                uri: uri.to_owned(),
                credentials: Credentials {
                    username: username.to_owned(),
                    password: password.to_owned(),
                },
                clients,
                event_subscription: None,
            },
        )
    }

    /// The event service endpoint a pull-point subscription is created
    /// against, when the device advertises one.
    pub fn event_endpoint(&self) -> (r: Option<String>)
        ensures
            r.deep_view() == self@.clients.event,
    {
        clone_opt_string(&self.clients.event)
    }

    /// Records the endpoint of a pull-point subscription the caller opened.
    pub fn set_event_subscription(&mut self, endpoint: String)
        ensures
            final(self)@ == (OnvifCameraView { event_subscription: Some(endpoint@), ..old(self)@ }),
    {
        self.event_subscription = Some(endpoint);
    }
}

} // verus!
