//! Camera registry and event-dispatch engine for a fleet of network cameras.
//!
//! The library keeps the in-memory catalogue of cameras and their
//! subscribers, models the durable store the catalogue is recovered from,
//! evaluates the motion-detection predicate over pulled event batches, and
//! plans each polling cycle and notification fan-out. All state-changing
//! operations carry contracts; network transports and the SQL engine stay
//! outside, handed plain values.

use vstd::prelude::*;

pub mod caption;
pub mod commands;
pub mod config;
pub mod detection;
pub mod laws;
pub mod onvif;
pub mod onvif_camera_client;
pub mod polling;
pub mod registry;
pub mod snapshot;
pub mod store;
pub mod text;
pub mod urls;

verus! {

/// Identifier a camera row receives from the durable store; never reused.
pub type CameraId = i64;

/// Identifier of a persisted subscription row.
pub type SubscriptionId = i64;

/// Identifier of a conversation that receives notifications.
pub type ChatId = i64;

/// Username/password pair used to authenticate to a camera.
pub struct Credentials {
    pub username: String,
    pub password: String,
}

/// Mathematical value of a credentials pair.
#[verifier::ext_equal]
pub struct CredentialsView {
    pub username: Seq<char>,
    pub password: Seq<char>,
}

impl View for Credentials {
    type V = CredentialsView;

    open spec fn view(&self) -> CredentialsView {
        CredentialsView { username: self.username@, password: self.password@ }
    }
}

impl DeepView for Credentials {
    type V = CredentialsView;

    open spec fn deep_view(&self) -> CredentialsView {
        self.view()
    }
}

impl Clone for Credentials {
    fn clone(&self) -> (r: Self)
        ensures
            r@ == self@,
    {
        Credentials { username: self.username.clone(), password: self.password.clone() }
    }
}

/// The `Ok`/`Err` structure of a result over the mathematical values of
/// its contents.
pub open spec fn result_view<T: DeepView, E: DeepView>(r: Result<T, E>) -> Result<T::V, E::V> {
    match r {
        Ok(t) => Ok(t.deep_view()),
        Err(e) => Err(e.deep_view()),
    }
}

/// Clones an optional string.
pub fn clone_opt_string(o: &Option<String>) -> (r: Option<String>)
    ensures
        r.deep_view() == o.deep_view(),
{
    match o {
        Some(s) => Some(s.clone()),
        None => None,
    }
}

/// Outcomes a registry or store operation can fail with; expected,
/// recoverable conditions surfaced to the command caller.
#[derive(Clone, Copy, Debug, PartialEq, Eq, Structural)]
pub enum RegistryError {
    /// The referenced camera or subscription is absent.
    NotFound,
    /// A duplicate camera address or id, a duplicate subscription, or an
    /// unsubscribe while not subscribed.
    Conflict,
}

} // verus!
