//! Decisions of one polling cycle: what each camera's pull outcome leads
//! to, and the notification assembled on a positive detection. The caller
//! performs the pulls, downloads and sends; one camera's failure never
//! stops the cycle, because every outcome maps to a decision.

use crate::caption::{caption_of, make_caption, upper_of};
use crate::detection::{batch_has_detection, is_new_detection, EventBatch, EventRecordView};
use crate::registry::{Camera, CameraView};
use crate::{CameraId, ChatId};
use vstd::prelude::*;

verus! {

/// What the cycle does for one camera after its pull.
pub enum CycleDecision {
    /// The adapter failed; the camera is skipped for this cycle only.
    AdapterFailed,
    /// The batch carried no motion detection.
    NoDetection,
    /// A detection, but the camera has no snapshot locator, so no
    /// notification is sent this cycle.
    NoSnapshotUri,
    /// A detection: fetch a snapshot from this locator and dispatch.
    Fetch { snapshot_uri: String },
}

/// Mathematical value of a cycle decision.
#[verifier::ext_equal]
pub enum CycleDecisionView {
    AdapterFailed,
    NoDetection,
    NoSnapshotUri,
    Fetch { snapshot_uri: Seq<char> },
}

impl View for CycleDecision {
    type V = CycleDecisionView;

    open spec fn view(&self) -> CycleDecisionView {
        match self {
            CycleDecision::AdapterFailed => CycleDecisionView::AdapterFailed,
            CycleDecision::NoDetection => CycleDecisionView::NoDetection,
            CycleDecision::NoSnapshotUri => CycleDecisionView::NoSnapshotUri,
            CycleDecision::Fetch { snapshot_uri } => CycleDecisionView::Fetch {
                snapshot_uri: snapshot_uri@,
            },
        }
    }
}

impl DeepView for CycleDecision {
    type V = CycleDecisionView;

    open spec fn deep_view(&self) -> CycleDecisionView {
        self.view()
    }
}

/// The decision one camera's pull outcome leads to: an adapter error skips
/// the camera, a batch without detection does nothing, a detection fetches
/// the snapshot when a locator is known.
pub open spec fn decide_cycle(
    cam: CameraView,
    pull_ok: bool,
    records: Seq<EventRecordView>,
) -> CycleDecisionView {
    if !pull_ok {
        CycleDecisionView::AdapterFailed
    } else if !batch_has_detection(records) {
        CycleDecisionView::NoDetection
    } else {
        match cam.snapshot_uri {
            None => CycleDecisionView::NoSnapshotUri,
            Some(u) => CycleDecisionView::Fetch { snapshot_uri: u },
        }
    }
}

/// The records a pull outcome carries: none on failure.
pub open spec fn pull_records(pull: Result<EventBatch, String>) -> Seq<EventRecordView> {
    match pull {
        Ok(b) => b.records.deep_view(),
        Err(_) => Seq::empty(),
    }
}

/// Evaluates one camera's pull outcome.
pub fn evaluate_pull(camera: &Camera, pull: &Result<EventBatch, String>) -> (r: CycleDecision)
    ensures
        r@ == decide_cycle(camera@, *pull is Ok, pull_records(*pull)),
{
    let batch = match pull {
        Ok(b) => b,
        Err(_) => {
            return CycleDecision::AdapterFailed;
        },
    };
    if !is_new_detection(batch) {
        return CycleDecision::NoDetection;
    }
    match &camera.snapshot_uri {
        None => CycleDecision::NoSnapshotUri,
        Some(u) => CycleDecision::Fetch { snapshot_uri: u.clone() },
    }
}

/// Evaluates a whole cycle: one decision per camera of the snapshot, in
/// order. Every camera gets a decision — an adapter failure never aborts
/// the remainder of the cycle.
pub fn plan_cycle(cameras: &Vec<Camera>, pulls: &Vec<Result<EventBatch, String>>) -> (r: Vec<
    CycleDecision,
>)
    requires
        cameras@.len() == pulls@.len(),
    ensures
        r@.len() == cameras@.len(),
        forall|k: int|
            0 <= k < r@.len() ==> r@[k]@ == decide_cycle(
                cameras@[k]@,
                pulls@[k] is Ok,
                pull_records(pulls@[k]),
            ),
{
    let mut out: Vec<CycleDecision> = Vec::new();
    let mut i: usize = 0;
    while i < cameras.len()
        invariant
            cameras@.len() == pulls@.len(),
            i <= cameras@.len(),
            out@.len() == i,
            forall|k: int|
                0 <= k < i ==> out@[k]@ == decide_cycle(
                    cameras@[k]@,
                    pulls@[k] is Ok,
                    pull_records(pulls@[k]),
                ),
        decreases cameras@.len() - i,
    {
        let d = evaluate_pull(&cameras[i], &pulls[i]);
        out.push(d);
        i += 1;
    }
    out
}

/// The text and recipients of one notification: the fixed title and the
/// camera's name over the batch's time, sent to the camera's current
/// subscriber snapshot.
pub fn notification_message(camera: &Camera, batch: &EventBatch) -> (r: (String, Vec<ChatId>))
    ensures
        r.0@ == caption_of(upper_of("New Detection"@), camera@.name, batch.current_time@),
        r.1@ == camera@.subscriptors,
{
    let caption = make_caption("New Detection", camera.name.as_str(), batch.current_time.as_str());
    (caption, camera.subscriptors.clone())
}

/// A notification produced by the polling loop and consumed once by the
/// dispatcher: which camera, when, and the snapshot to attach.
pub struct NotificationEvent {
    pub camera_id: CameraId,
    pub time: String,
    pub termination_time: Option<String>,
    pub snapshot: Vec<u8>,
}

/// Assembles the notification for a detection on this camera.
pub fn build_notification(camera: &Camera, batch: EventBatch, snapshot: Vec<u8>) -> (r:
    NotificationEvent)
    ensures
        r.camera_id == camera@.id,
        r.time@ == batch.current_time@,
        r.termination_time.deep_view() == batch.termination_time.deep_view(),
        r.snapshot@ == snapshot@,
{
    NotificationEvent {
        camera_id: camera.id,
        time: batch.current_time,
        termination_time: batch.termination_time,
        snapshot,
    }
}

} // verus!
