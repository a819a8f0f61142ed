//! The motion-detection predicate over event batches pulled from a camera:
//! a batch signals a detection when at least one of its records names the
//! motion rule in its source items and reports motion in its data items.

use vstd::prelude::*;

verus! {

/// One name/value attribute of an event record.
pub struct SimpleItem {
    pub name: String,
    pub value: String,
}

/// Mathematical value of an attribute.
#[verifier::ext_equal]
pub struct SimpleItemView {
    pub name: Seq<char>,
    pub value: Seq<char>,
}

impl View for SimpleItem {
    type V = SimpleItemView;

    open spec fn view(&self) -> SimpleItemView {
        SimpleItemView { name: self.name@, value: self.value@ }
    }
}

impl DeepView for SimpleItem {
    type V = SimpleItemView;

    open spec fn deep_view(&self) -> SimpleItemView {
        self.view()
    }
}

/// One event record: its source attributes and its data attributes.
pub struct EventRecord {
    pub source: Vec<SimpleItem>,
    pub data: Vec<SimpleItem>,
}

/// Mathematical value of an event record.
#[verifier::ext_equal]
pub struct EventRecordView {
    pub source: Seq<SimpleItemView>,
    pub data: Seq<SimpleItemView>,
}

impl View for EventRecord {
    type V = EventRecordView;

    open spec fn view(&self) -> EventRecordView {
        EventRecordView { source: self.source.deep_view(), data: self.data.deep_view() }
    }
}

impl DeepView for EventRecord {
    type V = EventRecordView;

    open spec fn deep_view(&self) -> EventRecordView {
        self.view()
    }
}

/// One batch of event records pulled from a camera, with the pull's
/// timestamps.
pub struct EventBatch {
    pub current_time: String,
    pub termination_time: Option<String>,
    pub records: Vec<EventRecord>,
}

impl EventBatch {
    /// The records as mathematical values.
    pub open spec fn records_view(&self) -> Seq<EventRecordView> {
        self.records.deep_view()
    }
}

/// The attribute list carries this name/value pair.
pub open spec fn item_matches(items: Seq<SimpleItemView>, name: Seq<char>, value: Seq<char>) -> bool {
    exists|i: int| 0 <= i < items.len() && items[i].name == name && items[i].value == value
}

/// The record reports a motion detection: its source names the configured
/// motion rule and its data carries IsMotion = "true", both matched
/// case-sensitively.
pub open spec fn record_is_motion(r: EventRecordView) -> bool {
    item_matches(r.source, "Rule"@, "MyMotionDetectorRule"@) && item_matches(
        r.data,
        "IsMotion"@,
        "true"@,
    )
}

/// At least one record of the batch reports a motion detection.
pub open spec fn batch_has_detection(records: Seq<EventRecordView>) -> bool {
    exists|i: int| 0 <= i < records.len() && record_is_motion(#[trigger] records[i])
}

/// An empty batch never signals a detection.
pub proof fn lemma_empty_batch_no_detection(records: Seq<EventRecordView>)
    requires
        records.len() == 0,
    ensures
        !batch_has_detection(records),
{
}

/// Scans the attributes for this name/value pair.
fn items_contain(items: &Vec<SimpleItem>, name: &str, value: &str) -> (r: bool)
    ensures
        r == item_matches(items.deep_view(), name@, value@),
{
    let mut i: usize = 0;
    while i < items.len()
        invariant
            i <= items@.len(),
            forall|k: int|
                0 <= k < i ==> !(items.deep_view()[k].name == name@ && items.deep_view()[k].value
                    == value@),
        decreases items.len() - i,
    {
        proof {
            assert(items.deep_view()[i as int] == items@[i as int]@);
        }
        if crate::text::str_eq(items[i].name.as_str(), name) && crate::text::str_eq(
            items[i].value.as_str(),
            value,
        ) {
            return true;
        }
        i += 1;
    }
    false
}

/// Decides whether the pulled batch signals a new motion detection: true
/// exactly when some record names the motion rule in its source items and
/// reports IsMotion = "true" in its data items; an empty batch never does.
pub fn is_new_detection(msg: &EventBatch) -> (r: bool)
    ensures
        r == batch_has_detection(msg.records_view()),
{
    let mut i: usize = 0;
    while i < msg.records.len()
        invariant
            i <= msg.records@.len(),
            forall|k: int| 0 <= k < i ==> !record_is_motion(#[trigger] msg.records_view()[k]),
        decreases msg.records.len() - i,
    {
        proof {
            assert(msg.records_view()[i as int] == msg.records@[i as int]@);
        }
        let rec = &msg.records[i];
        if items_contain(&rec.source, "Rule", "MyMotionDetectorRule") && items_contain(
            &rec.data,
            "IsMotion",
            "true",
        ) {
            return true;
        }
        i += 1;
    }
    false
}

} // verus!
