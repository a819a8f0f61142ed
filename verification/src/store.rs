//! In-memory model of the durable store: two tables, cameras and camera
//! subscriptions, with autoincrement ids. The SQL engine that persists them
//! lives outside the library; callers replay its rows into this model at
//! startup and mirror every mutation of it back to disk.

use crate::{CameraId, ChatId, Credentials, SubscriptionId};
use vstd::prelude::*;

verus! {

/// One row of the cameras table.
pub struct CameraRow {
    pub id: CameraId,
    pub name: String,
    pub uri: String,
    pub address: String,
    pub username: String,
    pub password: String,
    pub snapshot_uri: Option<String>,
}

/// Mathematical value of a camera row.
#[verifier::ext_equal]
pub struct CameraRowView {
    pub id: CameraId,
    pub name: Seq<char>,
    pub uri: Seq<char>,
    pub address: Seq<char>,
    pub username: Seq<char>,
    pub password: Seq<char>,
    pub snapshot_uri: Option<Seq<char>>,
}

impl View for CameraRow {
    type V = CameraRowView;

    open spec fn view(&self) -> CameraRowView {
        CameraRowView {
            id: self.id,
            name: self.name@,
            uri: self.uri@,
            address: self.address@,
            username: self.username@,
            password: self.password@,
            snapshot_uri: self.snapshot_uri.deep_view(),
        }
    }
}

impl DeepView for CameraRow {
    type V = CameraRowView;

    open spec fn deep_view(&self) -> CameraRowView {
        self.view()
    }
}

/// One row of the camera_subscriptions table.
#[derive(Clone, Copy, Debug, PartialEq, Eq, Structural)]
pub struct DbCameraSubscription {
    pub id: SubscriptionId,
    pub camera_id: CameraId,
    pub chat_id: ChatId,
}

impl View for DbCameraSubscription {
    type V = DbCameraSubscription;

    open spec fn view(&self) -> DbCameraSubscription {
        *self
    }
}

impl DeepView for DbCameraSubscription {
    type V = DbCameraSubscription;

    open spec fn deep_view(&self) -> DbCameraSubscription {
        *self
    }
}

/// A camera joined with the chat ids subscribed to it, as a bulk read
/// returns it.
pub struct DbCamera {
    pub id: CameraId,
    pub name: String,
    pub uri: String,
    pub address: String,
    pub username: String,
    pub password: String,
    pub snapshot_uri: Option<String>,
    pub subscriptors: Vec<ChatId>,
}

/// Mathematical value of a joined camera record.
#[verifier::ext_equal]
pub struct DbCameraView {
    pub id: CameraId,
    pub name: Seq<char>,
    pub uri: Seq<char>,
    pub address: Seq<char>,
    pub username: Seq<char>,
    pub password: Seq<char>,
    pub snapshot_uri: Option<Seq<char>>,
    pub subscriptors: Seq<ChatId>,
}

impl View for DbCamera {
    type V = DbCameraView;

    open spec fn view(&self) -> DbCameraView {
        DbCameraView {
            id: self.id,
            name: self.name@,
            uri: self.uri@,
            address: self.address@,
            username: self.username@,
            password: self.password@,
            snapshot_uri: self.snapshot_uri.deep_view(),
            subscriptors: self.subscriptors@,
        }
    }
}

impl DeepView for DbCamera {
    type V = DbCameraView;

    open spec fn deep_view(&self) -> DbCameraView {
        self.view()
    }
}

/// The store's tables and autoincrement counters.
pub struct DbStore {
    pub camera_rows: Vec<CameraRow>,
    pub subscription_rows: Vec<DbCameraSubscription>,
    pub next_camera_id: CameraId,
    pub next_subscription_id: SubscriptionId,
}

/// Mathematical value of the whole store.
#[verifier::ext_equal]
pub struct DbStoreView {
    pub cameras: Seq<CameraRowView>,
    pub subs: Seq<DbCameraSubscription>,
    pub next_camera_id: CameraId,
    pub next_subscription_id: SubscriptionId,
}

impl View for DbStore {
    type V = DbStoreView;

    open spec fn view(&self) -> DbStoreView {
        DbStoreView {
            cameras: self.camera_rows.deep_view(),
            subs: self.subscription_rows.deep_view(),
            next_camera_id: self.next_camera_id,
            next_subscription_id: self.next_subscription_id,
        }
    }
}

impl DbStoreView {
    /// A camera row with this address exists.
    pub open spec fn has_address(self, address: Seq<char>) -> bool {
        exists|i: int| 0 <= i < self.cameras.len() && self.cameras[i].address == address
    }

    /// A subscription row for this (camera, chat) pair exists.
    pub open spec fn has_pair(self, camera_id: CameraId, chat_id: ChatId) -> bool {
        exists|i: int|
            0 <= i < self.subs.len() && self.subs[i].camera_id == camera_id
                && self.subs[i].chat_id == chat_id
    }

    /// Integrity of the tables: unique ids below the counters, unique
    /// camera addresses, and each (camera, chat) pair persisted at most once.
    pub open spec fn wf(self) -> bool {
        &&& forall|i: int, j: int|
            0 <= i < j < self.cameras.len() ==> self.cameras[i].id != self.cameras[j].id
        &&& forall|i: int, j: int|
            0 <= i < j < self.cameras.len() ==> self.cameras[i].address != self.cameras[j].address
        &&& forall|i: int| 0 <= i < self.cameras.len() ==> self.cameras[i].id < self.next_camera_id
        &&& forall|i: int, j: int|
            0 <= i < j < self.subs.len() ==> self.subs[i].id != self.subs[j].id
        &&& forall|i: int| 0 <= i < self.subs.len() ==> self.subs[i].id < self.next_subscription_id
        &&& forall|i: int, j: int|
            0 <= i < j < self.subs.len()
                ==> !(self.subs[i].camera_id == self.subs[j].camera_id && self.subs[i].chat_id
                == self.subs[j].chat_id)
    }

    /// The store after one camera insertion.
    pub open spec fn with_camera(
        self,
        name: Seq<char>,
        uri: Seq<char>,
        address: Seq<char>,
        credentials: CredentialsViewFields,
        snapshot_uri: Option<Seq<char>>,
    ) -> DbStoreView {
        DbStoreView {
            cameras: self.cameras.push(
                CameraRowView {
                    id: self.next_camera_id,
                    name: name,
                    uri: uri,
                    address: address,
                    username: credentials.username,
                    password: credentials.password,
                    snapshot_uri: snapshot_uri,
                },
            ),
            next_camera_id: (self.next_camera_id + 1) as i64,
            ..self
        }
    }

    /// The store after one subscription insertion.
    pub open spec fn with_pair(self, camera_id: CameraId, chat_id: ChatId) -> DbStoreView {
        DbStoreView {
            subs: self.subs.push(
                DbCameraSubscription { id: self.next_subscription_id, camera_id, chat_id },
            ),
            next_subscription_id: (self.next_subscription_id + 1) as i64,
            ..self
        }
    }

    /// The store after deleting every row of one (camera, chat) pair.
    pub open spec fn without_pair(self, camera_id: CameraId, chat_id: ChatId) -> DbStoreView {
        DbStoreView { subs: remove_pair(self.subs, camera_id, chat_id), ..self }
    }
}

/// Just the two character sequences of a credentials pair, for spec use.
#[verifier::ext_equal]
pub struct CredentialsViewFields {
    pub username: Seq<char>,
    pub password: Seq<char>,
}

/// `rows` with every row of this (camera, chat) pair removed, order kept.
pub open spec fn remove_pair(
    rows: Seq<DbCameraSubscription>,
    camera_id: CameraId,
    chat_id: ChatId,
) -> Seq<DbCameraSubscription>
    decreases rows.len(),
{
    if rows.len() == 0 {
        rows
    } else {
        let prefix = remove_pair(rows.drop_last(), camera_id, chat_id);
        if rows.last().camera_id == camera_id && rows.last().chat_id == chat_id {
            prefix
        } else {
            prefix.push(rows.last())
        }
    }
}

/// The chat ids subscribed to one camera, in row order.
pub open spec fn chats_for(rows: Seq<DbCameraSubscription>, camera_id: CameraId) -> Seq<ChatId>
    decreases rows.len(),
{
    if rows.len() == 0 {
        Seq::empty()
    } else {
        let prefix = chats_for(rows.drop_last(), camera_id);
        if rows.last().camera_id == camera_id {
            prefix.push(rows.last().chat_id)
        } else {
            prefix
        }
    }
}

/// One camera row joined with its subscribers.
pub open spec fn joined_camera(row: CameraRowView, subs: Seq<DbCameraSubscription>) -> DbCameraView {
    DbCameraView {
        id: row.id,
        name: row.name,
        uri: row.uri,
        address: row.address,
        username: row.username,
        password: row.password,
        snapshot_uri: row.snapshot_uri,
        subscriptors: chats_for(subs, row.id),
    }
}

/// Every camera row joined with its subscribers, in table order.
pub open spec fn joined_cameras(s: DbStoreView) -> Seq<DbCameraView> {
    s.cameras.map_values(|row: CameraRowView| joined_camera(row, s.subs))
}

impl DbStore {
    /// A store with empty tables, as a fresh database file holds.
    pub fn new() -> (r: Self)
        ensures
            r@.cameras.len() == 0,
            r@.subs.len() == 0,
            r@.next_camera_id == 1,
            r@.next_subscription_id == 1,
            r@.wf(),
    {
        DbStore {
            camera_rows: Vec::new(),
            subscription_rows: Vec::new(),
            next_camera_id: 1,
            next_subscription_id: 1,
        }
    }

    /// Whether some camera row carries this address.
    pub fn has_address(&self, address: &str) -> (r: bool)
        ensures
            r == self@.has_address(address@),
    {
        let mut i: usize = 0;
        while i < self.camera_rows.len()
            invariant
                i <= self@.cameras.len(),
                self@.cameras.len() == self.camera_rows.len(),
                forall|k: int| 0 <= k < i ==> self@.cameras[k].address != address@,
            decreases self.camera_rows.len() - i,
        {
            if crate::text::str_eq(self.camera_rows[i].address.as_str(), address) {
                proof {
                    assert(self@.cameras[i as int].address == address@);
                }
                return true;
            }
            i += 1;
        }
        false
    }

    /// Whether a subscription row for this pair exists.
    pub fn has_pair(&self, camera_id: CameraId, chat_id: ChatId) -> (r: bool)
        ensures
            r == self@.has_pair(camera_id, chat_id),
    {
        let mut i: usize = 0;
        while i < self.subscription_rows.len()
            invariant
                i <= self@.subs.len(),
                self@.subs.len() == self.subscription_rows.len(),
                forall|k: int|
                    0 <= k < i ==> !(self@.subs[k].camera_id == camera_id
                        && self@.subs[k].chat_id == chat_id),
            decreases self.subscription_rows.len() - i,
        {
            let row = &self.subscription_rows[i];
            if row.camera_id == camera_id && row.chat_id == chat_id {
                proof {
                    assert(self@.subs[i as int].camera_id == camera_id && self@.subs[
                        i as int
                    ].chat_id == chat_id);
                }
                return true;
            }
            i += 1;
        }
        false
    }

    /// Inserts one camera row; the store assigns the id and returns it.
    pub fn insert_camera(
        &mut self,
        name: &str,
        uri: &str,
        address: &str,
        credentials: &Credentials,
        snapshot_uri: &Option<String>,
    ) -> (r: CameraId)
        requires
            old(self)@.wf(),
            !old(self)@.has_address(address@),
            old(self)@.next_camera_id < i64::MAX,
        ensures
            r == old(self)@.next_camera_id,
            final(self)@ == old(self)@.with_camera(
                name@,
                uri@,
                address@,
                CredentialsViewFields { username: credentials@.username, password: credentials@.password },
                snapshot_uri.deep_view(),
            ),
            final(self)@.wf(),
    {
        let id = self.next_camera_id;
        let snap: Option<String> = match snapshot_uri {
            Some(s) => Some(s.clone()),
            None => None,
        };
        let row = CameraRow {
            id,
            name: name.to_owned(),
            uri: uri.to_owned(),
            address: address.to_owned(),
            username: credentials.username.clone(),
            password: credentials.password.clone(),
            snapshot_uri: snap,
        };
        self.camera_rows.push(row);
        self.next_camera_id = id + 1;
        proof {
            assert(self@ =~~= old(self)@.with_camera(
                name@,
                uri@,
                address@,
                CredentialsViewFields { username: credentials@.username, password: credentials@.password },
                snapshot_uri.deep_view(),
            ));
        }
        id
    }

    /// Inserts one subscription row; the store assigns the id and returns it.
    pub fn insert_subscription(&mut self, camera_id: CameraId, chat_id: ChatId) -> (r:
        SubscriptionId)
        requires
            old(self)@.wf(),
            !old(self)@.has_pair(camera_id, chat_id),
            old(self)@.next_subscription_id < i64::MAX,
        ensures
            r == old(self)@.next_subscription_id,
            final(self)@ == old(self)@.with_pair(camera_id, chat_id),
            final(self)@.wf(),
    {
        let id = self.next_subscription_id;
        self.subscription_rows.push(DbCameraSubscription { id, camera_id, chat_id });
        self.next_subscription_id = id + 1;
        proof {
            assert(self@ =~~= old(self)@.with_pair(camera_id, chat_id));
        }
        id
    }

    /// Deletes every subscription row of this (camera, chat) pair.
    pub fn remove_subscription(&mut self, camera_id: CameraId, chat_id: ChatId)
        requires
            old(self)@.wf(),
        ensures
            final(self)@ == old(self)@.without_pair(camera_id, chat_id),
            final(self)@.wf(),
    {
        let mut kept: Vec<DbCameraSubscription> = Vec::new();
        let mut i: usize = 0;
        while i < self.subscription_rows.len()
            invariant
                i <= self@.subs.len(),
                self@.subs.len() == self.subscription_rows.len(),
                kept@ == remove_pair(self@.subs.take(i as int), camera_id, chat_id),
            decreases self.subscription_rows.len() - i,
        {
            let row = self.subscription_rows[i];
            proof {
                assert(self@.subs.take(i + 1).drop_last() =~= self@.subs.take(i as int));
                assert(self@.subs.take(i + 1).last() == self@.subs[i as int]);
            }
            if !(row.camera_id == camera_id && row.chat_id == chat_id) {
                kept.push(row);
            }
            i += 1;
        }
        proof {
            assert(self@.subs.take(self@.subs.len() as int) =~= self@.subs);
        }
        self.subscription_rows = kept;
        proof {
            lemma_remove_pair_wf(old(self)@.subs, camera_id, chat_id);
            assert(self@ =~~= old(self)@.without_pair(camera_id, chat_id));
        }
    }

    /// Reads every camera joined with its subscribers, in table order.
    pub fn get_cameras(&self) -> (r: Vec<DbCamera>)
        ensures
            r@.len() == self@.cameras.len(),
            forall|k: int| 0 <= k < r@.len() ==> r@[k]@ == joined_cameras(self@)[k],
    {
        let mut out: Vec<DbCamera> = Vec::new();
        let mut i: usize = 0;
        while i < self.camera_rows.len()
            invariant
                i <= self@.cameras.len(),
                self@.cameras.len() == self.camera_rows.len(),
                out@.len() == i,
                forall|k: int| 0 <= k < i ==> out@[k]@ == joined_cameras(self@)[k],
            decreases self.camera_rows.len() - i,
        {
            let row = &self.camera_rows[i];
            let mut chats: Vec<ChatId> = Vec::new();
            let mut j: usize = 0;
            while j < self.subscription_rows.len()
                invariant
                    j <= self@.subs.len(),
                    self@.subs.len() == self.subscription_rows.len(),
                    chats@ == chats_for(self@.subs.take(j as int), row.id),
                decreases self.subscription_rows.len() - j,
            {
                let sub = &self.subscription_rows[j];
                proof {
                    assert(self@.subs.take(j + 1).drop_last() =~= self@.subs.take(j as int));
                    assert(self@.subs.take(j + 1).last() == self@.subs[j as int]);
                }
                if sub.camera_id == row.id {
                    chats.push(sub.chat_id);
                }
                j += 1;
            }
            proof {
                assert(self@.subs.take(self@.subs.len() as int) =~= self@.subs);
            }
            let snap: Option<String> = match &row.snapshot_uri {
                Some(s) => Some(s.clone()),
                None => None,
            };
            let cam = DbCamera {
                id: row.id,
                name: row.name.clone(),
                uri: row.uri.clone(),
                address: row.address.clone(),
                username: row.username.clone(),
                password: row.password.clone(),
                snapshot_uri: snap,
                subscriptors: chats,
            };
            proof {
                assert(self@.cameras[i as int] == self.camera_rows@[i as int]@);
                assert(cam@ =~~= joined_camera(self@.cameras[i as int], self@.subs));
                assert(joined_cameras(self@)[i as int] == joined_camera(
                    self@.cameras[i as int],
                    self@.subs,
                ));
            }
            out.push(cam);
            i += 1;
        }
        out
    }
}

/// Removing a pair keeps the table's integrity: the kept rows are a
/// subsequence of the old ones, so ids stay unique and below the counter and
/// no pair appears twice.
proof fn lemma_remove_pair_wf(rows: Seq<DbCameraSubscription>, camera_id: CameraId, chat_id: ChatId)
    ensures
        forall|k: int|
            0 <= k < remove_pair(rows, camera_id, chat_id).len()
                ==> rows.contains(#[trigger] remove_pair(rows, camera_id, chat_id)[k]),
        forall|k: int, l: int|
            0 <= k < l < remove_pair(rows, camera_id, chat_id).len() ==> exists|m: int, n: int|
                0 <= m < n < rows.len() && rows[m] == #[trigger] remove_pair(
                    rows,
                    camera_id,
                    chat_id,
                )[k] && rows[n] == #[trigger] remove_pair(rows, camera_id, chat_id)[l],
    decreases rows.len(),
{
    let out = remove_pair(rows, camera_id, chat_id);
    if rows.len() > 0 {
        lemma_remove_pair_wf(rows.drop_last(), camera_id, chat_id);
        let sub = remove_pair(rows.drop_last(), camera_id, chat_id);
        assert forall|k: int| 0 <= k < out.len() implies rows.contains(#[trigger] out[k]) by {
            if k < sub.len() {
                let m = choose|m: int| 0 <= m < rows.drop_last().len() && rows.drop_last()[m]
                    == sub[k];
                assert(rows[m] == out[k]);
            } else {
                assert(out[k] == rows.last());
                assert(rows[rows.len() - 1] == rows.last());
            }
        }
        assert forall|k: int, l: int| 0 <= k < l < out.len() implies exists|m: int, n: int|
            0 <= m < n < rows.len() && rows[m] == #[trigger] out[k] && rows[n] == #[trigger] out[l] by {
            if l < sub.len() {
                let (m, n) = choose|m: int, n: int|
                    0 <= m < n < rows.drop_last().len() && rows.drop_last()[m] == sub[k]
                        && rows.drop_last()[n] == sub[l];
                assert(rows[m] == out[k] && rows[n] == out[l]);
            } else {
                // out ends with rows.last(); out[k] comes from the prefix.
                let m = choose|m: int| 0 <= m < rows.drop_last().len() && rows.drop_last()[m]
                    == sub[k];
                let n = rows.len() - 1;
                assert(rows[m] == out[k] && rows[n] == out[l]);
            }
        }
    }
}

} // verus!
