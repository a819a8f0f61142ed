//! The camera registry: the in-memory catalogue of camera entities and
//! their subscribers, the single source of truth for what to poll and who
//! to notify, together with its write-through to the durable store model.

use crate::onvif::{clients_of, OnvifCamera, OnvifCameraView, OnvifClientsView, ServiceEntry};
use crate::store::{CredentialsViewFields, DbCamera, DbCameraView, DbStore, DbStoreView};
use crate::text::{dec_of_int, dec_of_nat, i64_to_string, str_eq, u64_to_string};
use crate::{clone_opt_string, CameraId, ChatId, CredentialsView, RegistryError};
use vstd::prelude::*;

verus! {

/// One camera entity of the catalogue: identity, connection facts, the
/// adapter handle, and the chat ids subscribed to it.
pub struct Camera {
    pub id: CameraId,
    pub name: String,
    pub address: String,
    pub snapshot_uri: Option<String>,
    pub client: OnvifCamera,
    pub subscriptors: Vec<ChatId>,
}

/// Mathematical value of a camera entity.
#[verifier::ext_equal]
pub struct CameraView {
    pub id: CameraId,
    pub name: Seq<char>,
    pub address: Seq<char>,
    pub snapshot_uri: Option<Seq<char>>,
    pub client: OnvifCameraView,
    pub subscriptors: Seq<ChatId>,
}

impl View for Camera {
    type V = CameraView;

    open spec fn view(&self) -> CameraView {
        CameraView {
            id: self.id,
            name: self.name@,
            address: self.address@,
            snapshot_uri: self.snapshot_uri.deep_view(),
            client: self.client@,
            subscriptors: self.subscriptors@,
        }
    }
}

impl DeepView for Camera {
    type V = CameraView;

    open spec fn deep_view(&self) -> CameraView {
        self.view()
    }
}

impl Clone for Camera {
    fn clone(&self) -> (r: Self)
        ensures
            r@ == self@,
    {
        Camera {
            id: self.id,
            name: self.name.clone(),
            address: self.address.clone(),
            snapshot_uri: clone_opt_string(&self.snapshot_uri),
            client: self.client.clone(),
            subscriptors: self.subscriptors.clone(),
        }
    }
}

/// The user-facing description of one camera: its id, name, adapter URL,
/// address, snapshot locator (blank when absent) and subscriber count.
pub open spec fn describe_spec(cam: CameraView) -> Seq<char> {
    "\nCamera "@ + dec_of_int(cam.id as int) + "\n- Name: "@ + cam.name + "\n- Uri: \""@
        + cam.client.uri + "\"\n- Address: "@ + cam.address + "\n- SnapshotUri: "@ + (match cam
        .snapshot_uri {
        Some(s) => s,
        None => Seq::<char>::empty(),
    }) + " \n- Subscriptors: "@ + dec_of_nat(cam.subscriptors.len())
}

impl Camera {
    /// Renders the camera for a listing reply.
    pub fn describe(&self) -> (r: String)
        ensures
            r@ == describe_spec(self@),
    {
        let mut out = String::from_str("\nCamera ");
        out.append(i64_to_string(self.id).as_str());
        out.append("\n- Name: ");
        out.append(self.name.as_str());
        out.append("\n- Uri: \"");
        out.append(self.client.uri.as_str());
        out.append("\"\n- Address: ");
        out.append(self.address.as_str());
        out.append("\n- SnapshotUri: ");
        match &self.snapshot_uri {
            Some(s) => out.append(s.as_str()),
            None => (),
        }
        out.append(" \n- Subscriptors: ");
        out.append(u64_to_string(self.subscriptors.len() as u64).as_str());
        proof {
            assert(out@ =~= describe_spec(self@));
        }
        out
    }
}

/// A camera's subscriber set holds no chat id twice.
pub open spec fn camera_wf(cam: CameraView) -> bool {
    forall|i: int, j: int|
        0 <= i < j < cam.subscriptors.len() ==> cam.subscriptors[i] != cam.subscriptors[j]
}

/// Some camera of the catalogue carries this id.
pub open spec fn has_id(cams: Seq<CameraView>, id: CameraId) -> bool {
    exists|k: int| 0 <= k < cams.len() && cams[k].id == id
}

/// Some camera of the catalogue carries this address.
pub open spec fn has_addr(cams: Seq<CameraView>, address: Seq<char>) -> bool {
    exists|k: int| 0 <= k < cams.len() && cams[k].address == address
}

/// The position of the camera with this id.
pub open spec fn idx_of(cams: Seq<CameraView>, id: CameraId) -> int {
    choose|k: int| 0 <= k < cams.len() && cams[k].id == id
}

/// The camera of the catalogue with this id, when one exists.
pub open spec fn find_camera(cams: Seq<CameraView>, id: CameraId) -> Option<CameraView> {
    if has_id(cams, id) {
        Some(cams[idx_of(cams, id)])
    } else {
        None
    }
}

/// The catalogue after an insertion attempt: a camera whose id or address
/// is already present is refused without side effects.
pub open spec fn add_spec(cams: Seq<CameraView>, cam: CameraView) -> Result<
    Seq<CameraView>,
    RegistryError,
> {
    if exists|k: int|
        0 <= k < cams.len() && (cams[k].id == cam.id || cams[k].address == cam.address) {
        Err(RegistryError::Conflict)
    } else {
        Ok(cams.push(cam))
    }
}

/// The catalogue after a subscription attempt: the camera must exist and
/// the chat id must be new to it; then the chat id is appended.
pub open spec fn subscribe_spec(cams: Seq<CameraView>, id: CameraId, chat: ChatId) -> Result<
    Seq<CameraView>,
    RegistryError,
> {
    if !has_id(cams, id) {
        Err(RegistryError::NotFound)
    } else {
        let k = idx_of(cams, id);
        if cams[k].subscriptors.contains(chat) {
            Err(RegistryError::Conflict)
        } else {
            Ok(
                cams.update(
                    k,
                    CameraView { subscriptors: cams[k].subscriptors.push(chat), ..cams[k] },
                ),
            )
        }
    }
}

/// `subs` with every occurrence of this chat id removed, order kept.
pub open spec fn without_chat(subs: Seq<ChatId>, chat: ChatId) -> Seq<ChatId>
    decreases subs.len(),
{
    if subs.len() == 0 {
        subs
    } else {
        let prefix = without_chat(subs.drop_last(), chat);
        if subs.last() == chat {
            prefix
        } else {
            prefix.push(subs.last())
        }
    }
}

/// The catalogue after an unsubscription attempt: the camera must exist
/// and the chat id must be subscribed; then it is removed.
pub open spec fn unsubscribe_spec(cams: Seq<CameraView>, id: CameraId, chat: ChatId) -> Result<
    Seq<CameraView>,
    RegistryError,
> {
    if !has_id(cams, id) {
        Err(RegistryError::NotFound)
    } else {
        let k = idx_of(cams, id);
        if !cams[k].subscriptors.contains(chat) {
            Err(RegistryError::Conflict)
        } else {
            Ok(
                cams.update(
                    k,
                    CameraView { subscriptors: without_chat(cams[k].subscriptors, chat), ..cams[k] },
                ),
            )
        }
    }
}

/// The catalogue after a snapshot locator update: the camera must exist.
pub open spec fn set_snapshot_spec(cams: Seq<CameraView>, id: CameraId, uri: Seq<char>) -> Result<
    Seq<CameraView>,
    RegistryError,
> {
    if !has_id(cams, id) {
        Err(RegistryError::NotFound)
    } else {
        let k = idx_of(cams, id);
        Ok(cams.update(k, CameraView { snapshot_uri: Some(uri), ..cams[k] }))
    }
}

/// The catalogue an insertion attempt leaves behind, the refused camera
/// dropped.
pub open spec fn add_result(cams: Seq<CameraView>, cam: CameraView) -> Seq<CameraView> {
    match add_spec(cams, cam) {
        Ok(c) => c,
        Err(_) => cams,
    }
}

/// The catalogue a subscription attempt leaves behind, a refusal changing
/// nothing.
pub open spec fn subscribe_result(cams: Seq<CameraView>, id: CameraId, chat: ChatId) -> Seq<
    CameraView,
> {
    match subscribe_spec(cams, id, chat) {
        Ok(c) => c,
        Err(_) => cams,
    }
}

/// The catalogue after subscribing each chat id in order, refusals ignored.
pub open spec fn subscribe_all(cams: Seq<CameraView>, id: CameraId, chats: Seq<ChatId>) -> Seq<
    CameraView,
>
    decreases chats.len(),
{
    if chats.len() == 0 {
        cams
    } else {
        subscribe_result(subscribe_all(cams, id, chats.drop_last()), id, chats.last())
    }
}

/// The camera entity a persisted row rehydrates to: connection facts from
/// the row, a fresh adapter handle, and no subscribers yet.
pub open spec fn loaded_camera(row: DbCameraView, clients: OnvifClientsView) -> CameraView {
    CameraView {
        id: row.id,
        name: row.name,
        address: row.address,
        snapshot_uri: row.snapshot_uri,
        client: OnvifCameraView {
            uri: row.uri,
            credentials: CredentialsView { username: row.username, password: row.password },
            clients: clients,
            event_subscription: None,
        },
        subscriptors: Seq::empty(),
    }
}

/// The catalogue after replaying one persisted row: the camera is inserted
/// (a duplicate is skipped) and its persisted subscribers are re-attached.
pub open spec fn load_step(
    cams: Seq<CameraView>,
    row: DbCameraView,
    clients: OnvifClientsView,
) -> Seq<CameraView> {
    subscribe_all(add_result(cams, loaded_camera(row, clients)), row.id, row.subscriptors)
}

/// How often this chat id occurs among the subscribers.
pub open spec fn chat_count(subs: Seq<ChatId>, chat: ChatId) -> nat
    decreases subs.len(),
{
    if subs.len() == 0 {
        0
    } else {
        chat_count(subs.drop_last(), chat) + if subs.last() == chat {
            1nat
        } else {
            0nat
        }
    }
}

/// A chat id occurs zero times exactly when the subscribers do not contain
/// it.
pub proof fn lemma_chat_count_zero(subs: Seq<ChatId>, chat: ChatId)
    ensures
        (chat_count(subs, chat) == 0) == !subs.contains(chat),
    decreases subs.len(),
{
    if subs.len() > 0 {
        lemma_chat_count_zero(subs.drop_last(), chat);
        if subs.contains(chat) {
            let i = choose|i: int| 0 <= i < subs.len() && subs[i] == chat;
            if i < subs.len() - 1 {
                assert(subs.drop_last()[i] == chat);
                assert(subs.drop_last().contains(chat));
            }
        } else {
            assert(!subs.drop_last().contains(chat)) by {
                if subs.drop_last().contains(chat) {
                    let i = choose|i: int|
                        0 <= i < subs.drop_last().len() && subs.drop_last()[i] == chat;
                    assert(subs[i] == chat);
                }
            }
        }
    }
}

/// The catalogue after replaying the persisted rows in order, each with the
/// clients record its device reports.
pub open spec fn load_all(
    cams: Seq<CameraView>,
    rows: Seq<DbCameraView>,
    clients: Seq<OnvifClientsView>,
) -> Seq<CameraView>
    decreases rows.len(),
{
    if rows.len() == 0 {
        cams
    } else {
        load_step(
            load_all(cams, rows.drop_last(), clients.drop_last()),
            rows.last(),
            clients.last(),
        )
    }
}

/// The camera one persisted row ends up as once its subscribers are
/// re-attached.
pub open spec fn camera_of_row(row: DbCameraView, clients: OnvifClientsView) -> CameraView {
    CameraView { subscriptors: row.subscriptors, ..loaded_camera(row, clients) }
}

/// Whether this chat id occurs among the subscribers.
pub fn contains_chat(subs: &Vec<ChatId>, chat: ChatId) -> (r: bool)
    ensures
        r == subs@.contains(chat),
{
    let mut i: usize = 0;
    while i < subs.len()
        invariant
            i <= subs@.len(),
            forall|k: int| 0 <= k < i ==> subs@[k] != chat,
        decreases subs.len() - i,
    {
        if subs[i] == chat {
            return true;
        }
        i += 1;
    }
    false
}

/// Removing a chat id keeps the remaining subscribers a subsequence, so a
/// duplicate-free set stays duplicate-free.
proof fn lemma_without_chat_distinct(subs: Seq<ChatId>, chat: ChatId)
    ensures
        forall|k: int|
            0 <= k < without_chat(subs, chat).len() ==> subs.contains(
                #[trigger] without_chat(subs, chat)[k],
            ),
        forall|k: int, l: int|
            0 <= k < l < without_chat(subs, chat).len() ==> exists|m: int, n: int|
                0 <= m < n < subs.len() && subs[m] == #[trigger] without_chat(subs, chat)[k]
                    && subs[n] == #[trigger] without_chat(subs, chat)[l],
    decreases subs.len(),
{
    let out = without_chat(subs, chat);
    if subs.len() > 0 {
        lemma_without_chat_distinct(subs.drop_last(), chat);
        let sub = without_chat(subs.drop_last(), chat);
        assert forall|k: int| 0 <= k < out.len() implies subs.contains(#[trigger] out[k]) by {
            if k < sub.len() {
                let m = choose|m: int| 0 <= m < subs.drop_last().len() && subs.drop_last()[m]
                    == sub[k];
                assert(subs[m] == out[k]);
            } else {
                assert(out[k] == subs.last());
                assert(subs[subs.len() - 1] == subs.last());
            }
        }
        assert forall|k: int, l: int| 0 <= k < l < out.len() implies exists|m: int, n: int|
            0 <= m < n < subs.len() && subs[m] == #[trigger] out[k] && subs[n]
                == #[trigger] out[l] by {
            if l < sub.len() {
                let (m, n) = choose|m: int, n: int|
                    0 <= m < n < subs.drop_last().len() && subs.drop_last()[m] == sub[k]
                        && subs.drop_last()[n] == sub[l];
                assert(subs[m] == out[k] && subs[n] == out[l]);
            } else {
                let m = choose|m: int| 0 <= m < subs.drop_last().len() && subs.drop_last()[m]
                    == sub[k];
                let n = subs.len() - 1;
                assert(subs[m] == out[k] && subs[n] == out[l]);
            }
        }
    }
}

/// The in-memory catalogue, the process-wide polling interval, and the
/// store model the catalogue writes through to.
pub struct MemoryRepository {
    pub cameras: Vec<Camera>,
    pub polling_seconds: u64,
    pub store: DbStore,
}

/// Mathematical value of the repository.
#[verifier::ext_equal]
pub struct RepositoryView {
    pub cameras: Seq<CameraView>,
    pub polling_seconds: u64,
    pub store: DbStoreView,
}

impl View for MemoryRepository {
    type V = RepositoryView;

    open spec fn view(&self) -> RepositoryView {
        RepositoryView {
            cameras: self.cameras.deep_view(),
            polling_seconds: self.polling_seconds,
            store: self.store@,
        }
    }
}

impl RepositoryView {
    /// Catalogue integrity: unique ids, unique addresses, well-formed
    /// subscriber sets, and a well-formed store.
    pub open spec fn wf(self) -> bool {
        &&& forall|i: int, j: int|
            0 <= i < j < self.cameras.len() ==> self.cameras[i].id != self.cameras[j].id
        &&& forall|i: int, j: int|
            0 <= i < j < self.cameras.len() ==> self.cameras[i].address != self.cameras[j].address
        &&& forall|i: int| 0 <= i < self.cameras.len() ==> camera_wf(#[trigger] self.cameras[i])
        &&& self.store.wf()
    }
}

impl MemoryRepository {
    /// A repository over the given store, with an empty catalogue and the
    /// configured polling interval.
    pub fn new(polling_seconds: u64, repo_store: DbStore) -> (r: Self)
        ensures
            r@.cameras.len() == 0,
            r@.polling_seconds == polling_seconds,
            r@.store == repo_store@,
            repo_store@.wf() ==> r@.wf(),
    {
        MemoryRepository { cameras: Vec::new(), polling_seconds, store: repo_store }
    }

    /// The position of the camera with this id, scanning forward.
    fn find_index(&self, camera_id: CameraId) -> (r: Option<usize>)
        ensures
            match r {
                None => !has_id(self@.cameras, camera_id),
                Some(k) => k < self@.cameras.len() && self@.cameras[k as int].id == camera_id,
            },
    {
        let mut i: usize = 0;
        while i < self.cameras.len()
            invariant
                i <= self@.cameras.len(),
                self@.cameras.len() == self.cameras.len(),
                forall|k: int| 0 <= k < i ==> self@.cameras[k].id != camera_id,
            decreases self.cameras.len() - i,
        {
            if self.cameras[i].id == camera_id {
                proof {
                    assert(self@.cameras[i as int] == self.cameras@[i as int]@);
                }
                return Some(i);
            }
            proof {
                assert(self@.cameras[i as int] == self.cameras@[i as int]@);
            }
            i += 1;
        }
        None
    }

    /// A point-in-time copy of the whole catalogue, safe to walk without
    /// holding the registry.
    pub fn get_cameras(&self) -> (r: Vec<Camera>)
        ensures
            r@.len() == self@.cameras.len(),
            forall|k: int| 0 <= k < r@.len() ==> r@[k]@ == self@.cameras[k],
    {
        let mut out: Vec<Camera> = Vec::new();
        let mut i: usize = 0;
        while i < self.cameras.len()
            invariant
                i <= self@.cameras.len(),
                self@.cameras.len() == self.cameras.len(),
                out@.len() == i,
                forall|k: int| 0 <= k < i ==> out@[k]@ == self@.cameras[k],
            decreases self.cameras.len() - i,
        {
            let cam = self.cameras[i].clone();
            proof {
                assert(self@.cameras[i as int] == self.cameras@[i as int]@);
            }
            out.push(cam);
            i += 1;
        }
        out
    }

    /// A copy of the camera with this id, or nothing.
    pub fn get_camera(&self, camera_id: CameraId) -> (r: Option<Camera>)
        requires
            self@.wf(),
        ensures
            match r {
                None => find_camera(self@.cameras, camera_id) is None,
                Some(cam) => find_camera(self@.cameras, camera_id) == Some(cam@),
            },
    {
        match self.find_index(camera_id) {
            None => None,
            Some(k) => {
                let cam = self.cameras[k].clone();
                proof {
                    let k2 = idx_of(self@.cameras, camera_id);
                    assert(self@.cameras[k as int] == self.cameras@[k as int]@);
                    assert(has_id(self@.cameras, camera_id));
                    if k2 != k as int {
                        assert(self@.cameras[k2].id == self@.cameras[k as int].id);
                        assert(false);
                    }
                }
                Some(cam)
            },
        }
    }

    /// The polling interval every cycle reads at its start.
    pub fn get_polling_seconds(&self) -> (r: u64)
        ensures
            r == self@.polling_seconds,
    {
        self.polling_seconds
    }

    /// Replaces the polling interval, whole-value; the catalogue and the
    /// store are untouched.
    pub fn set_polling_seconds(&mut self, seconds: u64)
        ensures
            final(self)@ == (RepositoryView { polling_seconds: seconds, ..old(self)@ }),
    {
        self.polling_seconds = seconds;
        proof {
            assert(self@ =~~= (RepositoryView { polling_seconds: seconds, ..old(self)@ }));
        }
    }

    /// Inserts a camera; a duplicate id or address is refused with
    /// `Conflict` and the catalogue is unchanged.
    pub fn add_camera(&mut self, camera: Camera) -> (r: Result<(), RegistryError>)
        requires
            old(self)@.wf(),
            camera_wf(camera@),
        ensures
            final(self)@.wf(),
            match add_spec(old(self)@.cameras, camera@) {
                Ok(cams) => r is Ok && final(self)@ == (RepositoryView {
                    cameras: cams,
                    ..old(self)@
                }),
                Err(e) => r == Err::<(), RegistryError>(e) && final(self)@ == old(self)@,
            },
    {
        let mut i: usize = 0;
        while i < self.cameras.len()
            invariant
                self@ == old(self)@,
                old(self)@.wf(),
                i <= self@.cameras.len(),
                self@.cameras.len() == self.cameras.len(),
                camera_wf(camera@),
                forall|k: int|
                    0 <= k < i ==> self@.cameras[k].id != camera@.id && self@.cameras[k].address
                        != camera@.address,
            decreases self.cameras.len() - i,
        {
            proof {
                assert(self@.cameras[i as int] == self.cameras@[i as int]@);
            }
            if self.cameras[i].id == camera.id || str_eq(
                self.cameras[i].address.as_str(),
                camera.address.as_str(),
            ) {
                return Err(RegistryError::Conflict);
            }
            i += 1;
        }
        self.cameras.push(camera);
        proof {
            assert(self@ =~~= (RepositoryView {
                cameras: old(self)@.cameras.push(camera@),
                ..old(self)@
            }));
        }
        Ok(())
    }

    /// Whether some catalogue camera carries this address.
    pub fn has_camera_with_address(&self, address: &str) -> (r: bool)
        ensures
            r == has_addr(self@.cameras, address@),
    {
        let mut i: usize = 0;
        while i < self.cameras.len()
            invariant
                i <= self@.cameras.len(),
                self@.cameras.len() == self.cameras.len(),
                forall|k: int| 0 <= k < i ==> self@.cameras[k].address != address@,
            decreases self.cameras.len() - i,
        {
            proof {
                assert(self@.cameras[i as int] == self.cameras@[i as int]@);
            }
            if str_eq(self.cameras[i].address.as_str(), address) {
                return true;
            }
            i += 1;
        }
        false
    }

    /// Appends a subscriber to a camera; the camera must exist and the chat
    /// id must be new to it. With `update_store` the pair is also persisted,
    /// unless the store already holds it.
    pub fn subscribe_to_camera(&mut self, camera_id: CameraId, chat_id: ChatId, update_store: bool)
        -> (r: Result<(), RegistryError>)
        requires
            old(self)@.wf(),
            update_store ==> old(self)@.store.next_subscription_id < i64::MAX,
        ensures
            final(self)@.wf(),
            match subscribe_spec(old(self)@.cameras, camera_id, chat_id) {
                Ok(cams) => r is Ok && final(self)@ == (RepositoryView {
                    cameras: cams,
                    store: if update_store && !old(self)@.store.has_pair(camera_id, chat_id) {
                        old(self)@.store.with_pair(camera_id, chat_id)
                    } else {
                        old(self)@.store
                    },
                    ..old(self)@
                }),
                Err(e) => r == Err::<(), RegistryError>(e) && final(self)@ == old(self)@,
            },
    {
        let k = match self.find_index(camera_id) {
            None => {
                return Err(RegistryError::NotFound);
            },
            Some(k) => k,
        };
        proof {
            let k2 = idx_of(self@.cameras, camera_id);
            assert(has_id(self@.cameras, camera_id));
            if k2 != k as int {
                assert(self@.cameras[k2].id == self@.cameras[k as int].id);
                assert(false);
            }
        }
        let mut cam = self.cameras.remove(k);
        if contains_chat(&cam.subscriptors, chat_id) {
            self.cameras.insert(k, cam);
            proof {
                assert(self@.cameras =~= old(self)@.cameras);
                assert(self@ =~~= old(self)@);
            }
            return Err(RegistryError::Conflict);
        }
        cam.subscriptors.push(chat_id);
        self.cameras.insert(k, cam);
        proof {
            let spec_cams = subscribe_spec(old(self)@.cameras, camera_id, chat_id)->Ok_0;
            assert(self@.cameras =~= spec_cams);
            assert forall|i: int| 0 <= i < self@.cameras.len() implies camera_wf(
                #[trigger] self@.cameras[i],
            ) by {
                assert(camera_wf(old(self)@.cameras[i]));
                if i == k as int {
                    assert(forall|m: int|
                        0 <= m < old(self)@.cameras[i].subscriptors.len() ==> old(
                            self,
                        )@.cameras[i].subscriptors[m] != chat_id);
                }
            }
        }
        if update_store && !self.store.has_pair(camera_id, chat_id) {
            let _ = self.store.insert_subscription(camera_id, chat_id);
        }
        proof {
            assert(self@ =~~= (RepositoryView {
                cameras: subscribe_spec(old(self)@.cameras, camera_id, chat_id)->Ok_0,
                store: if update_store && !old(self)@.store.has_pair(camera_id, chat_id) {
                    old(self)@.store.with_pair(camera_id, chat_id)
                } else {
                    old(self)@.store
                },
                ..old(self)@
            }));
        }
        Ok(())
    }

    /// Removes a subscriber from a camera; the camera must exist and the
    /// chat id must currently be subscribed — asking to leave while not
    /// subscribed is reported, not silently ignored. With `update_store`
    /// the persisted pair is deleted too.
    pub fn unsubscribe_from_camera(
        &mut self,
        camera_id: CameraId,
        chat_id: ChatId,
        update_store: bool,
    ) -> (r: Result<(), RegistryError>)
        requires
            old(self)@.wf(),
        ensures
            final(self)@.wf(),
            match unsubscribe_spec(old(self)@.cameras, camera_id, chat_id) {
                Ok(cams) => r is Ok && final(self)@ == (RepositoryView {
                    cameras: cams,
                    store: if update_store {
                        old(self)@.store.without_pair(camera_id, chat_id)
                    } else {
                        old(self)@.store
                    },
                    ..old(self)@
                }),
                Err(e) => r == Err::<(), RegistryError>(e) && final(self)@ == old(self)@,
            },
    {
        let k = match self.find_index(camera_id) {
            None => {
                return Err(RegistryError::NotFound);
            },
            Some(k) => k,
        };
        proof {
            let k2 = idx_of(self@.cameras, camera_id);
            assert(has_id(self@.cameras, camera_id));
            if k2 != k as int {
                assert(self@.cameras[k2].id == self@.cameras[k as int].id);
                assert(false);
            }
        }
        let mut cam = self.cameras.remove(k);
        if !contains_chat(&cam.subscriptors, chat_id) {
            self.cameras.insert(k, cam);
            proof {
                assert(self@.cameras =~= old(self)@.cameras);
                assert(self@ =~~= old(self)@);
            }
            return Err(RegistryError::Conflict);
        }
        let mut kept: Vec<ChatId> = Vec::new();
        let mut j: usize = 0;
        while j < cam.subscriptors.len()
            invariant
                j <= cam.subscriptors@.len(),
                kept@ == without_chat(cam.subscriptors@.take(j as int), chat_id),
            decreases cam.subscriptors.len() - j,
        {
            let c = cam.subscriptors[j];
            proof {
                assert(cam.subscriptors@.take(j as int + 1).drop_last() =~= cam.subscriptors@.take(
                    j as int,
                ));
                assert(cam.subscriptors@.take(j as int + 1).last() == cam.subscriptors@[j as int]);
            }
            if c != chat_id {
                kept.push(c);
            }
            j += 1;
        }
        proof {
            assert(cam.subscriptors@.take(cam.subscriptors@.len() as int) =~= cam.subscriptors@);
            lemma_without_chat_distinct(cam.subscriptors@, chat_id);
        }
        cam.subscriptors = kept;
        self.cameras.insert(k, cam);
        proof {
            let spec_cams = unsubscribe_spec(old(self)@.cameras, camera_id, chat_id)->Ok_0;
            assert(self@.cameras =~= spec_cams);
            assert forall|i: int| 0 <= i < self@.cameras.len() implies camera_wf(
                #[trigger] self@.cameras[i],
            ) by {
                assert(camera_wf(old(self)@.cameras[i]));
            }
        }
        if update_store {
            self.store.remove_subscription(camera_id, chat_id);
        }
        proof {
            assert(self@ =~~= (RepositoryView {
                cameras: unsubscribe_spec(old(self)@.cameras, camera_id, chat_id)->Ok_0,
                store: if update_store {
                    old(self)@.store.without_pair(camera_id, chat_id)
                } else {
                    old(self)@.store
                },
                ..old(self)@
            }));
        }
        Ok(())
    }

    /// Registers one discovered device: the store persists it first, which
    /// assigns the id, then the catalogue takes it with no snapshot locator
    /// and no subscribers. A duplicate address in catalogue or store is
    /// refused before anything is written.
    pub fn register_discovered_camera(
        &mut self,
        name: &str,
        address: &str,
        snapshot_uri: &Option<String>,
        client: OnvifCamera,
    ) -> (r: Result<CameraId, RegistryError>)
        requires
            old(self)@.wf(),
            old(self)@.store.next_camera_id < i64::MAX,
        ensures
            final(self)@.wf(),
            has_addr(old(self)@.cameras, address@) || old(self)@.store.has_address(address@)
                ==> r == Err::<CameraId, RegistryError>(RegistryError::Conflict) && final(self)@
                == old(self)@,
            !(has_addr(old(self)@.cameras, address@) || old(self)@.store.has_address(address@))
                ==> {
                let st2 = old(self)@.store.with_camera(
                    name@,
                    client@.uri,
                    address@,
                    CredentialsViewFields {
                        username: client@.credentials.username,
                        password: client@.credentials.password,
                    },
                    snapshot_uri.deep_view(),
                );
                let camv = CameraView {
                    id: old(self)@.store.next_camera_id,
                    name: name@,
                    address: address@,
                    snapshot_uri: None,
                    client: client@,
                    subscriptors: Seq::empty(),
                };
                match add_spec(old(self)@.cameras, camv) {
                    Ok(cams) => r == Ok::<CameraId, RegistryError>(old(self)@.store.next_camera_id)
                        && final(self)@ == (RepositoryView {
                        cameras: cams,
                        store: st2,
                        ..old(self)@
                    }),
                    Err(e) => r == Err::<CameraId, RegistryError>(e) && final(self)@
                        == (RepositoryView { store: st2, ..old(self)@ }),
                }
            },
    {
        if self.has_camera_with_address(address) {
            return Err(RegistryError::Conflict);
        }
        if self.store.has_address(address) {
            return Err(RegistryError::Conflict);
        }
        let id = self.store.insert_camera(
            name,
            client.uri.as_str(),
            address,
            &client.credentials,
            snapshot_uri,
        );
        let cam = Camera {
            id,
            name: name.to_owned(),
            address: address.to_owned(),
            snapshot_uri: None,
            client,
            subscriptors: Vec::new(),
        };
        match self.add_camera(cam) {
            Ok(_) => Ok(id),
            Err(e) => Err(e),
        }
    }

    /// The base URL a discovered device is connected through, built from
    /// the host and port its discovery answer advertised (absent parts come
    /// in as an empty host and port zero).
    pub fn device_uri_from_parts(host: &str, port: u16) -> (r: String)
        ensures
            r@ == "http://"@ + host@ + ":"@ + dec_of_nat(port as nat),
    {
        let mut out = String::from_str("http://");
        out.append(host);
        out.append(":");
        out.append(u64_to_string(port as u64).as_str());
        proof {
            assert(out@ =~= "http://"@ + host@ + ":"@ + dec_of_nat(port as nat));
        }
        out
    }

    /// Replays one persisted camera row into the catalogue: the adapter
    /// handle is rebuilt from the row's connection facts and the advertised
    /// services, the camera is inserted, and its persisted subscribers are
    /// re-attached without writing back to the store. A faulty device
    /// description leaves the repository untouched so the remaining rows can
    /// still load.
    pub fn attach_loaded_camera(&mut self, row: &DbCamera, services: &Vec<ServiceEntry>) -> (r:
        Result<(), String>)
        requires
            old(self)@.wf(),
        ensures
            final(self)@.wf(),
            match clients_of(row@.uri, services.deep_view()) {
                Err(e) => r matches Err(msg) && msg@ == "cannot create OnvifCamera:"@ + e
                    && final(self)@ == old(self)@,
                Ok(c) => r is Ok && final(self)@ == (RepositoryView {
                    cameras: load_step(old(self)@.cameras, row@, c),
                    ..old(self)@
                }),
            },
    {
        let client = match OnvifCamera::new(
            row.uri.as_str(),
            row.username.as_str(),
            row.password.as_str(),
            services,
        ) {
            Ok(c) => c,
            Err(e) => {
                return Err(String::from_str("cannot create OnvifCamera:").concat(e.as_str()));
            },
        };
        let ghost clientsv = clients_of(row@.uri, services.deep_view())->Ok_0;
        let cam = Camera {
            id: row.id,
            name: row.name.clone(),
            address: row.address.clone(),
            snapshot_uri: clone_opt_string(&row.snapshot_uri),
            client,
            subscriptors: Vec::new(),
        };
        proof {
            assert(cam@ =~~= loaded_camera(row@, clientsv));
        }
        let _ = self.add_camera(cam);
        let ghost mid = self@.cameras;
        proof {
            assert(mid == add_result(old(self)@.cameras, loaded_camera(row@, clientsv)));
        }
        let mut j: usize = 0;
        while j < row.subscriptors.len()
            invariant
                j <= row.subscriptors@.len(),
                self@.wf(),
                self@.cameras == subscribe_all(mid, row.id, row.subscriptors@.take(j as int)),
                self@.polling_seconds == old(self)@.polling_seconds,
                self@.store == old(self)@.store,
                row@.id == row.id,
            decreases row.subscriptors.len() - j,
        {
            let chat = row.subscriptors[j];
            proof {
                assert(row.subscriptors@.take(j as int + 1).drop_last() =~= row.subscriptors@.take(
                    j as int,
                ));
                assert(row.subscriptors@.take(j as int + 1).last() == row.subscriptors@[j as int]);
            }
            let _ = self.subscribe_to_camera(row.id, chat, false);
            j += 1;
        }
        proof {
            assert(row.subscriptors@.take(row.subscriptors@.len() as int) =~= row.subscriptors@);
            assert(self@ =~~= (RepositoryView {
                cameras: load_step(old(self)@.cameras, row@, clientsv),
                ..old(self)@
            }));
        }
        Ok(())
    }

    /// Updates a camera's snapshot locator, in memory only.
    pub fn update_camera_snapshot_uri(&mut self, camera_id: CameraId, snapshot_uri: &str) -> (r:
        Result<(), RegistryError>)
        requires
            old(self)@.wf(),
        ensures
            final(self)@.wf(),
            match set_snapshot_spec(old(self)@.cameras, camera_id, snapshot_uri@) {
                Ok(cams) => r is Ok && final(self)@ == (RepositoryView {
                    cameras: cams,
                    ..old(self)@
                }),
                Err(e) => r == Err::<(), RegistryError>(e) && final(self)@ == old(self)@,
            },
    {
        let ghost pre = self@;
        let k = match self.find_index(camera_id) {
            None => {
                return Err(RegistryError::NotFound);
            },
            Some(k) => k,
        };
        let mut cam = self.cameras.remove(k);
        cam.snapshot_uri = Some(snapshot_uri.to_owned());
        self.cameras.insert(k, cam);
        proof {
            let k2 = idx_of(pre.cameras, camera_id);
            assert(has_id(pre.cameras, camera_id));
            if k2 != k as int {
                assert(pre.cameras[k2].id == pre.cameras[k as int].id);
                assert(false);
            }
            assert(self@ =~~= (RepositoryView {
                cameras: set_snapshot_spec(pre.cameras, camera_id, snapshot_uri@)->Ok_0,
                ..pre
            }));
        }
        Ok(())
    }
}

} // verus!
