//! The laws the registry and store obey across calls: duplicate insertions
//! conflict without side effects, double subscription conflicts and leaves
//! one occurrence, a persisted camera reloads to the same tuple with its
//! subscribers reattached, and reloading an unchanged store changes
//! nothing.

use crate::registry::{
    add_result, add_spec, camera_of_row, chat_count, find_camera, has_addr, has_id, idx_of,
    lemma_chat_count_zero, load_all, load_step, loaded_camera, subscribe_all, subscribe_result,
    subscribe_spec, CameraView,
};
use crate::onvif::{OnvifCameraView, OnvifClientsView};
use crate::store::{
    chats_for, joined_camera, joined_cameras, CredentialsViewFields, DbCameraView, DbStoreView,
    DbCameraSubscription,
};
use crate::{CameraId, ChatId, CredentialsView, RegistryError};
use vstd::prelude::*;

verus! {

/// Inserting a camera whose address the catalogue already holds conflicts;
/// together with `add_camera`'s contract the catalogue is then unchanged.
pub proof fn lemma_add_duplicate_address_conflict(cams: Seq<CameraView>, cam: CameraView)
    requires
        has_addr(cams, cam.address),
    ensures
        add_spec(cams, cam) == Err::<Seq<CameraView>, RegistryError>(RegistryError::Conflict),
{
}

/// Subscribing the same chat to the same camera twice without an
/// unsubscription in between: the second call conflicts, and the camera's
/// subscriber set holds exactly one occurrence of the chat id.
pub proof fn lemma_subscribe_twice_conflicts(cams: Seq<CameraView>, id: CameraId, chat: ChatId)
    requires
        forall|i: int, j: int| 0 <= i < j < cams.len() ==> cams[i].id != cams[j].id,
        subscribe_spec(cams, id, chat) is Ok,
    ensures
        subscribe_spec(subscribe_spec(cams, id, chat)->Ok_0, id, chat) == Err::<
            Seq<CameraView>,
            RegistryError,
        >(RegistryError::Conflict),
        chat_count(find_camera(subscribe_spec(cams, id, chat)->Ok_0, id)->Some_0.subscriptors, chat)
            == 1,
{
    let k = idx_of(cams, id);
    let subs = cams[k].subscriptors;
    let cams2 = subscribe_spec(cams, id, chat)->Ok_0;
    assert(cams2 == cams.update(k, CameraView { subscriptors: subs.push(chat), ..cams[k] }));
    assert(cams2[k].id == id);
    assert(has_id(cams2, id));
    let k2 = idx_of(cams2, id);
    if k2 != k {
        assert(cams2[k2].id == cams[k2].id);
        assert(false);
    }
    assert(cams2[k].subscriptors[subs.len() as int] == chat);
    assert(cams2[k].subscriptors.contains(chat));
    assert(subs.push(chat).drop_last() =~= subs);
    lemma_chat_count_zero(subs, chat);
    assert(find_camera(cams2, id) == Some(cams2[k]));
}

/// A camera id no persisted subscription row references collects no
/// subscribers in the join.
pub proof fn lemma_chats_for_fresh(rows: Seq<DbCameraSubscription>, cid: CameraId)
    requires
        forall|i: int| 0 <= i < rows.len() ==> rows[i].camera_id != cid,
    ensures
        chats_for(rows, cid) =~= Seq::<ChatId>::empty(),
    decreases rows.len(),
{
    if rows.len() > 0 {
        assert(forall|i: int|
            0 <= i < rows.drop_last().len() ==> rows.drop_last()[i] == rows[i]);
        lemma_chats_for_fresh(rows.drop_last(), cid);
    }
}

/// Appending one subscription row appends its chat id to the join of its
/// camera and leaves every other camera's join as it was.
pub proof fn lemma_chats_for_push(rows: Seq<DbCameraSubscription>, row: DbCameraSubscription, cid: CameraId)
    ensures
        row.camera_id == cid ==> chats_for(rows.push(row), cid) == chats_for(rows, cid).push(
            row.chat_id,
        ),
        row.camera_id != cid ==> chats_for(rows.push(row), cid) == chats_for(rows, cid),
{
    assert(rows.push(row).drop_last() =~= rows);
    assert(rows.push(row).last() == row);
}

/// Subscribing a list of fresh, pairwise distinct chat ids to one camera of
/// a catalogue with unique ids appends exactly those ids to that camera's
/// subscriber set and touches nothing else.
pub proof fn lemma_subscribe_all_target(cams: Seq<CameraView>, id: CameraId, chats: Seq<ChatId>)
    requires
        forall|i: int, j: int| 0 <= i < j < cams.len() ==> cams[i].id != cams[j].id,
        has_id(cams, id),
        forall|i: int, j: int| 0 <= i < j < chats.len() ==> chats[i] != chats[j],
        forall|i: int|
            0 <= i < chats.len() ==> !cams[idx_of(cams, id)].subscriptors.contains(chats[i]),
    ensures
        subscribe_all(cams, id, chats) == cams.update(
            idx_of(cams, id),
            CameraView {
                subscriptors: cams[idx_of(cams, id)].subscriptors + chats,
                ..cams[idx_of(cams, id)]
            },
        ),
    decreases chats.len(),
{
    let k = idx_of(cams, id);
    if chats.len() == 0 {
        assert(cams[k].subscriptors + chats =~= cams[k].subscriptors);
        assert(cams.update(
            k,
            CameraView { subscriptors: cams[k].subscriptors + chats, ..cams[k] },
        ) =~= cams);
    } else {
        assert(forall|i: int|
            0 <= i < chats.drop_last().len() ==> chats.drop_last()[i] == chats[i]);
        lemma_subscribe_all_target(cams, id, chats.drop_last());
        let mid = cams.update(
            k,
            CameraView { subscriptors: cams[k].subscriptors + chats.drop_last(), ..cams[k] },
        );
        assert(subscribe_all(cams, id, chats) == subscribe_result(mid, id, chats.last()));
        assert(mid[k].id == id);
        assert(has_id(mid, id));
        let k2 = idx_of(mid, id);
        if k2 != k {
            assert(mid[k2].id == cams[k2].id);
            assert(false);
        }
        let last = chats.last();
        assert(!mid[k].subscriptors.contains(last)) by {
            if mid[k].subscriptors.contains(last) {
                let i = choose|i: int|
                    0 <= i < mid[k].subscriptors.len() && mid[k].subscriptors[i] == last;
                if i < cams[k].subscriptors.len() {
                    assert(cams[k].subscriptors[i] == last);
                    assert(cams[k].subscriptors.contains(last));
                    assert(!cams[k].subscriptors.contains(chats[chats.len() - 1]));
                } else {
                    let j = i - cams[k].subscriptors.len();
                    assert(chats.drop_last()[j] == last);
                    assert(chats[j] == chats[chats.len() - 1]);
                }
            }
        }
        assert(subscribe_spec(mid, id, last) is Ok);
        let cams2 = subscribe_spec(mid, id, last)->Ok_0;
        assert(cams2 == mid.update(
            k,
            CameraView { subscriptors: mid[k].subscriptors.push(last), ..mid[k] },
        ));
        assert((cams[k].subscriptors + chats.drop_last()).push(last) =~= cams[k].subscriptors
            + chats);
        assert(cams2 =~= cams.update(
            k,
            CameraView { subscriptors: cams[k].subscriptors + chats, ..cams[k] },
        ));
    }
}

/// Replaying rows with fresh, pairwise distinct ids and addresses into a
/// catalogue appends one camera per row, carrying the row's connection
/// facts and exactly its persisted subscribers.
pub proof fn lemma_load_all_appends(
    cams: Seq<CameraView>,
    rows: Seq<DbCameraView>,
    clients: Seq<OnvifClientsView>,
)
    requires
        clients.len() == rows.len(),
        forall|i: int, j: int| 0 <= i < j < cams.len() ==> cams[i].id != cams[j].id,
        forall|i: int, j: int| 0 <= i < j < rows.len() ==> rows[i].id != rows[j].id,
        forall|i: int, j: int| 0 <= i < j < rows.len() ==> rows[i].address != rows[j].address,
        forall|i: int, j: int|
            0 <= i < cams.len() && 0 <= j < rows.len() ==> cams[i].id != rows[j].id,
        forall|i: int, j: int|
            0 <= i < cams.len() && 0 <= j < rows.len() ==> cams[i].address != rows[j].address,
        forall|r: int, i: int, j: int|
            0 <= r < rows.len() && 0 <= i < j < rows[r].subscriptors.len()
                ==> rows[r].subscriptors[i] != rows[r].subscriptors[j],
    ensures
        load_all(cams, rows, clients) == cams + Seq::new(
            rows.len(),
            |i: int| camera_of_row(rows[i], clients[i]),
        ),
    decreases rows.len(),
{
    if rows.len() == 0 {
        assert(cams + Seq::new(0, |i: int| camera_of_row(rows[i], clients[i])) =~= cams);
    } else {
        assert(forall|i: int|
            0 <= i < rows.drop_last().len() ==> rows.drop_last()[i] == rows[i]);
        assert(forall|i: int|
            0 <= i < clients.drop_last().len() ==> clients.drop_last()[i] == clients[i]);
        lemma_load_all_appends(cams, rows.drop_last(), clients.drop_last());
        let prefix = cams + Seq::new(
            (rows.len() - 1) as nat,
            |i: int| camera_of_row(rows.drop_last()[i], clients.drop_last()[i]),
        );
        assert(load_all(cams, rows.drop_last(), clients.drop_last()) == prefix);
        let row = rows.last();
        let cl = clients.last();
        let fresh = loaded_camera(row, cl);
        // Ids and addresses of the prefix: the starting catalogue's and the
        // earlier rows'. The last row clashes with neither.
        assert(forall|i: int|
            0 <= i < prefix.len() ==> #[trigger] prefix[i].id != fresh.id && prefix[i].address
                != fresh.address);
        assert(add_spec(prefix, fresh) is Ok);
        let appended = prefix.push(fresh);
        assert(load_step(prefix, row, cl) == subscribe_all(appended, row.id, row.subscriptors));
        assert(forall|i: int, j: int|
            0 <= i < j < appended.len() ==> appended[i].id != appended[j].id);
        assert(appended[appended.len() - 1].id == row.id);
        assert(has_id(appended, row.id));
        let k = idx_of(appended, row.id);
        if k != appended.len() - 1 {
            assert(appended[k].id == prefix[k].id);
            assert(false);
        }
        assert(forall|i: int|
            0 <= i < row.subscriptors.len() ==> !appended[k].subscriptors.contains(
                row.subscriptors[i],
            ));
        lemma_subscribe_all_target(appended, row.id, row.subscriptors);
        assert(Seq::empty() + row.subscriptors =~= row.subscriptors);
        assert(appended.update(
            k,
            CameraView { subscriptors: Seq::empty() + row.subscriptors, ..fresh },
        ) =~= prefix.push(camera_of_row(row, cl)));
        assert(load_all(cams, rows, clients) =~= cams + Seq::new(
            rows.len(),
            |i: int| camera_of_row(rows[i], clients[i]),
        ));
    }
}

/// Round trip through the durable store: persisting a camera and one
/// subscription for it, then rebuilding an empty catalogue from the store's
/// joined rows, reproduces the same (name, uri, address, credentials,
/// snapshot locator) tuple with the subscriber reattached.
pub proof fn lemma_persist_then_load_roundtrip(
    st: DbStoreView,
    name: Seq<char>,
    uri: Seq<char>,
    address: Seq<char>,
    credentials: CredentialsViewFields,
    snapshot_uri: Option<Seq<char>>,
    chat: ChatId,
    clients: OnvifClientsView,
)
    requires
        st.wf(),
        st.next_camera_id < i64::MAX,
        forall|i: int| 0 <= i < st.subs.len() ==> st.subs[i].camera_id != st.next_camera_id,
    ensures
        ({
            let id = st.next_camera_id;
            let st2 = st.with_camera(name, uri, address, credentials, snapshot_uri).with_pair(
                id,
                chat,
            );
            let row = joined_cameras(st2)[st.cameras.len() as int];
            row == (DbCameraView {
                id: id,
                name: name,
                uri: uri,
                address: address,
                username: credentials.username,
                password: credentials.password,
                snapshot_uri: snapshot_uri,
                subscriptors: seq![chat],
            }) && load_all(Seq::empty(), seq![row], seq![clients]) == seq![
                CameraView {
                    id: id,
                    name: name,
                    address: address,
                    snapshot_uri: snapshot_uri,
                    client: OnvifCameraView {
                        uri: uri,
                        credentials: CredentialsView {
                            username: credentials.username,
                            password: credentials.password,
                        },
                        clients: clients,
                        event_subscription: None,
                    },
                    subscriptors: seq![chat],
                },
            ]
        }),
{
    let id = st.next_camera_id;
    let st1 = st.with_camera(name, uri, address, credentials, snapshot_uri);
    let st2 = st1.with_pair(id, chat);
    let n = st.cameras.len() as int;
    assert(st2.cameras[n].id == id);
    lemma_chats_for_fresh(st.subs, id);
    lemma_chats_for_push(st.subs, DbCameraSubscription { id: st.next_subscription_id, camera_id: id, chat_id: chat }, id);
    assert(chats_for(st2.subs, id) =~= seq![chat]);
    let row = joined_cameras(st2)[n];
    assert(row == joined_camera(st2.cameras[n], st2.subs));
    assert(row =~= (DbCameraView {
        id: id,
        name: name,
        uri: uri,
        address: address,
        username: credentials.username,
        password: credentials.password,
        snapshot_uri: snapshot_uri,
        subscriptors: seq![chat],
    }));
    let rows = seq![row];
    let cls = seq![clients];
    assert(rows.drop_last() =~= Seq::<DbCameraView>::empty());
    assert(cls.drop_last() =~= Seq::<OnvifClientsView>::empty());
    lemma_load_all_appends(Seq::empty(), rows, cls);
    let expected = CameraView {
        id: id,
        name: name,
        address: address,
        snapshot_uri: snapshot_uri,
        client: OnvifCameraView {
            uri: uri,
            credentials: CredentialsView {
                username: credentials.username,
                password: credentials.password,
            },
            clients: clients,
            event_subscription: None,
        },
        subscriptors: seq![chat],
    };
    assert(camera_of_row(row, clients) =~~= expected);
    assert(Seq::<CameraView>::empty() + Seq::new(1, |i: int| camera_of_row(rows[i], cls[i]))
        =~= seq![camera_of_row(row, clients)]);
}

/// Subscribing chat ids that a camera already carries changes nothing: each
/// attempt conflicts and is ignored.
proof fn lemma_subscribe_all_noop(cams: Seq<CameraView>, id: CameraId, chats: Seq<ChatId>)
    requires
        forall|i: int, j: int| 0 <= i < j < cams.len() ==> cams[i].id != cams[j].id,
        has_id(cams, id),
        forall|i: int|
            0 <= i < chats.len() ==> cams[idx_of(cams, id)].subscriptors.contains(chats[i]),
    ensures
        subscribe_all(cams, id, chats) == cams,
    decreases chats.len(),
{
    if chats.len() > 0 {
        assert(forall|i: int|
            0 <= i < chats.drop_last().len() ==> chats.drop_last()[i] == chats[i]);
        lemma_subscribe_all_noop(cams, id, chats.drop_last());
        assert(cams[idx_of(cams, id)].subscriptors.contains(chats[chats.len() - 1]));
        assert(subscribe_spec(cams, id, chats.last()) is Err);
    }
}

/// Replaying the unchanged store's rows into the catalogue that a first
/// replay of those rows produced changes nothing: loading is idempotent.
pub proof fn lemma_load_idempotent(rows: Seq<DbCameraView>, clients: Seq<OnvifClientsView>)
    requires
        clients.len() == rows.len(),
        forall|i: int, j: int| 0 <= i < j < rows.len() ==> rows[i].id != rows[j].id,
        forall|i: int, j: int| 0 <= i < j < rows.len() ==> rows[i].address != rows[j].address,
        forall|r: int, i: int, j: int|
            0 <= r < rows.len() && 0 <= i < j < rows[r].subscriptors.len()
                ==> rows[r].subscriptors[i] != rows[r].subscriptors[j],
    ensures
        load_all(load_all(Seq::empty(), rows, clients), rows, clients) == load_all(
            Seq::empty(),
            rows,
            clients,
        ),
{
    lemma_load_all_appends(Seq::empty(), rows, clients);
    let full = Seq::<CameraView>::empty() + Seq::new(
        rows.len(),
        |i: int| camera_of_row(rows[i], clients[i]),
    );
    assert(full.len() == rows.len());
    assert(forall|i: int| 0 <= i < full.len() ==> full[i] == camera_of_row(rows[i], clients[i]));
    lemma_load_all_noop_on(full, rows, clients, rows.len() as int);
    assert(rows.take(rows.len() as int) =~= rows);
    assert(clients.take(clients.len() as int) =~= clients);
}

/// Replaying any prefix of the rows into a catalogue that already holds
/// them all, one camera per row in row order, changes nothing.
proof fn lemma_load_all_noop_on(
    full: Seq<CameraView>,
    rows: Seq<DbCameraView>,
    clients: Seq<OnvifClientsView>,
    k: int,
)
    requires
        clients.len() == rows.len(),
        full.len() == rows.len(),
        0 <= k <= rows.len(),
        forall|i: int| 0 <= i < full.len() ==> full[i] == camera_of_row(rows[i], clients[i]),
        forall|i: int, j: int| 0 <= i < j < rows.len() ==> rows[i].id != rows[j].id,
    ensures
        load_all(full, rows.take(k), clients.take(k)) == full,
    decreases k,
{
    if k > 0 {
        assert(rows.take(k).drop_last() =~= rows.take(k - 1));
        assert(clients.take(k).drop_last() =~= clients.take(k - 1));
        lemma_load_all_noop_on(full, rows, clients, k - 1);
        let row = rows[k - 1];
        let cl = clients[k - 1];
        assert(rows.take(k).last() == row);
        assert(clients.take(k).last() == cl);
        // The insertion conflicts: the catalogue already holds the row's id.
        assert(full[k - 1].id == row.id);
        assert(add_spec(full, loaded_camera(row, cl)) is Err);
        assert(add_result(full, loaded_camera(row, cl)) == full);
        // Every persisted subscriber is already attached.
        assert(forall|i: int, j: int| 0 <= i < j < full.len() ==> full[i].id != full[j].id);
        assert(has_id(full, row.id));
        let t = idx_of(full, row.id);
        if t != k - 1 {
            assert(full[t].id == rows[t].id);
            assert(false);
        }
        assert(forall|i: int|
            0 <= i < row.subscriptors.len() ==> full[t].subscriptors.contains(
                row.subscriptors[i],
            ));
        lemma_subscribe_all_noop(full, row.id, row.subscriptors);
        assert(load_step(full, row, cl) == full);
    } else {
        assert(rows.take(0) =~= Seq::<DbCameraView>::empty());
        assert(clients.take(0) =~= Seq::<OnvifClientsView>::empty());
    }
}

} // verus!
