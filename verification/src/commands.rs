//! The command interface's decision core: each user command maps to exactly
//! one registry or dispatcher call, and every outcome maps to the reply the
//! user sees or to the one outside step the caller must perform next
//! (discovery, a snapshot download, a device user check).

use crate::registry::{
    find_camera, set_snapshot_spec, subscribe_spec, unsubscribe_spec, Camera, MemoryRepository,
    RepositoryView,
};
use crate::snapshot::{
    default_password, default_username, replace_snapshot_uri_credentials, replaced_uri,
};
use crate::text::{dec_of_int, i64_to_string, str_eq};
use crate::{CameraId, ChatId, RegistryError};
use vstd::prelude::*;

verus! {

/// The commands users issue through the chat transport.
#[derive(Clone, Copy, Debug, PartialEq, Eq, Structural)]
pub enum Command {
    Help,
    GetCameras,
    Subscribe(CameraId),
    Unsubscribe(CameraId),
    GetSnapshot(CameraId),
    SetPollingTime(u64),
    FixSnapshot(CameraId),
}

/// What handling a command asks the caller to do: send a reply, run
/// discovery and list the catalogue, download and send a snapshot, or check
/// the device's users before fixing its snapshot locator.
pub enum CommandAction {
    Reply { text: String },
    Discover,
    SendSnapshot { camera_name: String, snapshot_uri: String },
    CheckUsers { camera_id: CameraId, camera_uri: String },
}

/// Mathematical value of a command action.
#[verifier::ext_equal]
pub enum CommandActionView {
    Reply { text: Seq<char> },
    Discover,
    SendSnapshot { camera_name: Seq<char>, snapshot_uri: Seq<char> },
    CheckUsers { camera_id: CameraId, camera_uri: Seq<char> },
}

impl View for CommandAction {
    type V = CommandActionView;

    open spec fn view(&self) -> CommandActionView {
        match self {
            CommandAction::Reply { text } => CommandActionView::Reply { text: text@ },
            CommandAction::Discover => CommandActionView::Discover,
            CommandAction::SendSnapshot { camera_name, snapshot_uri } =>
                CommandActionView::SendSnapshot {
                camera_name: camera_name@,
                snapshot_uri: snapshot_uri@,
            },
            CommandAction::CheckUsers { camera_id, camera_uri } => CommandActionView::CheckUsers {
                camera_id: *camera_id,
                camera_uri: camera_uri@,
            },
        }
    }
}

/// Reply when a camera id is not in the catalogue.
pub open spec fn not_found_msg(id: CameraId) -> Seq<char> {
    "camera "@ + dec_of_int(id as int) + " not found"@
}

/// Reply when a lookup by id finds no camera.
pub open spec fn cannot_find_msg(id: CameraId) -> Seq<char> {
    "cannot find camera with id: "@ + dec_of_int(id as int)
}

/// Reply when a camera has no snapshot locator to fetch from.
pub open spec fn no_snapshot_url_msg(name: Seq<char>) -> Seq<char> {
    "no snapshot url specified for camera "@ + name
}

/// The reply a subscription attempt earns.
pub open spec fn subscribe_reply(
    cams: Seq<crate::registry::CameraView>,
    id: CameraId,
    chat: ChatId,
) -> Seq<char> {
    match subscribe_spec(cams, id, chat) {
        Ok(_) => "Subscribed successfully"@,
        Err(RegistryError::NotFound) => not_found_msg(id),
        Err(RegistryError::Conflict) => "already subscribed to this camera"@,
    }
}

/// The reply an unsubscription attempt earns.
pub open spec fn unsubscribe_reply(
    cams: Seq<crate::registry::CameraView>,
    id: CameraId,
    chat: ChatId,
) -> Seq<char> {
    match unsubscribe_spec(cams, id, chat) {
        Ok(_) => "Unsubscribed successfully"@,
        Err(RegistryError::NotFound) => not_found_msg(id),
        Err(RegistryError::Conflict) => "not subscribed to this camera"@,
    }
}

/// The help reply listing the supported commands.
pub open spec fn help_text_of() -> Seq<char> {
    "These commands are supported:\n/help - show command's list.\n/getcameras - get available cameras.\n/subscribe - subscribe to camera id. params camera_id\n/unsubscribe - unsubscribe from camera id. params: camera_id\n/getsnapshot - get snapshot of camera id. params: camera_id\n/setpollingtime - set polling time.\n/fixsnapshot - fix snapshot uri camera id. params: camera_id"@
}

/// Whether this conversation is on the allow-list; a violation is reported
/// by the caller, which logs it without blocking execution.
pub fn is_allowed_chat(allowed: &Vec<String>, chat_id: ChatId) -> (r: bool)
    ensures
        r == exists|i: int| 0 <= i < allowed@.len() && allowed@[i]@ == dec_of_int(chat_id as int),
{
    let rendered = i64_to_string(chat_id);
    let mut i: usize = 0;
    while i < allowed.len()
        invariant
            i <= allowed@.len(),
            rendered@ == dec_of_int(chat_id as int),
            forall|k: int| 0 <= k < i ==> allowed@[k]@ != dec_of_int(chat_id as int),
        decreases allowed.len() - i,
    {
        if str_eq(allowed[i].as_str(), rendered.as_str()) {
            return true;
        }
        i += 1;
    }
    false
}

/// Whether the device already has a user of this name.
pub fn user_exists(users: &Vec<String>, name: &str) -> (r: bool)
    ensures
        r == exists|i: int| 0 <= i < users@.len() && users@[i]@ == name@,
{
    let mut i: usize = 0;
    while i < users.len()
        invariant
            i <= users@.len(),
            forall|k: int| 0 <= k < i ==> users@[k]@ != name@,
        decreases users.len() - i,
    {
        if str_eq(users[i].as_str(), name) {
            return true;
        }
        i += 1;
    }
    false
}

/// The user-facing descriptions of every catalogue camera, in order.
pub fn camera_list_texts(repo: &MemoryRepository) -> (r: Vec<String>)
    ensures
        r@.len() == repo@.cameras.len(),
        forall|k: int|
            0 <= k < r@.len() ==> r@[k]@ == crate::registry::describe_spec(repo@.cameras[k]),
{
    let mut out: Vec<String> = Vec::new();
    let mut i: usize = 0;
    while i < repo.cameras.len()
        invariant
            i <= repo@.cameras.len(),
            repo@.cameras.len() == repo.cameras.len(),
            out@.len() == i,
            forall|k: int|
                0 <= k < i ==> out@[k]@ == crate::registry::describe_spec(repo@.cameras[k]),
        decreases repo.cameras.len() - i,
    {
        let text = repo.cameras[i].describe();
        proof {
            assert(repo@.cameras[i as int] == repo.cameras@[i as int]@);
        }
        out.push(text);
        i += 1;
    }
    out
}

/// Rewrites a camera's snapshot locator to the fallback credentials and
/// stores the result in the catalogue (in memory only); the fixed locator
/// is returned so the caller can report it.
pub fn fix_snapshot_uri(repo: &mut MemoryRepository, camera: &Camera) -> (r: Result<String, String>)
    requires
        old(repo)@.wf(),
    ensures
        final(repo)@.wf(),
        match camera@.snapshot_uri {
            None => r matches Err(m) && m@ == "camera "@ + camera@.name
                + " doesnt have snapshot uri"@ && final(repo)@ == old(repo)@,
            Some(u) => match replaced_uri(u, "oet1"@, "oet12345"@) {
                None => r matches Err(m) && m@ == "cannot fix snapshot uri of camera "@
                    + camera@.name && final(repo)@ == old(repo)@,
                Some(f) => r matches Ok(s) && s@ == f && (match set_snapshot_spec(
                    old(repo)@.cameras,
                    camera@.id,
                    f,
                ) {
                    Ok(cams) => final(repo)@ == (RepositoryView { cameras: cams, ..old(repo)@ }),
                    Err(_) => final(repo)@ == old(repo)@,
                }),
            },
        },
{
    let uri = match &camera.snapshot_uri {
        Some(u) => u,
        None => {
            let mut m = String::from_str("camera ");
            m.append(camera.name.as_str());
            m.append(" doesnt have snapshot uri");
            proof {
                assert(m@ =~= "camera "@ + camera@.name + " doesnt have snapshot uri"@);
            }
            return Err(m);
        },
    };
    let fixed = match replace_snapshot_uri_credentials(
        uri.as_str(),
        default_username(),
        default_password(),
    ) {
        Some(f) => f,
        None => {
            let mut m = String::from_str("cannot fix snapshot uri of camera ");
            m.append(camera.name.as_str());
            proof {
                assert(m@ =~= "cannot fix snapshot uri of camera "@ + camera@.name);
            }
            return Err(m);
        },
    };
    let _ = repo.update_camera_snapshot_uri(camera.id, fixed.as_str());
    Ok(fixed)
}

/// Maps one command to its registry call and the caller's next step. The
/// catalogue changes exactly as the command demands: subscribing and
/// unsubscribing write through to the store, every other command leaves the
/// repository as it was except the polling interval update.
pub fn command_handler(repo: &mut MemoryRepository, chat_id: ChatId, cmd: &Command) -> (r:
    CommandAction)
    requires
        old(repo)@.wf(),
        old(repo)@.store.next_subscription_id < i64::MAX,
    ensures
        final(repo)@.wf(),
        match *cmd {
            Command::Help => final(repo)@ == old(repo)@ && r@ == (CommandActionView::Reply {
                text: help_text_of(),
            }),
            Command::GetCameras => final(repo)@ == old(repo)@ && r@ == CommandActionView::Discover,
            Command::Subscribe(id) => r@ == (CommandActionView::Reply {
                text: subscribe_reply(old(repo)@.cameras, id, chat_id),
            }) && (match subscribe_spec(old(repo)@.cameras, id, chat_id) {
                Ok(cams) => final(repo)@ == (RepositoryView {
                    cameras: cams,
                    store: if !old(repo)@.store.has_pair(id, chat_id) {
                        old(repo)@.store.with_pair(id, chat_id)
                    } else {
                        old(repo)@.store
                    },
                    ..old(repo)@
                }),
                Err(_) => final(repo)@ == old(repo)@,
            }),
            Command::Unsubscribe(id) => r@ == (CommandActionView::Reply {
                text: unsubscribe_reply(old(repo)@.cameras, id, chat_id),
            }) && (match unsubscribe_spec(old(repo)@.cameras, id, chat_id) {
                Ok(cams) => final(repo)@ == (RepositoryView {
                    cameras: cams,
                    store: old(repo)@.store.without_pair(id, chat_id),
                    ..old(repo)@
                }),
                Err(_) => final(repo)@ == old(repo)@,
            }),
            Command::GetSnapshot(id) => final(repo)@ == old(repo)@ && r@ == (match find_camera(
                old(repo)@.cameras,
                id,
            ) {
                None => CommandActionView::Reply { text: cannot_find_msg(id) },
                Some(cam) => match cam.snapshot_uri {
                    Some(u) => CommandActionView::SendSnapshot {
                        camera_name: cam.name,
                        snapshot_uri: u,
                    },
                    None => CommandActionView::Reply { text: no_snapshot_url_msg(cam.name) },
                },
            }),
            Command::SetPollingTime(seconds) => final(repo)@ == (RepositoryView {
                polling_seconds: seconds,
                ..old(repo)@
            }) && r@ == (CommandActionView::Reply { text: "Polling time updated successfully"@ }),
            Command::FixSnapshot(id) => final(repo)@ == old(repo)@ && r@ == (match find_camera(
                old(repo)@.cameras,
                id,
            ) {
                None => CommandActionView::Reply { text: cannot_find_msg(id) },
                Some(cam) => CommandActionView::CheckUsers {
                    camera_id: id,
                    camera_uri: cam.client.uri,
                },
            }),
        },
{
    match cmd {
        Command::Help => {
            CommandAction::Reply {
                text: String::from_str(
                    "These commands are supported:\n/help - show command's list.\n/getcameras - get available cameras.\n/subscribe - subscribe to camera id. params camera_id\n/unsubscribe - unsubscribe from camera id. params: camera_id\n/getsnapshot - get snapshot of camera id. params: camera_id\n/setpollingtime - set polling time.\n/fixsnapshot - fix snapshot uri camera id. params: camera_id",
                ),
            }
        },
        Command::GetCameras => CommandAction::Discover,
        Command::Subscribe(id) => {
            let text = match repo.subscribe_to_camera(*id, chat_id, true) {
                Ok(_) => String::from_str("Subscribed successfully"),
                Err(RegistryError::NotFound) => {
                    let mut m = String::from_str("camera ");
                    m.append(i64_to_string(*id).as_str());
                    m.append(" not found");
                    proof {
                        assert(m@ =~= not_found_msg(*id));
                    }
                    m
                },
                Err(RegistryError::Conflict) => String::from_str(
                    "already subscribed to this camera",
                ),
            };
            CommandAction::Reply { text }
        },
        Command::Unsubscribe(id) => {
            let text = match repo.unsubscribe_from_camera(*id, chat_id, true) {
                Ok(_) => String::from_str("Unsubscribed successfully"),
                Err(RegistryError::NotFound) => {
                    let mut m = String::from_str("camera ");
                    m.append(i64_to_string(*id).as_str());
                    m.append(" not found");
                    proof {
                        assert(m@ =~= not_found_msg(*id));
                    }
                    m
                },
                Err(RegistryError::Conflict) => String::from_str("not subscribed to this camera"),
            };
            CommandAction::Reply { text }
        },
        Command::GetSnapshot(id) => {
            match repo.get_camera(*id) {
                None => {
                    let mut m = String::from_str("cannot find camera with id: ");
                    m.append(i64_to_string(*id).as_str());
                    proof {
                        assert(m@ =~= cannot_find_msg(*id));
                    }
                    CommandAction::Reply { text: m }
                },
                Some(camera) => {
                    match camera.snapshot_uri {
                        Some(u) => CommandAction::SendSnapshot {
                            camera_name: camera.name,
                            snapshot_uri: u,
                        },
                        None => {
                            let mut m = String::from_str("no snapshot url specified for camera ");
                            m.append(camera.name.as_str());
                            proof {
                                assert(m@ =~= no_snapshot_url_msg(camera.name@));
                            }
                            CommandAction::Reply { text: m }
                        },
                    }
                },
            }
        },
        Command::SetPollingTime(seconds) => {
            repo.set_polling_seconds(*seconds);
            CommandAction::Reply { text: String::from_str("Polling time updated successfully") }
        },
        Command::FixSnapshot(id) => {
            match repo.get_camera(*id) {
                None => {
                    let mut m = String::from_str("cannot find camera with id: ");
                    m.append(i64_to_string(*id).as_str());
                    proof {
                        assert(m@ =~= cannot_find_msg(*id));
                    }
                    CommandAction::Reply { text: m }
                },
                Some(camera) => CommandAction::CheckUsers {
                    camera_id: *id,
                    camera_uri: camera.client.uri,
                },
            }
        },
    }
}

} // verus!
