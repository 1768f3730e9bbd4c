use vstd::prelude::*;

use crate::json::{Json, obj_get, parse_u64, spec_lookup, spec_parse_u64, str_eq};

verus! {

/// A user's online status, spelled on the wire as one of `"online"`, `"dnd"`,
/// `"idle"`, `"invisible"` and `"offline"`.
#[derive(Clone, Copy, Debug, Hash, PartialEq, Eq, Structural)]
pub enum Status {
    Online,
    DoNotDisturb,
    Idle,
    Invisible,
    Offline,
}

impl Status {
    /// The status a wire spelling stands for, if any.
    pub open spec fn spec_from_wire(s: Seq<char>) -> Option<Status> {
        if s == "online"@ {
            Some(Status::Online)
        } else if s == "dnd"@ {
            Some(Status::DoNotDisturb)
        } else if s == "idle"@ {
            Some(Status::Idle)
        } else if s == "invisible"@ {
            Some(Status::Invisible)
        } else if s == "offline"@ {
            Some(Status::Offline)
        } else {
            None
        }
    }

    /// Match a wire spelling to a status, rejecting anything else.
    pub fn from_wire(s: &str) -> (r: Option<Status>)
        ensures
            r == Status::spec_from_wire(s@),
    {
        if str_eq(s, "online") {
            Some(Status::Online)
        } else if str_eq(s, "dnd") {
            Some(Status::DoNotDisturb)
        } else if str_eq(s, "idle") {
            Some(Status::Idle)
        } else if str_eq(s, "invisible") {
            Some(Status::Invisible)
        } else if str_eq(s, "offline") {
            Some(Status::Offline)
        } else {
            None
        }
    }
}

/// A user's status on each of the platforms it may be connected through.
#[derive(Clone, Copy, Debug, Hash, PartialEq, Eq)]
pub struct ClientStatus {
    pub desktop: Option<Status>,
    pub mobile: Option<Status>,
    pub web: Option<Status>,
}

/// One activity out of a presence's activity list; the decoder keeps the
/// activity's name and its wire type code.
#[derive(Clone, Debug, Hash, PartialEq, Eq)]
pub struct Activity {
    pub name: String,
    pub kind: u8,
}

/// The user a presence belongs to: either just an id, or a user object of
/// which the decoder keeps the id and the username.
#[derive(Clone, Debug, Hash, PartialEq, Eq)]
pub enum UserOrId {
    UserId(u64),
    User { id: u64, username: String },
}

/// User's presence was updated. This may be received when a user's activity,
/// status, or user information is updated.
#[derive(Clone, Debug, Hash, PartialEq, Eq)]
pub struct PresenceUpdate {
    pub activities: Vec<Activity>,
    pub client_status: ClientStatus,
    pub status: Status,
    pub user: UserOrId,
}

/// The id a JSON value stands for: a number, or a decimal text.
pub open spec fn spec_id(j: Json) -> Option<u64> {
    match j {
        Json::UInt(v) => Some(v),
        Json::Str(s) => spec_parse_u64(s@),
        _ => None,
    }
}

/// The user of a presence: an object whose `id` is an id, taken alone unless a
/// `username` text stands beside it.
pub open spec fn spec_user(j: Json) -> Option<UserOrId> {
    match j {
        Json::Obj(fields) => match spec_lookup(fields@, "id"@) {
            Some(idj) => match spec_id(idj) {
                Some(id) => match spec_lookup(fields@, "username"@) {
                    None => Some(UserOrId::UserId(id)),
                    Some(Json::Str(name)) => Some(UserOrId::User { id, username: name }),
                    Some(_) => None,
                },
                None => None,
            },
            None => None,
        },
        _ => None,
    }
}

/// One platform entry of a `client_status` object: absent, or a status text.
/// The outer `None` marks a malformed entry.
pub open spec fn spec_status_entry(fields: Seq<(String, Json)>, key: Seq<char>) -> Option<
    Option<Status>,
> {
    match spec_lookup(fields, key) {
        None => Some(None),
        Some(Json::Str(s)) => match Status::spec_from_wire(s@) {
            Some(st) => Some(Some(st)),
            None => None,
        },
        Some(_) => None,
    }
}

/// The platform statuses a `client_status` object stands for.
pub open spec fn spec_client_status(j: Json) -> Option<ClientStatus> {
    match j {
        Json::Obj(fields) => match (
            spec_status_entry(fields@, "desktop"@),
            spec_status_entry(fields@, "mobile"@),
            spec_status_entry(fields@, "web"@),
        ) {
            (Some(d), Some(m), Some(w)) => Some(ClientStatus { desktop: d, mobile: m, web: w }),
            _ => None,
        },
        _ => None,
    }
}

/// The activity an object stands for: a `name` text and a `type` code that
/// fits a byte.
pub open spec fn spec_activity(j: Json) -> Option<Activity> {
    match j {
        Json::Obj(fields) => match (
            spec_lookup(fields@, "name"@),
            spec_lookup(fields@, "type"@),
        ) {
            (Some(Json::Str(name)), Some(Json::UInt(kind))) => if kind <= 255 {
                Some(Activity { name, kind: kind as u8 })
            } else {
                None
            },
            _ => None,
        },
        _ => None,
    }
}

/// The activities a JSON array stands for: every element must be an activity.
pub open spec fn spec_activities(items: Seq<Json>) -> Option<Seq<Activity>> {
    if forall|i: int| 0 <= i < items.len() ==> (#[trigger] spec_activity(items[i])) is Some {
        Some(Seq::new(items.len(), |i: int| spec_activity(items[i])->Some_0))
    } else {
        None
    }
}

/// What a presence payload stands for, field by field: the activity list
/// (empty when absent), the per-platform statuses, the user's status, and the
/// user. `None` on any structural mismatch.
pub open spec fn spec_presence(j: Json) -> Option<(Seq<Activity>, ClientStatus, Status, UserOrId)> {
    match j {
        Json::Obj(fields) => {
            let acts = match spec_lookup(fields@, "activities"@) {
                None => Some(Seq::<Activity>::empty()),
                Some(Json::Arr(items)) => spec_activities(items@),
                Some(_) => None,
            };
            let cs = match spec_lookup(fields@, "client_status"@) {
                Some(c) => spec_client_status(c),
                None => None,
            };
            let st = match spec_lookup(fields@, "status"@) {
                Some(Json::Str(s)) => Status::spec_from_wire(s@),
                _ => None,
            };
            let us = match spec_lookup(fields@, "user"@) {
                Some(u) => spec_user(u),
                None => None,
            };
            match (acts, cs, st, us) {
                (Some(a), Some(c), Some(s), Some(u)) => Some((a, c, s, u)),
                _ => None,
            }
        },
        _ => None,
    }
}

/// Whether a decoded presence value is exactly what the payload stands for.
pub open spec fn spec_presence_matches(j: Json, p: PresenceUpdate) -> bool {
    spec_presence(j) matches Some(t) && p.activities@ == t.0 && p.client_status == t.1 && p.status
        == t.2 && p.user == t.3
}

fn id_from_json(j: &Json) -> (r: Option<u64>)
    ensures
        r == spec_id(*j),
{
    match j {
        Json::UInt(v) => Some(*v),
        Json::Str(s) => parse_u64(s.as_str()),
        _ => None,
    }
}

fn user_from_json(j: &Json) -> (r: Option<UserOrId>)
    ensures
        r == spec_user(*j),
{
    match j {
        Json::Obj(fields) => match obj_get(fields, "id") {
            Some(idj) => match id_from_json(idj) {
                Some(id) => match obj_get(fields, "username") {
                    None => Some(UserOrId::UserId(id)),
                    Some(Json::Str(name)) => Some(
                        UserOrId::User { id, username: name.clone() },
                    ),
                    Some(_) => None,
                },
                None => None,
            },
            None => None,
        },
        _ => None,
    }
}

fn status_entry(fields: &Vec<(String, Json)>, key: &str) -> (r: Option<Option<Status>>)
    ensures
        r == spec_status_entry(fields@, key@),
{
    match obj_get(fields, key) {
        None => Some(None),
        Some(Json::Str(s)) => match Status::from_wire(s.as_str()) {
            Some(st) => Some(Some(st)),
            None => None,
        },
        Some(_) => None,
    }
}

fn client_status_from_json(j: &Json) -> (r: Option<ClientStatus>)
    ensures
        r == spec_client_status(*j),
{
    match j {
        Json::Obj(fields) => {
            let desktop = status_entry(fields, "desktop");
            let mobile = status_entry(fields, "mobile");
            let web = status_entry(fields, "web");
            match (desktop, mobile, web) {
                (Some(d), Some(m), Some(w)) => Some(ClientStatus { desktop: d, mobile: m, web: w }),
                _ => None,
            }
        },
        _ => None,
    }
}

fn activity_from_json(j: &Json) -> (r: Option<Activity>)
    ensures
        r == spec_activity(*j),
{
    match j {
        Json::Obj(fields) => {
            let name = obj_get(fields, "name");
            let kind = obj_get(fields, "type");
            match (name, kind) {
                (Some(Json::Str(name)), Some(Json::UInt(kind))) => if *kind <= 255 {
                    Some(Activity { name: name.clone(), kind: *kind as u8 })
                } else {
                    None
                },
                _ => None,
            }
        },
        _ => None,
    }
}

fn activities_from_json(items: &Vec<Json>) -> (r: Option<Vec<Activity>>)
    ensures
        match r {
            Some(v) => spec_activities(items@) == Some(v@),
            None => spec_activities(items@) is None,
        },
{
    let mut out: Vec<Activity> = Vec::new();
    let mut i: usize = 0;
    while i < items.len()
        invariant
            0 <= i <= items@.len(),
            out@.len() == i,
            forall|k: int|
                0 <= k < i ==> (#[trigger] spec_activity(items@[k])) == Some(out@[k]),
        decreases items@.len() - i,
    {
        match activity_from_json(&items[i]) {
            Some(a) => {
                out.push(a);
            },
            None => {
                assert(spec_activity(items@[i as int]) is None);
                return None;
            },
        }
        i += 1;
    }
    proof {
        let s = spec_activities(items@)->Some_0;
        assert(out@ =~= s);
    }
    Some(out)
}

/// Decode a presence payload into its typed form: `Some` exactly when the
/// payload has the presence shape, and then every field is what the payload
/// stands for.
pub fn presence_from_json(j: &Json) -> (r: Option<PresenceUpdate>)
    ensures
        match r {
            Some(p) => spec_presence_matches(*j, p),
            None => spec_presence(*j) is None,
        },
{
    match j {
        Json::Obj(fields) => {
            let activities: Option<Vec<Activity>> = match obj_get(fields, "activities") {
                None => Some(Vec::new()),
                Some(Json::Arr(items)) => activities_from_json(items),
                Some(_) => None,
            };
            let client_status = match obj_get(fields, "client_status") {
                Some(c) => client_status_from_json(c),
                None => None,
            };
            let status = match obj_get(fields, "status") {
                Some(Json::Str(s)) => Status::from_wire(s.as_str()),
                _ => None,
            };
            let user = match obj_get(fields, "user") {
                Some(u) => user_from_json(u),
                None => None,
            };
            match (activities, client_status, status, user) {
                (Some(a), Some(c), Some(s), Some(u)) => {
                    proof {
                        if spec_lookup(fields@, "activities"@) is None {
                            assert(a@ =~= Seq::<Activity>::empty());
                        }
                    }
                    Some(PresenceUpdate { activities: a, client_status: c, status: s, user: u })
                },
                _ => None,
            }
        },
        _ => None,
    }
}

} // verus!
