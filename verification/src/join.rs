use vstd::prelude::*;

use crate::botgram::{citizen_conn, citizen_connection};
use crate::client::{base_of, citizen_id_of, ClientInfo, ConnectedClient, Player};
use crate::contact_request::client_citizen;
use crate::db::DatabaseResult;
use crate::reason::ReasonCode;

verus! {

/// The reason code that stands for success in packets.
pub const SUCCESS_CODE: i32 = 0;

/// The first step of a join request.
#[derive(Debug, PartialEq, Eq, Structural)]
pub enum JoinStep {
    /// Send nothing.
    Ignore,
    /// Answer the requester with this code.
    Refuse(ReasonCode),
    /// Ask whether citizen `target` lets citizen `source` join and see its status;
    /// `target_cid` is the target's connection.
    AskContact { source: u32, target: u32, target_cid: u64 },
}

/// Decides the first step of a request to join another citizen: the requester must
/// be logged in as a citizen and name a target, which must be online.
pub fn join_start(
    client: &Option<ClientInfo>,
    target_id: Option<u32>,
    conns: &Vec<ConnectedClient>,
) -> (r: JoinStep)
    ensures
        client_citizen(*client) is None || target_id is None ==> r == JoinStep::Ignore,
        client_citizen(*client) is Some && target_id is Some && citizen_conn(conns@, target_id->0)
            is None ==> r == JoinStep::Refuse(ReasonCode::NotLoggedIn),
        client_citizen(*client) is Some && target_id is Some && citizen_conn(conns@, target_id->0)
            is Some ==> r == (JoinStep::AskContact {
            source: client_citizen(*client)->0,
            target: target_id->0,
            target_cid: citizen_conn(conns@, target_id->0)->0,
        }),
{
    let source = match client {
        Some(c) => match c.citizen_id() {
            Some(id) => id,
            None => return JoinStep::Ignore,
        },
        None => return JoinStep::Ignore,
    };
    let target = match target_id {
        Some(t) => t,
        None => return JoinStep::Ignore,
    };
    match citizen_connection(conns, target) {
        Some(target_cid) => JoinStep::AskContact { source, target, target_cid },
        None => JoinStep::Refuse(ReasonCode::NotLoggedIn),
    }
}

/// Decides a join request from the target's contact options towards the requester,
/// read in this order: joins, then status. `Ok` means the request is passed on to the
/// target. A target that hides its status looks offline.
pub fn join_request(
    joins_allowed: DatabaseResult<bool>,
    status_allowed: DatabaseResult<bool>,
) -> (r: Result<(), ReasonCode>)
    ensures
        joins_allowed is DatabaseError ==> r == Err::<(), ReasonCode>(ReasonCode::DatabaseError),
        joins_allowed is Success && status_allowed is DatabaseError ==> r == Err::<(), ReasonCode>(
            ReasonCode::DatabaseError,
        ),
        (joins_allowed matches DatabaseResult::Success(false)) && status_allowed is Success ==> r
            == Err::<(), ReasonCode>(ReasonCode::JoinRefused),
        (joins_allowed matches DatabaseResult::Success(true)) && (status_allowed matches DatabaseResult::Success(false))
            ==> r == Err::<(), ReasonCode>(ReasonCode::NotLoggedIn),
        (joins_allowed matches DatabaseResult::Success(true)) && (status_allowed matches DatabaseResult::Success(true))
            ==> r is Ok,
{
    let they_allow_joins = match joins_allowed {
        DatabaseResult::Success(a) => a,
        DatabaseResult::DatabaseError => return Err(ReasonCode::DatabaseError),
    };
    let they_allow_status = match status_allowed {
        DatabaseResult::Success(a) => a,
        DatabaseResult::DatabaseError => return Err(ReasonCode::DatabaseError),
    };
    join(they_allow_joins, they_allow_status)
}

/// Decides a join from whether the target lets the requester join and see its
/// status: a refused join is refused, a hidden status looks offline.
pub fn join(joins_allowed: bool, status_allowed: bool) -> (r: Result<(), ReasonCode>)
    ensures
        !joins_allowed ==> r == Err::<(), ReasonCode>(ReasonCode::JoinRefused),
        joins_allowed && !status_allowed ==> r == Err::<(), ReasonCode>(ReasonCode::NotLoggedIn),
        joins_allowed && status_allowed ==> r is Ok,
{
    if joins_allowed {
        if status_allowed {
            Ok(())
        } else {
            Err(ReasonCode::NotLoggedIn)
        }
    } else {
        Err(ReasonCode::JoinRefused)
    }
}

/// The requester as a passed-on join request names it: citizen number and name.
pub fn send_join_request(client: &Option<ClientInfo>) -> (r: Option<(u32, String)>)
    ensures
        client_citizen(*client) is None ==> r is None,
        client_citizen(*client) is Some ==> (r matches Some((id, name)) && Some(id)
            == client_citizen(*client) && (*client matches Some(ClientInfo::Player(p)) && name
            == base_of(p).username)),
{
    match client {
        Some(c) => {
            let username = match c.player_info() {
                Some(g) => g.username.clone(),
                None => return None,
            };
            match c.citizen_id() {
                Some(id) => Some((id, username)),
                None => None,
            }
        },
        None => None,
    }
}

/// Where a requester who was let in is to go.
#[derive(Debug)]
pub struct JoinLocation {
    pub world: String,
    pub north: i32,
    pub height: i32,
    pub west: i32,
    pub rotation: i32,
}

/// The answer passed on to the citizen who asked to join.
#[derive(Debug)]
pub struct JoinReplyForward {
    /// The connection of the citizen who asked.
    pub target_cid: u64,
    /// The citizen who answers.
    pub citizen_number: u32,
    /// Where to go, when the answer is a success.
    pub location: Option<JoinLocation>,
    pub reason_code: i32,
}

/// Passes on a citizen's answer to a join request, to the citizen it names, if that
/// one is online; a successful answer must say where to go. `None` sends nothing.
pub fn join_reply(
    client: &Option<ClientInfo>,
    citizen_id: Option<u32>,
    reason_code: Option<i32>,
    location: Option<JoinLocation>,
    conns: &Vec<ConnectedClient>,
) -> (r: Option<JoinReplyForward>)
    ensures
        (client_citizen(*client) is Some && citizen_id is Some && reason_code is Some
            && citizen_conn(conns@, citizen_id->0) is Some && (reason_code->0 == SUCCESS_CODE
            ==> location is Some)) <==> r is Some,
        r matches Some(f) ==> f.target_cid == citizen_conn(conns@, citizen_id->0)->0
            && Some(f.citizen_number) == client_citizen(*client) && f.reason_code
            == reason_code->0 && (if f.reason_code == SUCCESS_CODE {
            f.location == location
        } else {
            f.location is None
        }),
{
    let source_citizen_id = match client {
        Some(ClientInfo::Player(Player::Citizen(cit))) => cit.cit_id,
        _ => return None,
    };
    let citizen_id = match citizen_id {
        Some(id) => id,
        None => return None,
    };
    let reason_code = match reason_code {
        Some(rc) => rc,
        None => return None,
    };
    let target_cid = match citizen_connection(conns, citizen_id) {
        Some(t) => t,
        None => return None,
    };
    let location = if reason_code == SUCCESS_CODE {
        match location {
            Some(l) => Some(l),
            None => return None,
        }
    } else {
        None
    };
    Some(JoinReplyForward { target_cid, citizen_number: source_citizen_id, location, reason_code })
}

} // verus!
