use vstd::prelude::*;

use crate::citizen::CitizenQuery;
use crate::client::{citizen_id_of, ClientInfo, Player};
use crate::contact::{
    applied_options, has_flags, ContactOptions, ContactQuery, ALL_BLOCKED, CONTACT_OPTIONS_ALL,
    FRIEND_REQUEST_ALLOWED, FRIEND_REQUEST_BLOCKED,
};
use crate::db::DatabaseResult;
use crate::reason::ReasonCode;
use crate::telegram::{friend_request_message, friend_request_text};

verus! {

/// The citizen number of a client logged in as a citizen.
pub open spec fn client_citizen(client: Option<ClientInfo>) -> Option<u32> {
    match client {
        Some(c) => citizen_id_of(c),
        None => None,
    }
}

fn citizen_of(client: &Option<ClientInfo>) -> (r: Option<u32>)
    ensures
        r == client_citizen(*client),
{
    match client {
        Some(c) => c.citizen_id(),
        None => None,
    }
}

/// Which variable a contact add request lacks.
#[derive(Clone, Copy, Debug, PartialEq, Eq, Structural)]
pub enum ContactAddParamsError {
    ContactName,
    ContactOptions,
}

/// What a contact add request carries: the name of the citizen to add and the
/// options towards it (unknown option bits dropped).
#[derive(Debug)]
pub struct ContactAddParams {
    pub contact_name: String,
    pub contact_options: ContactOptions,
}

impl ContactAddParams {
    /// The request built from the packet's variables.
    pub fn try_from(name: Option<String>, options: Option<u32>) -> (r: Result<
        ContactAddParams,
        ContactAddParamsError,
    >)
        ensures
            name is None ==> r == Err::<ContactAddParams, ContactAddParamsError>(
                ContactAddParamsError::ContactName,
            ),
            name is Some && options is None ==> r == Err::<ContactAddParams, ContactAddParamsError>(
                ContactAddParamsError::ContactOptions,
            ),
            name is Some && options is Some ==> (r matches Ok(p) && Some(p.contact_name) == name
                && p.contact_options@ == options->0 & CONTACT_OPTIONS_ALL),
    {
        let contact_name = match name {
            Some(n) => n,
            None => return Err(ContactAddParamsError::ContactName),
        };
        let contact_options = match options {
            Some(o) => ContactOptions::from_bits_truncate(o),
            None => return Err(ContactAddParamsError::ContactOptions),
        };
        Ok(ContactAddParams { contact_name, contact_options })
    }
}

/// The first step of a contact add: only a client logged in as a citizen may add
/// contacts.
pub fn contact_add_citizen(client: &Option<ClientInfo>) -> (r: Result<u32, ReasonCode>)
    ensures
        client_citizen(*client) matches Some(id) ==> r == Ok::<u32, ReasonCode>(id),
        client_citizen(*client) is None ==> r == Err::<u32, ReasonCode>(ReasonCode::NotLoggedIn),
{
    match citizen_of(client) {
        Some(id) => Ok(id),
        None => Err(ReasonCode::NotLoggedIn),
    }
}

/// The second step: the citizen to add, from the lookup of its name.
pub fn contact_add_target(found: &DatabaseResult<Option<CitizenQuery>>) -> (r: Result<u32, ReasonCode>)
    ensures
        found matches DatabaseResult::Success(Some(c)) ==> r == Ok::<u32, ReasonCode>(c.id),
        found matches DatabaseResult::Success(None) ==> r == Err::<u32, ReasonCode>(
            ReasonCode::NoSuchCitizen,
        ),
        found is DatabaseError ==> r == Err::<u32, ReasonCode>(ReasonCode::DatabaseError),
{
    match found {
        DatabaseResult::Success(Some(c)) => Ok(c.id),
        DatabaseResult::Success(None) => Err(ReasonCode::NoSuchCitizen),
        DatabaseResult::DatabaseError => Err(ReasonCode::DatabaseError),
    }
}

/// The answer to a contact add once the target is known, from whether the target
/// blocked the adding citizen and the lookups of each one's entry for the other, in
/// the order the checks are made.
pub open spec fn contact_add_error(
    options: u32,
    blocked: DatabaseResult<bool>,
    source_has: DatabaseResult<Option<ContactQuery>>,
    target_has: DatabaseResult<Option<ContactQuery>>,
) -> Option<ReasonCode> {
    match blocked {
        DatabaseResult::DatabaseError => Some(ReasonCode::DatabaseError),
        DatabaseResult::Success(b) => if b && !has_flags(options, 0x8000) {
            Some(ReasonCode::ContactAddBlocked)
        } else {
            match (source_has, target_has) {
                (DatabaseResult::DatabaseError, _) => Some(ReasonCode::DatabaseError),
                (_, DatabaseResult::DatabaseError) => Some(ReasonCode::DatabaseError),
                (DatabaseResult::Success(s), DatabaseResult::Success(t)) => if s is Some && t is Some {
                    Some(ReasonCode::UnableToSetContact)
                } else {
                    None
                },
            }
        },
    }
}

/// The options a contact request is stored with: the requested ones with friend
/// requests blocked and not allowed, which marks the request as pending.
pub open spec fn pending_options(requested: u32) -> u32 {
    (requested & !0x1000u32) | 0x2000u32
}

/// Whether a stored contact request can be answered: not blocked altogether, and
/// the `FRIEND_REQUEST_ALLOWED` bit not set.
pub open spec fn request_answerable(options: u32) -> bool {
    !has_flags(options, 0x8000) && !has_flags(options, 0x1000)
}

/// Decides a contact add once the target is known: a citizen who blocked the adder
/// can only be added as blocked, and two citizens that are each other's contacts
/// already cannot be added again. On success the options to store are the
/// requested ones with friend requests blocked, which marks the request as pending.
pub fn try_add_contact(
    params: &ContactAddParams,
    blocked: DatabaseResult<bool>,
    source_has: DatabaseResult<Option<ContactQuery>>,
    target_has: DatabaseResult<Option<ContactQuery>>,
) -> (r: Result<ContactOptions, ReasonCode>)
    ensures
        contact_add_error(params.contact_options@, blocked, source_has, target_has) matches Some(
            e,
        ) ==> r == Err::<ContactOptions, ReasonCode>(e),
        contact_add_error(params.contact_options@, blocked, source_has, target_has) is None ==> (r matches Ok(o)
            && o@ == pending_options(params.contact_options@)),
        blocked is Success && (!blocked->0 || has_flags(params.contact_options@, 0x8000))
            && source_has is Success && target_has is Success ==> (if source_has->0 is Some
            && target_has->0 is Some {
            r == Err::<ContactOptions, ReasonCode>(ReasonCode::UnableToSetContact)
        } else {
            r matches Ok(o) && o@ == pending_options(params.contact_options@)
        }),
{
    let other_has_blocked_you = match blocked {
        DatabaseResult::Success(b) => b,
        DatabaseResult::DatabaseError => return Err(ReasonCode::DatabaseError),
    };
    if other_has_blocked_you && !params.contact_options.contains(ALL_BLOCKED) {
        return Err(ReasonCode::ContactAddBlocked);
    }
    let source_has_contact = match source_has {
        DatabaseResult::Success(q) => q.is_some(),
        DatabaseResult::DatabaseError => return Err(ReasonCode::DatabaseError),
    };
    let target_has_contact = match target_has {
        DatabaseResult::Success(q) => q.is_some(),
        DatabaseResult::DatabaseError => return Err(ReasonCode::DatabaseError),
    };
    if source_has_contact && target_has_contact {
        return Err(ReasonCode::UnableToSetContact);
    }
    let mut options = params.contact_options;
    options.remove(FRIEND_REQUEST_ALLOWED);
    options.insert(FRIEND_REQUEST_BLOCKED);
    Ok(options)
}

/// The outcome of a write to the database.
pub fn stored(r: &DatabaseResult<()>) -> (s: Result<(), ReasonCode>)
    ensures
        r is Success ==> s is Ok,
        r is DatabaseError ==> s == Err::<(), ReasonCode>(ReasonCode::DatabaseError),
{
    match r {
        DatabaseResult::Success(_) => Ok(()),
        DatabaseResult::DatabaseError => Err(ReasonCode::DatabaseError),
    }
}

/// A telegram to store.
#[derive(Debug)]
pub struct NewTelegram {
    pub citizen: u32,
    pub from: u32,
    pub timestamp: u32,
    pub message: String,
}

/// The telegram that tells citizen `to` of a friend request from citizen `from`, if
/// `from` was found; it carries the sender's number and name.
pub fn alert_friend_request(
    from: u32,
    to: u32,
    now: u32,
    found: &DatabaseResult<Option<CitizenQuery>>,
) -> (r: Option<NewTelegram>)
    ensures
        found matches DatabaseResult::Success(Some(c)) ==> (r matches Some(t) && t.citizen == to
            && t.from == from && t.timestamp == now && t.message@ == friend_request_text(
            from,
            c.name@,
        )),
        !(found matches DatabaseResult::Success(Some(_))) ==> r is None,
{
    match found {
        DatabaseResult::Success(Some(citizen)) => {
            let message = friend_request_message(from, citizen.name.as_str());
            Some(NewTelegram { citizen: to, from, timestamp: now, message })
        },
        _ => None,
    }
}

/// What a contact confirmation does next.
#[derive(Debug, PartialEq, Eq, Structural)]
pub enum ContactConfirmStep {
    /// Answer with this code.
    Done(ReasonCode),
    /// Read the request that `contact` made to `citizen`, then decide.
    ReadRequest { citizen: u32, contact: u32 },
}

/// The first step of a contact confirmation: the client must be a citizen and name
/// the contact; options of -1 (or none) deny the request, which ends it with success.
pub fn contact_confirm_start(
    client: &Option<ClientInfo>,
    contact_id: Option<u32>,
    options_int: Option<i32>,
    options_uint: Option<u32>,
) -> (r: ContactConfirmStep)
    ensures
        client_citizen(*client) is None ==> r == ContactConfirmStep::Done(ReasonCode::NotLoggedIn),
        client_citizen(*client) is Some && contact_id is None ==> r == ContactConfirmStep::Done(
            ReasonCode::NoSuchCitizen,
        ),
        client_citizen(*client) is Some && contact_id is Some && (options_int is None
            || options_int == Some(-1i32)) ==> r == ContactConfirmStep::Done(ReasonCode::Success),
        client_citizen(*client) is Some && contact_id is Some && (options_int matches Some(o)
            && o != -1) && options_uint is None ==> r == ContactConfirmStep::Done(
            ReasonCode::NoSuchCitizen,
        ),
        client_citizen(*client) is Some && contact_id is Some && (options_int matches Some(o) && o
            != -1) && options_uint is Some ==> r == (ContactConfirmStep::ReadRequest {
            citizen: client_citizen(*client)->0,
            contact: contact_id->0,
        }),
{
    let citizen = match citizen_of(client) {
        Some(id) => id,
        None => return ContactConfirmStep::Done(ReasonCode::NotLoggedIn),
    };
    let contact = match contact_id {
        Some(id) => id,
        None => return ContactConfirmStep::Done(ReasonCode::NoSuchCitizen),
    };
    let o = match options_int {
        Some(o) => o,
        None => -1,
    };
    if o == -1 {
        return ContactConfirmStep::Done(ReasonCode::Success);
    }
    if options_uint.is_none() {
        return ContactConfirmStep::Done(ReasonCode::NoSuchCitizen);
    }
    ContactConfirmStep::ReadRequest { citizen, contact }
}

/// Decides a contact confirmation from the request the contact made: there must be
/// one, and its options must let it be answered (not blocked altogether, and the
/// `FRIEND_REQUEST_ALLOWED` bit not set); `Ok` means both
/// citizens are to be stored as each other's contacts with empty options.
pub fn try_contact_confirm(request: &DatabaseResult<Option<ContactQuery>>) -> (r: Result<(), ReasonCode>)
    ensures
        request matches DatabaseResult::Success(Some(q)) ==> (r is Ok <==> request_answerable(
            q.options@,
        )),
        request matches DatabaseResult::Success(Some(_)) && r is Err ==> r == Err::<(), ReasonCode>(
            ReasonCode::UnableToSetContact,
        ),
        request matches DatabaseResult::Success(None) ==> r == Err::<(), ReasonCode>(
            ReasonCode::UnableToSetContact,
        ),
        request is DatabaseError ==> r == Err::<(), ReasonCode>(ReasonCode::DatabaseError),
{
    let target_options = match request {
        DatabaseResult::Success(Some(target)) => target.options,
        DatabaseResult::Success(None) => return Err(ReasonCode::UnableToSetContact),
        DatabaseResult::DatabaseError => return Err(ReasonCode::DatabaseError),
    };
    if !target_options.is_friend_request_allowed() {
        return Err(ReasonCode::UnableToSetContact);
    }
    Ok(())
}

/// The answer once both contacts of a confirmation were written: a failed write (the
/// second is only made after the first succeeded) fails the confirmation.
pub fn contact_pair_stored(first: &DatabaseResult<()>, second: &DatabaseResult<()>) -> (r: ReasonCode)
    ensures
        first is Success && second is Success ==> r == ReasonCode::Success,
        first is DatabaseError || (first is Success && second is DatabaseError) ==> r
            == ReasonCode::UnableToSetContact,
{
    if first.is_err() || second.is_err() {
        ReasonCode::UnableToSetContact
    } else {
        ReasonCode::Success
    }
}

/// The answer to a contact removal: `blocked` says whether the other citizen blocked
/// this one, `forward` is the removal of this citizen's entry (made when `blocked`
/// was read), `reverse` the removal of the other's entry (made only when it did not
/// block this one). A failed read answers with a database error, a failed forward
/// removal with `UnableToSetContact`, a failed reverse removal with a database error.
pub fn contact_delete(
    blocked: &DatabaseResult<bool>,
    forward: &DatabaseResult<()>,
    reverse: &DatabaseResult<()>,
) -> (rc: ReasonCode)
    ensures
        blocked is DatabaseError ==> rc == ReasonCode::DatabaseError,
        *blocked matches DatabaseResult::Success(b) ==> rc == (if !b && reverse is DatabaseError {
            ReasonCode::DatabaseError
        } else if forward is DatabaseError {
            ReasonCode::UnableToSetContact
        } else {
            ReasonCode::Success
        }),
{
    let mut rc = ReasonCode::Success;
    match blocked {
        DatabaseResult::Success(blocked_by_other_person) => {
            if forward.is_err() {
                rc = ReasonCode::UnableToSetContact;
            }
            if !*blocked_by_other_person {
                if reverse.is_err() {
                    rc = ReasonCode::DatabaseError;
                }
            }
        },
        DatabaseResult::DatabaseError => rc = ReasonCode::DatabaseError,
    }
    rc
}

/// Which variable a contact change request lacks or has wrong.
#[derive(Clone, Copy, Debug, PartialEq, Eq, Structural)]
pub enum ContactChangeParamsError {
    ContactCitizenID,
    OptionChanges,
}

/// What a contact change request carries: the contact, and the option changes, which
/// may not hold unknown bits.
#[derive(Debug)]
pub struct ContactChangeParams {
    pub contact_citizen_id: u32,
    pub option_changes: ContactOptions,
}

impl ContactChangeParams {
    /// The request built from the packet's variables.
    pub fn try_from(contact_id: Option<u32>, options: Option<u32>) -> (r: Result<
        ContactChangeParams,
        ContactChangeParamsError,
    >)
        ensures
            contact_id is None ==> r == Err::<ContactChangeParams, ContactChangeParamsError>(
                ContactChangeParamsError::ContactCitizenID,
            ),
            contact_id is Some && !(options matches Some(o) && o & !CONTACT_OPTIONS_ALL == 0) ==> r
                == Err::<ContactChangeParams, ContactChangeParamsError>(
                ContactChangeParamsError::OptionChanges,
            ),
            contact_id is Some && (options matches Some(o) && o & !CONTACT_OPTIONS_ALL == 0) ==> (r matches Ok(
                p,
            ) && Some(p.contact_citizen_id) == contact_id && Some(p.option_changes@) == options),
    {
        let contact_citizen_id = match contact_id {
            Some(id) => id,
            None => return Err(ContactChangeParamsError::ContactCitizenID),
        };
        let option_changes = match options {
            Some(o) => match ContactOptions::from_bits(o) {
                Some(x) => x,
                None => return Err(ContactChangeParamsError::OptionChanges),
            },
            None => return Err(ContactChangeParamsError::OptionChanges),
        };
        Ok(ContactChangeParams { contact_citizen_id, option_changes })
    }
}

/// What a contact change writes.
#[derive(Debug)]
pub struct ContactChange {
    /// The options to store for the pair.
    pub options: ContactOptions,
    /// Whether the contact's own entry for this citizen is to be removed afterwards.
    pub remove_reverse: bool,
}

/// Decides a contact change from the stored options of the pair: missing options
/// count as empty only for the default entry (contact 0); the new options are the
/// stored ones with the changes applied; blocking a contact altogether also removes
/// the contact's entry for this citizen. `None` means nothing is written.
pub fn contact_change(
    params: &ContactChangeParams,
    original: &DatabaseResult<Option<ContactQuery>>,
) -> (r: Option<ContactChange>)
    ensures
        original matches DatabaseResult::Success(Some(q)) ==> (r matches Some(c) && c.options@
            == applied_options(q.options@, params.option_changes@)),
        original matches DatabaseResult::Success(None) && params.contact_citizen_id == 0 ==> (r matches Some(
            c,
        ) && c.options@ == applied_options(0, params.option_changes@)),
        original matches DatabaseResult::Success(None) && params.contact_citizen_id != 0 ==> r is None,
        original is DatabaseError ==> r is None,
        r matches Some(c) ==> c.remove_reverse == has_flags(params.option_changes@, 0x8000),
{
    let original_options = match original {
        DatabaseResult::Success(Some(q)) => q.options,
        DatabaseResult::Success(None) => {
            if params.contact_citizen_id == 0 {
                ContactOptions::empty()
            } else {
                return None;
            }
        },
        DatabaseResult::DatabaseError => return None,
    };
    let options = original_options.apply_changes(params.option_changes);
    let remove_reverse = params.option_changes.contains(ALL_BLOCKED);
    Some(ContactChange { options, remove_reverse })
}

/// Marks a client logged in as a citizen away from keyboard, or back, from the
/// packet's status (nonzero means away). Returns whether anything was set; other
/// clients and packets without the status are left as they are.
pub fn set_afk(client: &mut Option<ClientInfo>, afk_status: Option<u32>) -> (changed: bool)
    ensures
        changed == (client_citizen(*old(client)) is Some && afk_status is Some),
        !changed ==> *final(client) == *old(client),
        changed ==> (*old(client) matches Some(ClientInfo::Player(Player::Citizen(c0)))
            && *final(client) matches Some(ClientInfo::Player(Player::Citizen(c1))) && c1.cit_id
            == c0.cit_id && c1.base_player.afk == (afk_status->0 != 0) && c1.base_player.username
            == c0.base_player.username && c1.base_player.privilege_id
            == c0.base_player.privilege_id && c1.base_player.session_id
            == c0.base_player.session_id && c1.base_player.build_version
            == c0.base_player.build_version && c1.base_player.ip == c0.base_player.ip
            && c1.base_player.serial == c0.base_player.serial && c1.base_player.nonce
            == c0.base_player.nonce),
{
    let status = match afk_status {
        Some(x) => x,
        None => return false,
    };
    match client {
        Some(ClientInfo::Player(Player::Citizen(citizen))) => {
            citizen.base_player.afk = status != 0;
            true
        },
        _ => false,
    }
}

/// A contact request stored by a contact add is pending (friend requests blocked,
/// not allowed), and the added citizen can confirm it exactly when the adding
/// citizen did not block it altogether.
pub proof fn law_added_request_can_be_confirmed(requested: u32)
    ensures
        has_flags(pending_options(requested), 0x2000),
        !has_flags(pending_options(requested), 0x1000),
        request_answerable(pending_options(requested)) == !has_flags(requested, 0x8000),
{
    let o = pending_options(requested);
    assert(o & 0x2000 == 0x2000) by (bit_vector)
        requires
            o == (requested & !0x1000u32) | 0x2000u32,
    ;
    assert(o & 0x1000 != 0x1000) by (bit_vector)
        requires
            o == (requested & !0x1000u32) | 0x2000u32,
    ;
    assert((o & 0x8000 == 0x8000) == (requested & 0x8000 == 0x8000)) by (bit_vector)
        requires
            o == (requested & !0x1000u32) | 0x2000u32,
    ;
}

/// Once the target has not blocked the adding citizen (or the request itself blocks
/// everything) and both lookups succeeded, a contact add is refused as
/// `UnableToSetContact` exactly when each already has an entry for the other; when
/// either entry is missing the request goes ahead.
pub proof fn law_add_refused_only_when_both_listed(
    options: u32,
    blocked: bool,
    source_has: Option<ContactQuery>,
    target_has: Option<ContactQuery>,
)
    requires
        !blocked || has_flags(options, 0x8000),
    ensures
        source_has is Some && target_has is Some ==> contact_add_error(
            options,
            DatabaseResult::Success(blocked),
            DatabaseResult::Success(source_has),
            DatabaseResult::Success(target_has),
        ) == Some(ReasonCode::UnableToSetContact),
        source_has is None || target_has is None ==> contact_add_error(
            options,
            DatabaseResult::Success(blocked),
            DatabaseResult::Success(source_has),
            DatabaseResult::Success(target_has),
        ) is None,
{
}

/// A target that blocked the adding citizen refuses the request, unless the request
/// itself blocks everything; and a pending request is stored with friend requests
/// blocked (0x2000) and not allowed (0x1000), every other option as requested.
pub proof fn law_blocked_and_pending(
    options: u32,
    source_has: DatabaseResult<Option<ContactQuery>>,
    target_has: DatabaseResult<Option<ContactQuery>>,
)
    ensures
        options & 0x8000 != 0x8000 ==> contact_add_error(
            options,
            DatabaseResult::Success(true),
            source_has,
            target_has,
        ) == Some(ReasonCode::ContactAddBlocked),
        pending_options(options) & 0x2000 == 0x2000,
        pending_options(options) & 0x1000 == 0,
        pending_options(options) & !0x3000u32 == options & !0x3000u32,
{
    assert(((options & !0x1000u32) | 0x2000u32) & 0x2000 == 0x2000) by (bit_vector);
    assert(((options & !0x1000u32) | 0x2000u32) & 0x1000 == 0) by (bit_vector);
    assert(((options & !0x1000u32) | 0x2000u32) & !0x3000u32 == options & !0x3000u32) by (bit_vector);
}

} // verus!
