use vstd::prelude::*;

use crate::client::{citizen_id_of, is_admin, ClientInfo};
use crate::db::{row_int, row_text, row_u32, DatabaseResult, Row, RowModel};
use crate::login::{alphanumeric, check_name_spec, check_valid_name, law_new_citizen_name_rule, utf8_len};
use crate::packet::{vars_view, PacketVar, PacketVarModel, VarId};
use crate::reason::ReasonCode;

verus! {

/// A citizen account as the citizen table stores it.
#[derive(Debug)]
pub struct CitizenQuery {
    pub id: u32,
    pub changed: u32,
    pub name: String,
    pub password: String,
    pub email: String,
    pub priv_pass: String,
    pub comment: String,
    pub url: String,
    pub immigration: u32,
    pub expiration: u32,
    pub last_login: u32,
    pub last_address: u32,
    pub total_time: u32,
    pub bot_limit: u32,
    pub beta: u32,
    pub cav_enabled: u32,
    pub cav_template: u32,
    pub enabled: u32,
    pub privacy: u32,
    pub trial: u32,
}

/// Every column that a citizen needs is present and in range.
pub open spec fn citizen_row_complete(r: RowModel) -> bool {
    &&& row_u32(r, "ID"@) is Some
    &&& row_u32(r, "Changed"@) is Some
    &&& row_text(r, "Name"@) is Some
    &&& row_text(r, "Password"@) is Some
    &&& row_text(r, "Email"@) is Some
    &&& row_text(r, "PrivPass"@) is Some
    &&& row_text(r, "Comment"@) is Some
    &&& row_text(r, "URL"@) is Some
    &&& row_u32(r, "Immigration"@) is Some
    &&& row_u32(r, "Expiration"@) is Some
    &&& row_u32(r, "LastLogin"@) is Some
    &&& row_int(r, "LastAddress"@) is Some
    &&& row_u32(r, "TotalTime"@) is Some
    &&& row_u32(r, "BotLimit"@) is Some
    &&& row_u32(r, "Beta"@) is Some
    &&& row_u32(r, "CAVEnabled"@) is Some
    &&& row_u32(r, "CAVTemplate"@) is Some
    &&& row_u32(r, "Enabled"@) is Some
    &&& row_u32(r, "Privacy"@) is Some
    &&& row_u32(r, "Trial"@) is Some
}

/// `c` holds exactly the values of the row. The last address may be stored as a
/// negative number; it is kept modulo 2^32.
pub open spec fn citizen_matches_row(c: CitizenQuery, r: RowModel) -> bool {
    &&& row_u32(r, "ID"@) == Some(c.id)
    &&& row_u32(r, "Changed"@) == Some(c.changed)
    &&& row_text(r, "Name"@) == Some(c.name@)
    &&& row_text(r, "Password"@) == Some(c.password@)
    &&& row_text(r, "Email"@) == Some(c.email@)
    &&& row_text(r, "PrivPass"@) == Some(c.priv_pass@)
    &&& row_text(r, "Comment"@) == Some(c.comment@)
    &&& row_text(r, "URL"@) == Some(c.url@)
    &&& row_u32(r, "Immigration"@) == Some(c.immigration)
    &&& row_u32(r, "Expiration"@) == Some(c.expiration)
    &&& row_u32(r, "LastLogin"@) == Some(c.last_login)
    &&& row_int(r, "LastAddress"@) matches Some(a) && c.last_address == a as u32
    &&& row_u32(r, "TotalTime"@) == Some(c.total_time)
    &&& row_u32(r, "BotLimit"@) == Some(c.bot_limit)
    &&& row_u32(r, "Beta"@) == Some(c.beta)
    &&& row_u32(r, "CAVEnabled"@) == Some(c.cav_enabled)
    &&& row_u32(r, "CAVTemplate"@) == Some(c.cav_template)
    &&& row_u32(r, "Enabled"@) == Some(c.enabled)
    &&& row_u32(r, "Privacy"@) == Some(c.privacy)
    &&& row_u32(r, "Trial"@) == Some(c.trial)
}

/// Reads a citizen from a row of the citizen table; fails if any column is missing or
/// out of range.
pub fn fetch_citizen(row: &Row) -> (r: DatabaseResult<CitizenQuery>)
    ensures
        r is Success <==> citizen_row_complete(row@),
        r matches DatabaseResult::Success(c) ==> citizen_matches_row(c, row@),
{
    let id = match row.fetch_u32("ID") {
        Some(x) => x,
        None => return DatabaseResult::DatabaseError,
    };
    let changed = match row.fetch_u32("Changed") {
        Some(x) => x,
        None => return DatabaseResult::DatabaseError,
    };
    let name = match row.fetch_string("Name") {
        Some(x) => x,
        None => return DatabaseResult::DatabaseError,
    };
    let password = match row.fetch_string("Password") {
        Some(x) => x,
        None => return DatabaseResult::DatabaseError,
    };
    let email = match row.fetch_string("Email") {
        Some(x) => x,
        None => return DatabaseResult::DatabaseError,
    };
    let priv_pass = match row.fetch_string("PrivPass") {
        Some(x) => x,
        None => return DatabaseResult::DatabaseError,
    };
    let comment = match row.fetch_string("Comment") {
        Some(x) => x,
        None => return DatabaseResult::DatabaseError,
    };
    let url = match row.fetch_string("URL") {
        Some(x) => x,
        None => return DatabaseResult::DatabaseError,
    };
    let immigration = match row.fetch_u32("Immigration") {
        Some(x) => x,
        None => return DatabaseResult::DatabaseError,
    };
    let expiration = match row.fetch_u32("Expiration") {
        Some(x) => x,
        None => return DatabaseResult::DatabaseError,
    };
    let last_login = match row.fetch_u32("LastLogin") {
        Some(x) => x,
        None => return DatabaseResult::DatabaseError,
    };
    // A negative stored address is kept by its low 32 bits.
    let last_address = match row.fetch_int("LastAddress") {
        Some(x) => x as u32,
        None => return DatabaseResult::DatabaseError,
    };
    let total_time = match row.fetch_u32("TotalTime") {
        Some(x) => x,
        None => return DatabaseResult::DatabaseError,
    };
    let bot_limit = match row.fetch_u32("BotLimit") {
        Some(x) => x,
        None => return DatabaseResult::DatabaseError,
    };
    let beta = match row.fetch_u32("Beta") {
        Some(x) => x,
        None => return DatabaseResult::DatabaseError,
    };
    let cav_enabled = match row.fetch_u32("CAVEnabled") {
        Some(x) => x,
        None => return DatabaseResult::DatabaseError,
    };
    let cav_template = match row.fetch_u32("CAVTemplate") {
        Some(x) => x,
        None => return DatabaseResult::DatabaseError,
    };
    let enabled = match row.fetch_u32("Enabled") {
        Some(x) => x,
        None => return DatabaseResult::DatabaseError,
    };
    let privacy = match row.fetch_u32("Privacy") {
        Some(x) => x,
        None => return DatabaseResult::DatabaseError,
    };
    let trial = match row.fetch_u32("Trial") {
        Some(x) => x,
        None => return DatabaseResult::DatabaseError,
    };
    DatabaseResult::Success(
        CitizenQuery {
            id,
            changed,
            name,
            password,
            email,
            priv_pass,
            comment,
            url,
            immigration,
            expiration,
            last_login,
            last_address,
            total_time,
            bot_limit,
            beta,
            cav_enabled,
            cav_template,
            enabled,
            privacy,
            trial,
        },
    )
}

/// The citizen that a lookup by name or number finds: none for no row, the citizen of
/// the only row, and a database error if several rows match or the row is unreadable.
pub fn citizen_from_rows(rows: &Vec<Row>) -> (r: DatabaseResult<Option<CitizenQuery>>)
    ensures
        rows@.len() > 1 ==> r is DatabaseError,
        rows@.len() == 0 ==> r matches DatabaseResult::Success(None),
        rows@.len() == 1 ==> (r is Success <==> citizen_row_complete(rows@[0]@)),
        rows@.len() == 1 ==> (r matches DatabaseResult::Success(found) ==> found matches Some(
            c,
        ) && citizen_matches_row(c, rows@[0]@)),
{
    if rows.len() > 1 {
        return DatabaseResult::DatabaseError;
    }
    if rows.len() == 0 {
        return DatabaseResult::Success(None);
    }
    match fetch_citizen(&rows[0]) {
        DatabaseResult::Success(c) => DatabaseResult::Success(Some(c)),
        DatabaseResult::DatabaseError => DatabaseResult::DatabaseError,
    }
}

/// The number to give a newly added citizen, from the result row of the query for the
/// largest number plus one: 1 when there is no row; an error when the value is missing
/// or out of range.
pub fn next_citizen_id(rows: &Vec<Row>) -> (r: DatabaseResult<u32>)
    ensures
        rows@.len() == 0 ==> (r matches DatabaseResult::Success(id) && id == 1),
        rows@.len() > 0 ==> (r is Success <==> row_u32(rows@[0]@, "ID"@) is Some),
        rows@.len() > 0 ==> (r matches DatabaseResult::Success(id) ==> row_u32(
            rows@[0]@,
            "ID"@,
        ) == Some(id)),
{
    if rows.len() == 0 {
        return DatabaseResult::Success(1);
    }
    match rows[0].fetch_u32("ID") {
        Some(x) => DatabaseResult::Success(x),
        None => DatabaseResult::DatabaseError,
    }
}


/// The account created at first start: citizen number 1, "Administrator", password
/// "welcome", enabled, with a bot limit of 3, immigrated at `now`.
pub fn administrator_account(now: u32) -> (c: CitizenQuery)
    ensures
        c.id == 1 && c.changed == 0 && c.name@ == "Administrator"@ && c.password@ == "welcome"@,
        c.email@.len() == 0 && c.priv_pass@.len() == 0 && c.comment@.len() == 0 && c.url@.len() == 0,
        c.immigration == now && c.expiration == 0 && c.last_login == 0 && c.last_address == 0,
        c.total_time == 0 && c.bot_limit == 3 && c.beta == 0 && c.cav_enabled == 0,
        c.cav_template == 0 && c.enabled == 1 && c.privacy == 0 && c.trial == 0,
{
    CitizenQuery {
        id: 1,
        changed: 0,
        name: "Administrator".to_string(),
        password: "welcome".to_string(),
        email: String::new(),
        priv_pass: String::new(),
        comment: String::new(),
        url: String::new(),
        immigration: now,
        expiration: 0,
        last_login: 0,
        last_address: 0,
        total_time: 0,
        bot_limit: 3,
        beta: 0,
        cav_enabled: 0,
        cav_template: 0,
        enabled: 1,
        privacy: 0,
        trial: 0,
    }
}

/// The information about `c` that a client is sent: everyone sees the number, name,
/// URL, trial and avatar settings; the citizen itself and administrators also see the
/// account details and passwords; administrators also see the comment and the last
/// address.
pub open spec fn citizen_info_spec(c: CitizenQuery, self_vars: bool, admin_vars: bool) -> Seq<PacketVarModel> {
    let public = seq![
        PacketVarModel::Uint(VarId::CitizenNumber, c.id),
        PacketVarModel::Text(VarId::CitizenName, c.name@),
        PacketVarModel::Text(VarId::CitizenURL, c.url@),
        PacketVarModel::Byte(VarId::TrialUser, c.trial as u8),
        PacketVarModel::Byte(VarId::CAVEnabled, c.cav_enabled as u8),
        PacketVarModel::Uint(
            VarId::CAVTemplate,
            if c.cav_enabled != 0 {
                c.cav_template
            } else {
                0
            },
        ),
    ];
    let private = if self_vars || admin_vars {
        seq![
            PacketVarModel::Uint(VarId::CitizenImmigration, c.immigration),
            PacketVarModel::Uint(VarId::CitizenExpiration, c.expiration),
            PacketVarModel::Uint(VarId::CitizenLastLogin, c.last_login),
            PacketVarModel::Uint(VarId::CitizenTotalTime, c.total_time),
            PacketVarModel::Uint(VarId::CitizenBotLimit, c.bot_limit),
            PacketVarModel::Byte(VarId::BetaUser, c.beta as u8),
            PacketVarModel::Byte(VarId::CitizenEnabled, c.enabled as u8),
            PacketVarModel::Uint(VarId::CitizenPrivacy, c.privacy),
            PacketVarModel::Text(VarId::CitizenPassword, c.password@),
            PacketVarModel::Text(VarId::CitizenEmail, c.email@),
            PacketVarModel::Text(VarId::CitizenPrivilegePassword, c.priv_pass@),
            PacketVarModel::Uint(VarId::CitizenImmigration, c.immigration),
        ]
    } else {
        Seq::empty()
    };
    let admin = if admin_vars {
        seq![
            PacketVarModel::Text(VarId::CitizenComment, c.comment@),
            PacketVarModel::Uint(VarId::IdentifyUserIP, c.last_address),
        ]
    } else {
        Seq::empty()
    };
    public + private + admin
}

/// The packet variables that describe `citizen` to a client.
pub fn citizen_info_vars(citizen: &CitizenQuery, self_vars: bool, admin_vars: bool) -> (vars: Vec<PacketVar>)
    ensures
        vars_view(vars@) == citizen_info_spec(*citizen, self_vars, admin_vars),
{
    let mut vars: Vec<PacketVar> = Vec::new();
    vars.push(PacketVar::Uint(VarId::CitizenNumber, citizen.id));
    vars.push(PacketVar::Text(VarId::CitizenName, citizen.name.clone()));
    vars.push(PacketVar::Text(VarId::CitizenURL, citizen.url.clone()));
    vars.push(PacketVar::Byte(VarId::TrialUser, citizen.trial as u8));
    vars.push(PacketVar::Byte(VarId::CAVEnabled, citizen.cav_enabled as u8));
    vars.push(
        PacketVar::Uint(
            VarId::CAVTemplate,
            if citizen.cav_enabled != 0 {
                citizen.cav_template
            } else {
                0
            },
        ),
    );
    if self_vars || admin_vars {
        vars.push(PacketVar::Uint(VarId::CitizenImmigration, citizen.immigration));
        vars.push(PacketVar::Uint(VarId::CitizenExpiration, citizen.expiration));
        vars.push(PacketVar::Uint(VarId::CitizenLastLogin, citizen.last_login));
        vars.push(PacketVar::Uint(VarId::CitizenTotalTime, citizen.total_time));
        vars.push(PacketVar::Uint(VarId::CitizenBotLimit, citizen.bot_limit));
        vars.push(PacketVar::Byte(VarId::BetaUser, citizen.beta as u8));
        vars.push(PacketVar::Byte(VarId::CitizenEnabled, citizen.enabled as u8));
        vars.push(PacketVar::Uint(VarId::CitizenPrivacy, citizen.privacy));
        vars.push(PacketVar::Text(VarId::CitizenPassword, citizen.password.clone()));
        vars.push(PacketVar::Text(VarId::CitizenEmail, citizen.email.clone()));
        vars.push(PacketVar::Text(VarId::CitizenPrivilegePassword, citizen.priv_pass.clone()));
        vars.push(PacketVar::Uint(VarId::CitizenImmigration, citizen.immigration));
    }
    if admin_vars {
        vars.push(PacketVar::Text(VarId::CitizenComment, citizen.comment.clone()));
        vars.push(PacketVar::Uint(VarId::IdentifyUserIP, citizen.last_address));
    }
    assert(vars_view(vars@) =~= citizen_info_spec(*citizen, self_vars, admin_vars));
    vars
}

/// The answer to an administrator's citizen lookup: only a client logged in as a
/// citizen may look up; a found citizen is described with the details its own account
/// and administrators may see.
pub fn try_citizen_lookup(client: Option<&ClientInfo>, found: DatabaseResult<Option<CitizenQuery>>) -> (r: (ReasonCode, Vec<PacketVar>))
    ensures
        match client {
            Some(c) => citizen_id_of(*c) is Some,
            None => false,
        } ==> match found {
            DatabaseResult::Success(Some(cit)) => r.0 == ReasonCode::Success && vars_view(r.1@)
                == citizen_info_spec(
                cit,
                Some(cit.id) == citizen_id_of(*client->0),
                is_admin(*client->0),
            ),
            DatabaseResult::Success(None) => r.0 == ReasonCode::NoSuchCitizen && r.1@.len() == 0,
            DatabaseResult::DatabaseError => r.0 == ReasonCode::DatabaseError && r.1@.len() == 0,
        },
        !match client {
            Some(c) => citizen_id_of(*c) is Some,
            None => false,
        } ==> r.0 == ReasonCode::Unauthorized && r.1@.len() == 0,
{
    let player_citizen_id = match client {
        Some(c) => match c.citizen() {
            Some(cit) => cit.cit_id,
            None => return (ReasonCode::Unauthorized, Vec::new()),
        },
        None => return (ReasonCode::Unauthorized, Vec::new()),
    };
    match found {
        DatabaseResult::Success(Some(citizen)) => {
            let same_citizen_id = citizen.id == player_citizen_id;
            let is_admin = client.unwrap().has_admin_permissions();
            let vars = citizen_info_vars(&citizen, same_citizen_id, is_admin);
            (ReasonCode::Success, vars)
        },
        DatabaseResult::Success(None) => (ReasonCode::NoSuchCitizen, Vec::new()),
        DatabaseResult::DatabaseError => (ReasonCode::DatabaseError, Vec::new()),
    }
}

/// A citizen may change an account that is its own, or any account if it is an
/// administrator.
pub fn citizen_change_allowed(client_citizen_id: Option<u32>, target_id: u32, is_admin: bool) -> (b: bool)
    ensures
        b == (client_citizen_id == Some(target_id) || is_admin),
{
    match client_citizen_id {
        Some(id) => id == target_id || is_admin,
        None => is_admin,
    }
}

/// The account after a change: name, passwords, e-mail, URL, avatar template and
/// privacy always come from `changed`; comment, expiration, bot limit, beta, avatar
/// enabling, enabled and trial only when an administrator changes them; the rest stays.
pub open spec fn merged_citizen(original: CitizenQuery, changed: CitizenQuery, admin: bool, c: CitizenQuery) -> bool {
    &&& c.id == original.id
    &&& c.changed == 0
    &&& c.name@ == changed.name@
    &&& c.password@ == changed.password@
    &&& c.email@ == changed.email@
    &&& c.priv_pass@ == changed.priv_pass@
    &&& c.comment@ == if admin {
        changed.comment@
    } else {
        original.comment@
    }
    &&& c.url@ == changed.url@
    &&& c.immigration == original.immigration
    &&& c.expiration == if admin {
        changed.expiration
    } else {
        original.expiration
    }
    &&& c.last_login == original.last_login
    &&& c.last_address == original.last_address
    &&& c.total_time == original.total_time
    &&& c.bot_limit == if admin {
        changed.bot_limit
    } else {
        original.bot_limit
    }
    &&& c.beta == if admin {
        changed.beta
    } else {
        original.beta
    }
    &&& c.cav_enabled == if admin {
        changed.cav_enabled
    } else {
        original.cav_enabled
    }
    &&& c.cav_template == changed.cav_template
    &&& c.enabled == if admin {
        changed.enabled
    } else {
        original.enabled
    }
    &&& c.privacy == changed.privacy
    &&& c.trial == if admin {
        changed.trial
    } else {
        original.trial
    }
}

/// The account to store for a citizen change, given the citizen that already holds
/// the new name (if any): another citizen holding the name refuses the change.
pub fn modify_citizen(
    original: &CitizenQuery,
    changed: &CitizenQuery,
    name_holder: &DatabaseResult<Option<CitizenQuery>>,
    admin: bool,
) -> (r: Result<CitizenQuery, ReasonCode>)
    ensures
        (name_holder matches DatabaseResult::Success(Some(h)) && h.id != original.id) ==> r
            == Err::<CitizenQuery, ReasonCode>(ReasonCode::NameAlreadyUsed),
        !(name_holder matches DatabaseResult::Success(Some(h)) && h.id != original.id) ==> (r matches Ok(c)
            && merged_citizen(*original, *changed, admin, c)),
        r matches Ok(c) ==> c.id == original.id && c.name@ == changed.name@ && c.password@
            == changed.password@ && c.email@ == changed.email@ && c.priv_pass@ == changed.priv_pass@
            && c.url@ == changed.url@ && c.cav_template == changed.cav_template && c.privacy
            == changed.privacy,
{
    // Find any citizens with the same name as the new name
    if let DatabaseResult::Success(Some(matching_cit)) = name_holder {
        // If someone already has the name, it needs to be the same user
        if matching_cit.id != original.id {
            return Err(ReasonCode::NameAlreadyUsed);
        }
    }
    Ok(
        CitizenQuery {
            id: original.id,
            changed: 0,
            name: changed.name.clone(),
            password: changed.password.clone(),
            email: changed.email.clone(),
            priv_pass: changed.priv_pass.clone(),
            comment: if admin {
                changed.comment.clone()
            } else {
                original.comment.clone()
            },
            url: changed.url.clone(),
            immigration: original.immigration,
            expiration: if admin {
                changed.expiration
            } else {
                original.expiration
            },
            last_login: original.last_login,
            last_address: original.last_address,
            total_time: original.total_time,
            bot_limit: if admin {
                changed.bot_limit
            } else {
                original.bot_limit
            },
            beta: if admin {
                changed.beta
            } else {
                original.beta
            },
            cav_enabled: if admin {
                changed.cav_enabled
            } else {
                original.cav_enabled
            },
            cav_template: changed.cav_template,
            enabled: if admin {
                changed.enabled
            } else {
                original.enabled
            },
            privacy: changed.privacy,
            trial: if admin {
                changed.trial
            } else {
                original.trial
            },
        },
    )
}

/// A change made by the citizen itself (not an administrator) never touches the
/// administrator-only fields.
pub proof fn law_self_change_keeps_admin_fields(original: CitizenQuery, changed: CitizenQuery, c: CitizenQuery)
    requires
        merged_citizen(original, changed, false, c),
    ensures
        c.comment@ == original.comment@,
        c.expiration == original.expiration,
        c.bot_limit == original.bot_limit,
        c.beta == original.beta,
        c.cav_enabled == original.cav_enabled,
        c.enabled == original.enabled,
        c.trial == original.trial,
        c.id == original.id,
{
}

/// The fields of a citizen change request, as the packet carried them.
pub struct CitizenChangeFields {
    pub name: Option<String>,
    pub number: Option<u32>,
    pub email: Option<String>,
    pub priv_pass: Option<String>,
    pub expiration: Option<u32>,
    pub bot_limit: Option<u32>,
    pub beta: Option<u32>,
    pub enabled: Option<u32>,
    pub comment: Option<String>,
    pub password: Option<String>,
    pub url: Option<String>,
    pub cav_template: Option<u32>,
    pub cav_enabled: Option<u32>,
    pub privacy: Option<u32>,
    pub trial: Option<u32>,
}

/// The message for the first field that a citizen change request lacks, if any.
pub open spec fn first_missing_field(f: CitizenChangeFields) -> Option<Seq<char>> {
    if f.name is None {
        Some("No citizen name"@)
    } else if f.number is None {
        Some("No citizen number"@)
    } else if f.email is None {
        Some("No citizen email"@)
    } else if f.priv_pass is None {
        Some("No citizen privilege password"@)
    } else if f.expiration is None {
        Some("No citizen expiration"@)
    } else if f.bot_limit is None {
        Some("No citizen bot limit"@)
    } else if f.beta is None {
        Some("No citizen beta user"@)
    } else if f.enabled is None {
        Some("No citizen enabled"@)
    } else if f.comment is None {
        Some("No citizen comment"@)
    } else if f.password is None {
        Some("No citizen password"@)
    } else if f.url is None {
        Some("No citizen url"@)
    } else if f.cav_template is None {
        Some("No citizen cav template"@)
    } else if f.cav_enabled is None {
        Some("No citizen cav enabled"@)
    } else if f.privacy is None {
        Some("No citizen privacy"@)
    } else if f.trial is None {
        Some("No citizen trial"@)
    } else {
        None
    }
}

/// The account that a citizen change request describes; every field is required, and
/// the ones the request cannot change (immigration, last login and address, total
/// time) are zero.
pub fn citizen_from_packet(f: CitizenChangeFields) -> (r: Result<CitizenQuery, String>)
    ensures
        r is Ok <==> first_missing_field(f) is None,
        r matches Err(m) ==> first_missing_field(f) == Some(m@),
        r matches Ok(c) ==> c.id == f.number->0 && c.changed == 0 && c.name@ == f.name->0@
            && c.password@ == f.password->0@ && c.email@ == f.email->0@ && c.priv_pass@
            == f.priv_pass->0@ && c.comment@ == f.comment->0@ && c.url@ == f.url->0@
            && c.immigration == 0 && c.expiration == f.expiration->0 && c.last_login == 0
            && c.last_address == 0 && c.total_time == 0 && c.bot_limit == f.bot_limit->0
            && c.beta == f.beta->0 && c.cav_enabled == f.cav_enabled->0 && c.cav_template
            == f.cav_template->0 && c.enabled == f.enabled->0 && c.privacy == f.privacy->0
            && c.trial == f.trial->0,
{
    let CitizenChangeFields {
        name,
        number,
        email,
        priv_pass,
        expiration,
        bot_limit,
        beta,
        enabled,
        comment,
        password,
        url,
        cav_template,
        cav_enabled,
        privacy,
        trial,
    } = f;
    let username = match name {
        Some(x) => x,
        None => return Err("No citizen name".to_string()),
    };
    let citizen_id = match number {
        Some(x) => x,
        None => return Err("No citizen number".to_string()),
    };
    let email = match email {
        Some(x) => x,
        None => return Err("No citizen email".to_string()),
    };
    let priv_pass = match priv_pass {
        Some(x) => x,
        None => return Err("No citizen privilege password".to_string()),
    };
    let expiration = match expiration {
        Some(x) => x,
        None => return Err("No citizen expiration".to_string()),
    };
    let bot_limit = match bot_limit {
        Some(x) => x,
        None => return Err("No citizen bot limit".to_string()),
    };
    let beta = match beta {
        Some(x) => x,
        None => return Err("No citizen beta user".to_string()),
    };
    let enabled = match enabled {
        Some(x) => x,
        None => return Err("No citizen enabled".to_string()),
    };
    let comment = match comment {
        Some(x) => x,
        None => return Err("No citizen comment".to_string()),
    };
    let password = match password {
        Some(x) => x,
        None => return Err("No citizen password".to_string()),
    };
    let url = match url {
        Some(x) => x,
        None => return Err("No citizen url".to_string()),
    };
    let cav_template = match cav_template {
        Some(x) => x,
        None => return Err("No citizen cav template".to_string()),
    };
    let cav_enabled = match cav_enabled {
        Some(x) => x,
        None => return Err("No citizen cav enabled".to_string()),
    };
    let privacy = match privacy {
        Some(x) => x,
        None => return Err("No citizen privacy".to_string()),
    };
    let trial = match trial {
        Some(x) => x,
        None => return Err("No citizen trial".to_string()),
    };
    Ok(
        CitizenQuery {
            id: citizen_id,
            changed: 0,
            name: username,
            password,
            email,
            priv_pass,
            comment,
            url,
            immigration: 0,
            expiration,
            last_login: 0,
            last_address: 0,
            total_time: 0,
            bot_limit,
            beta,
            cav_enabled,
            cav_template,
            enabled,
            privacy,
            trial,
        },
    )
}

/// The fields of a citizen add request, as the packet carried them.
pub struct CitizenAddFields {
    pub number: Option<u32>,
    pub name: Option<String>,
    pub password: Option<String>,
    pub email: Option<String>,
    pub expiration: Option<u32>,
    pub beta: Option<u32>,
    pub enabled: Option<u32>,
    pub trial: Option<u32>,
    pub cav_enabled: Option<u32>,
}

/// The account that a citizen add request describes; a missing field refuses the
/// request as unauthorized. Fields the request does not carry are zero or empty.
pub fn new_citizen_from_fields(f: CitizenAddFields) -> (r: Result<CitizenQuery, ReasonCode>)
    ensures
        r is Ok <==> (f.number is Some && f.name is Some && f.password is Some && f.email is Some
            && f.expiration is Some && f.beta is Some && f.enabled is Some && f.trial is Some
            && f.cav_enabled is Some),
        r matches Err(e) ==> e == ReasonCode::Unauthorized,
        r matches Ok(c) ==> c.id == f.number->0 && c.changed == 0 && c.name@ == f.name->0@
            && c.password@ == f.password->0@ && c.email@ == f.email->0@ && c.priv_pass@.len() == 0
            && c.comment@.len() == 0 && c.url@.len() == 0 && c.immigration == 0 && c.expiration
            == f.expiration->0 && c.last_login == 0 && c.last_address == 0 && c.total_time == 0
            && c.bot_limit == 0 && c.beta == f.beta->0 && c.cav_enabled == f.cav_enabled->0
            && c.cav_template == 0 && c.enabled == f.enabled->0 && c.privacy == 0 && c.trial
            == f.trial->0,
{
    let CitizenAddFields { number, name, password, email, expiration, beta, enabled, trial, cav_enabled } = f;
    let id = match number {
        Some(x) => x,
        None => return Err(ReasonCode::Unauthorized),
    };
    let name = match name {
        Some(x) => x,
        None => return Err(ReasonCode::Unauthorized),
    };
    let password = match password {
        Some(x) => x,
        None => return Err(ReasonCode::Unauthorized),
    };
    let email = match email {
        Some(x) => x,
        None => return Err(ReasonCode::Unauthorized),
    };
    let expiration = match expiration {
        Some(x) => x,
        None => return Err(ReasonCode::Unauthorized),
    };
    let beta = match beta {
        Some(x) => x,
        None => return Err(ReasonCode::Unauthorized),
    };
    let enabled = match enabled {
        Some(x) => x,
        None => return Err(ReasonCode::Unauthorized),
    };
    let trial = match trial {
        Some(x) => x,
        None => return Err(ReasonCode::Unauthorized),
    };
    let cav_enabled = match cav_enabled {
        Some(x) => x,
        None => return Err(ReasonCode::Unauthorized),
    };
    Ok(
        CitizenQuery {
            id,
            changed: 0,
            name,
            password,
            email,
            priv_pass: String::new(),
            comment: String::new(),
            url: String::new(),
            immigration: 0,
            expiration,
            last_login: 0,
            last_address: 0,
            total_time: 0,
            bot_limit: 0,
            beta,
            cav_enabled,
            cav_template: 0,
            enabled,
            privacy: 0,
            trial,
        },
    )
}

/// What decides whether a new citizen may be added, in this order: the client must
/// be an administrator, the name and the number must be free (a failed lookup is a
/// database error), and the number must fit in an `i32`.
pub open spec fn citizen_add_error(
    is_admin: bool,
    id: u32,
    by_name: DatabaseResult<Option<CitizenQuery>>,
    by_number: DatabaseResult<Option<CitizenQuery>>,
) -> Option<ReasonCode> {
    if !is_admin {
        Some(ReasonCode::Unauthorized)
    } else if by_name matches DatabaseResult::Success(Some(_)) {
        Some(ReasonCode::NameAlreadyUsed)
    } else if by_name is DatabaseError {
        Some(ReasonCode::DatabaseError)
    } else if by_number matches DatabaseResult::Success(Some(_)) {
        Some(ReasonCode::NumberAlreadyUsed)
    } else if by_number is DatabaseError {
        Some(ReasonCode::DatabaseError)
    } else if id > 0x7fff_ffff {
        Some(ReasonCode::UnableToInsertCitizen)
    } else {
        None
    }
}

/// Decides whether a new citizen may be added.
pub fn check_citizen_add(
    is_admin: bool,
    id: u32,
    by_name: &DatabaseResult<Option<CitizenQuery>>,
    by_number: &DatabaseResult<Option<CitizenQuery>>,
) -> (r: Result<(), ReasonCode>)
    ensures
        r is Ok <==> citizen_add_error(is_admin, id, *by_name, *by_number) is None,
        r matches Err(e) ==> citizen_add_error(is_admin, id, *by_name, *by_number) == Some(e),
{
    // Client needs to be an admin
    if !is_admin {
        return Err(ReasonCode::Unauthorized);
    }
    // Can't add citizen if another citizen already has the name
    match by_name {
        DatabaseResult::Success(Some(_)) => return Err(ReasonCode::NameAlreadyUsed),
        DatabaseResult::Success(None) => {},
        DatabaseResult::DatabaseError => return Err(ReasonCode::DatabaseError),
    }
    // Can't add citizen if someone already has the citizen number
    match by_number {
        DatabaseResult::Success(Some(_)) => return Err(ReasonCode::NumberAlreadyUsed),
        DatabaseResult::Success(None) => {},
        DatabaseResult::DatabaseError => return Err(ReasonCode::DatabaseError),
    }
    // Can't add citizen if the id is too large
    if id > 0x7fff_ffff {
        return Err(ReasonCode::UnableToInsertCitizen);
    }
    Ok(())
}

/// A bot that adds a citizen also sets its immigration, last login and total time
/// (missing values count as 0).
pub fn apply_bot_fields(
    info: &mut CitizenQuery,
    immigration: Option<u32>,
    last_login: Option<u32>,
    total_time: Option<u32>,
)
    ensures
        final(info).immigration == match immigration {
            Some(x) => x,
            None => 0,
        },
        final(info).last_login == match last_login {
            Some(x) => x,
            None => 0,
        },
        final(info).total_time == match total_time {
            Some(x) => x,
            None => 0,
        },
        final(info).id == old(info).id && final(info).name@ == old(info).name@,
        final(info).password@ == old(info).password@ && final(info).email@ == old(info).email@,
        final(info).expiration == old(info).expiration && final(info).beta == old(info).beta,
        final(info).enabled == old(info).enabled && final(info).trial == old(info).trial,
        final(info).cav_enabled == old(info).cav_enabled,
{
    info.immigration = match immigration {
        Some(x) => x,
        None => 0,
    };
    info.last_login = match last_login {
        Some(x) => x,
        None => 0,
    };
    info.total_time = match total_time {
        Some(x) => x,
        None => 0,
    };
}

/// The citizen that the lookup after an insert finds is the one that was added; not
/// finding it means the insert failed.
pub fn added_citizen(found: DatabaseResult<Option<CitizenQuery>>) -> (r: Result<CitizenQuery, ReasonCode>)
    ensures
        found matches DatabaseResult::Success(Some(c)) ==> r == Ok::<CitizenQuery, ReasonCode>(c),
        found matches DatabaseResult::Success(None) ==> r == Err::<CitizenQuery, ReasonCode>(
            ReasonCode::UnableToInsertCitizen,
        ),
        found is DatabaseError ==> r == Err::<CitizenQuery, ReasonCode>(ReasonCode::DatabaseError),
{
    match found {
        DatabaseResult::Success(Some(result)) => Ok(result),
        DatabaseResult::Success(None) => Err(ReasonCode::UnableToInsertCitizen),
        DatabaseResult::DatabaseError => Err(ReasonCode::DatabaseError),
    }
}

/// Checks the length of a new password: 4 to 12 bytes.
pub fn check_valid_password(password: &str) -> (r: Result<(), ReasonCode>)
    ensures
        utf8_len(password@) > 12 ==> r == Err::<(), ReasonCode>(ReasonCode::PasswordTooLong),
        utf8_len(password@) < 4 ==> r == Err::<(), ReasonCode>(ReasonCode::PasswordTooShort),
        4 <= utf8_len(password@) <= 12 ==> r is Ok,
{
    let bytes = password.as_bytes();
    let n = bytes.len();
    proof {
        crate::login::lemma_utf8_len_is_byte_len(password@);
    }
    if n > 12 {
        return Err(ReasonCode::PasswordTooLong);
    }
    if n < 4 {
        return Err(ReasonCode::PasswordTooShort);
    }
    Ok(())
}

/// What an immigration request is answered, given whether immigration is allowed
/// and who holds the name already.
pub open spec fn immigration_error(
    allow_immigration: bool,
    name: Seq<char>,
    password: Seq<char>,
    by_name: DatabaseResult<Option<CitizenQuery>>,
) -> Option<ReasonCode> {
    if !allow_immigration {
        Some(ReasonCode::ImmigrationNotAllowed)
    } else if check_name_spec(name, false, true) is Some {
        check_name_spec(name, false, true)
    } else if utf8_len(password) > 12 {
        Some(ReasonCode::PasswordTooLong)
    } else if utf8_len(password) < 4 {
        Some(ReasonCode::PasswordTooShort)
    } else if by_name matches DatabaseResult::Success(Some(_)) {
        Some(ReasonCode::NameAlreadyUsed)
    } else if by_name is DatabaseError {
        Some(ReasonCode::DatabaseError)
    } else {
        None
    }
}

/// The account that a visitor who immigrates gets: number chosen by the database,
/// the given name, password and e-mail, avatars and the account enabled, immigrated
/// at `now`; or why immigration is refused.
pub fn try_immigrate(
    allow_immigration: bool,
    name: String,
    password: String,
    email: String,
    by_name: &DatabaseResult<Option<CitizenQuery>>,
    now: u32,
) -> (r: Result<CitizenQuery, ReasonCode>)
    ensures
        r is Ok <==> immigration_error(allow_immigration, name@, password@, *by_name) is None,
        r matches Err(e) ==> immigration_error(allow_immigration, name@, password@, *by_name)
            == Some(e),
        allow_immigration && utf8_len(name@) >= 2 && name@[0] != ' ' && name@.last() != ' '
            && (forall|i: int| 0 <= i < name@.len() ==> alphanumeric(#[trigger] name@[i]) || name@[i] == ' ')
            && 4 <= utf8_len(password@) <= 12 && *by_name == DatabaseResult::<Option<CitizenQuery>>::Success(None)
            ==> r is Ok,
        r matches Ok(c) ==> c.id == 0 && c.name@ == name@ && c.password@ == password@ && c.email@
            == email@ && c.priv_pass@.len() == 0 && c.comment@.len() == 0 && c.url@.len() == 0
            && c.immigration == now && c.expiration == 0 && c.last_login == 0 && c.last_address
            == 0 && c.total_time == 0 && c.bot_limit == 0 && c.beta == 0 && c.cav_enabled == 1
            && c.cav_template == 0 && c.enabled == 1 && c.privacy == 0 && c.trial == 0
            && c.changed == 0,
{
    proof {
        law_immigration_rule(name@, password@);
    }
    if !allow_immigration {
        return Err(ReasonCode::ImmigrationNotAllowed);
    }
    check_valid_name(name.as_str(), false)?;
    check_valid_password(password.as_str())?;
    // Normally, email is also validated, but valid emails are not required.
    match by_name {
        DatabaseResult::Success(Some(_)) => return Err(ReasonCode::NameAlreadyUsed),
        DatabaseResult::Success(None) => {},
        DatabaseResult::DatabaseError => return Err(ReasonCode::DatabaseError),
    }
    Ok(
        CitizenQuery {
            id: 0,
            changed: 0,
            name,
            password,
            email,
            priv_pass: String::new(),
            comment: String::new(),
            url: String::new(),
            immigration: now,
            expiration: 0,
            last_login: 0,
            last_address: 0,
            total_time: 0,
            bot_limit: 0,
            beta: 0,
            cav_enabled: 1,
            cav_template: 0,
            enabled: 1,
            privacy: 0,
            trial: 0,
        },
    )
}

/// Decides a citizen add once the requested account is known and its name and number
/// were looked up; a bot also sets the immigration, last login and total time. Gives
/// the account to insert and whether the database picks its number (number 0).
pub fn try_add_citizen(
    info: CitizenQuery,
    is_admin: bool,
    is_bot: bool,
    immigration: Option<u32>,
    last_login: Option<u32>,
    total_time: Option<u32>,
    by_name: &DatabaseResult<Option<CitizenQuery>>,
    by_number: &DatabaseResult<Option<CitizenQuery>>,
) -> (r: Result<(CitizenQuery, bool), ReasonCode>)
    ensures
        citizen_add_error(is_admin, info.id, *by_name, *by_number) matches Some(e) ==> r == Err::<
            (CitizenQuery, bool),
            ReasonCode,
        >(e),
        citizen_add_error(is_admin, info.id, *by_name, *by_number) is None && !is_bot ==> r == Ok::<
            (CitizenQuery, bool),
            ReasonCode,
        >((info, info.id == 0)),
        citizen_add_error(is_admin, info.id, *by_name, *by_number) is None && is_bot ==> (r matches Ok(
            (c, next),
        ) && next == (info.id == 0) && c == (CitizenQuery {
            immigration: match immigration {
                Some(x) => x,
                None => 0,
            },
            last_login: match last_login {
                Some(x) => x,
                None => 0,
            },
            total_time: match total_time {
                Some(x) => x,
                None => 0,
            },
            ..info
        })),
{
    check_citizen_add(is_admin, info.id, by_name, by_number)?;
    let mut info = info;
    if is_bot {
        info.immigration = match immigration {
            Some(x) => x,
            None => 0,
        };
        info.last_login = match last_login {
            Some(x) => x,
            None => 0,
        };
        info.total_time = match total_time {
            Some(x) => x,
            None => 0,
        };
    }
    let next = info.id == 0;
    Ok((info, next))
}

/// One more than `id`, staying at the largest number.
pub open spec fn next_citizen_number(id: u32) -> int {
    if id == u32::MAX {
        id as int
    } else {
        id + 1
    }
}

/// One less than `id`, staying at 0.
pub open spec fn prev_citizen_number(id: u32) -> int {
    if id == 0 {
        0
    } else {
        id - 1
    }
}

/// The number that "next citizen" looks up: one more, staying at the largest number.
pub fn citizen_next(citizen_id: u32) -> (n: u32)
    ensures
        n == next_citizen_number(citizen_id),
{
    citizen_id.saturating_add(1)
}

/// The number that "previous citizen" looks up: one less, staying at 0.
pub fn citizen_prev(citizen_id: u32) -> (n: u32)
    ensures
        n == prev_citizen_number(citizen_id),
{
    citizen_id.saturating_sub(1)
}

/// The answer to a citizen removal.
pub fn citizen_delete(deleted: &DatabaseResult<()>) -> (rc: ReasonCode)
    ensures
        deleted is Success ==> rc == ReasonCode::Success,
        deleted is DatabaseError ==> rc == ReasonCode::UnableToDeleteCitizen,
{
    match deleted {
        DatabaseResult::Success(_) => ReasonCode::Success,
        DatabaseResult::DatabaseError => ReasonCode::UnableToDeleteCitizen,
    }
}

/// What an immigration request carries.
#[derive(Debug)]
pub struct ImmigrateParams {
    pub name: String,
    pub password: String,
    pub email: String,
}

impl ImmigrateParams {
    /// The request, if the packet carries name, password and e-mail.
    pub fn from_packet(name: Option<String>, password: Option<String>, email: Option<String>) -> (r:
        Option<ImmigrateParams>)
        ensures
            r is Some <==> (name is Some && password is Some && email is Some),
            r matches Some(p) ==> Some(p.name) == name && Some(p.password) == password && Some(
                p.email,
            ) == email,
    {
        Some(ImmigrateParams { name: name?, password: password?, email: email? })
    }
}

/// The answer once the immigrant's account was inserted.
pub fn immigrate(inserted: &DatabaseResult<()>) -> (rc: ReasonCode)
    ensures
        inserted is Success ==> rc == ReasonCode::Success,
        inserted is DatabaseError ==> rc == ReasonCode::DatabaseError,
{
    match inserted {
        DatabaseResult::Success(_) => ReasonCode::Success,
        DatabaseResult::DatabaseError => ReasonCode::DatabaseError,
    }
}

/// The first decision of a citizen change, once the account it names was looked up:
/// a client that is not a player gets a success answer and nothing changes
/// (`Ok(None)`); a player must own the account or be an administrator; the account
/// must exist. `Ok(Some(original))` goes on to `modify_citizen`.
pub fn citizen_change(
    client: &Option<ClientInfo>,
    changed_id: u32,
    original: DatabaseResult<Option<CitizenQuery>>,
) -> (r: Result<Option<CitizenQuery>, ReasonCode>)
    ensures
        !(*client matches Some(ClientInfo::Player(_))) ==> r == Ok::<
            Option<CitizenQuery>,
            ReasonCode,
        >(None),
        (*client matches Some(ClientInfo::Player(_))) && !(citizen_id_of(client->0) == Some(
            changed_id,
        ) || is_admin(client->0)) ==> r == Err::<Option<CitizenQuery>, ReasonCode>(
            ReasonCode::Unauthorized,
        ),
        (*client matches Some(ClientInfo::Player(_))) && (citizen_id_of(client->0) == Some(
            changed_id,
        ) || is_admin(client->0)) ==> r == (match original {
            DatabaseResult::Success(Some(c)) => Ok::<Option<CitizenQuery>, ReasonCode>(Some(c)),
            _ => Err::<Option<CitizenQuery>, ReasonCode>(ReasonCode::NoSuchCitizen),
        }),
{
    let c = match client {
        Some(c) => c,
        None => return Ok(None),
    };
    if c.player().is_none() {
        return Ok(None);
    }
    if !citizen_change_allowed(c.citizen_id(), changed_id, c.has_admin_permissions()) {
        return Err(ReasonCode::Unauthorized);
    }
    match original {
        DatabaseResult::Success(Some(o)) => Ok(Some(o)),
        _ => Err(ReasonCode::NoSuchCitizen),
    }
}

/// Going to the next citizen number and back returns to the same number, and so
/// does going back and then forward, except where a step stays put at either end.
pub proof fn law_next_then_prev(id: u32)
    ensures
        id < u32::MAX ==> prev_citizen_number(next_citizen_number(id) as u32) == id,
        id > 0 ==> next_citizen_number(prev_citizen_number(id) as u32) == id,
        id == u32::MAX ==> next_citizen_number(id) == id,
        id == 0 ==> prev_citizen_number(id) == 0,
{
}

/// Which variable a citizen lookup request lacks.
#[derive(Clone, Copy, Debug, PartialEq, Eq, Structural)]
pub enum CitizenLookupParamsError {
    CitizenID,
    CitizenName,
}

/// A request for the citizen after `citizen_id`.
#[derive(Debug)]
pub struct CitizenNextParams {
    pub citizen_id: u32,
}

impl CitizenNextParams {
    /// The request, if the packet names a citizen number.
    pub fn try_from(citizen_id: Option<u32>) -> (r: Result<CitizenNextParams, CitizenLookupParamsError>)
        ensures
            citizen_id matches Some(n) ==> (r matches Ok(p) && p.citizen_id == n),
            citizen_id is None ==> r == Err::<CitizenNextParams, CitizenLookupParamsError>(
                CitizenLookupParamsError::CitizenID,
            ),
    {
        match citizen_id {
            Some(n) => Ok(CitizenNextParams { citizen_id: n }),
            None => Err(CitizenLookupParamsError::CitizenID),
        }
    }
}

/// A request for the citizen before `citizen_id`.
#[derive(Debug)]
pub struct CitizenPrevParams {
    pub citizen_id: u32,
}

impl CitizenPrevParams {
    /// The request, if the packet names a citizen number.
    pub fn try_from(citizen_id: Option<u32>) -> (r: Result<CitizenPrevParams, CitizenLookupParamsError>)
        ensures
            citizen_id matches Some(n) ==> (r matches Ok(p) && p.citizen_id == n),
            citizen_id is None ==> r == Err::<CitizenPrevParams, CitizenLookupParamsError>(
                CitizenLookupParamsError::CitizenID,
            ),
    {
        match citizen_id {
            Some(n) => Ok(CitizenPrevParams { citizen_id: n }),
            None => Err(CitizenLookupParamsError::CitizenID),
        }
    }
}

/// A request for the citizen with a given number.
#[derive(Debug)]
pub struct CitizenLookupByNumberParams {
    pub citizen_number: u32,
}

impl CitizenLookupByNumberParams {
    /// The request, if the packet names a citizen number.
    pub fn try_from(citizen_number: Option<u32>) -> (r: Result<
        CitizenLookupByNumberParams,
        CitizenLookupParamsError,
    >)
        ensures
            citizen_number matches Some(n) ==> (r matches Ok(p) && p.citizen_number == n),
            citizen_number is None ==> r == Err::<
                CitizenLookupByNumberParams,
                CitizenLookupParamsError,
            >(CitizenLookupParamsError::CitizenID),
    {
        match citizen_number {
            Some(n) => Ok(CitizenLookupByNumberParams { citizen_number: n }),
            None => Err(CitizenLookupParamsError::CitizenID),
        }
    }
}

/// A request for the citizen with a given name.
#[derive(Debug)]
pub struct CitizenLookupByNameParams {
    pub citizen_name: String,
}

impl CitizenLookupByNameParams {
    /// The request, if the packet names a citizen.
    pub fn try_from(citizen_name: Option<String>) -> (r: Result<
        CitizenLookupByNameParams,
        CitizenLookupParamsError,
    >)
        ensures
            citizen_name matches Some(n) ==> (r matches Ok(p) && p.citizen_name == n),
            citizen_name is None ==> r == Err::<CitizenLookupByNameParams, CitizenLookupParamsError>(
                CitizenLookupParamsError::CitizenName,
            ),
    {
        match citizen_name {
            Some(n) => Ok(CitizenLookupByNameParams { citizen_name: n }),
            None => Err(CitizenLookupParamsError::CitizenName),
        }
    }
}

/// The answer to a request for a citizen's avatar: there are none to give, so a
/// request that names a citizen is answered `NoSuchCav`; one that names none gets no
/// answer.
pub fn get_cav(cav_citizen: Option<u32>) -> (r: Option<ReasonCode>)
    ensures
        cav_citizen is Some ==> r == Some(ReasonCode::NoSuchCav),
        cav_citizen is None ==> r is None,
{
    match cav_citizen {
        Some(_) => Some(ReasonCode::NoSuchCav),
        None => None,
    }
}

/// The first step of a citizen add: the account the request describes, refused as
/// unauthorized when a field is missing or the client is no administrator, before
/// anything is looked up.
pub fn citizen_add_start(f: CitizenAddFields, is_admin: bool) -> (r: Result<CitizenQuery, ReasonCode>)
    ensures
        !(f.number is Some && f.name is Some && f.password is Some && f.email is Some
            && f.expiration is Some && f.beta is Some && f.enabled is Some && f.trial is Some
            && f.cav_enabled is Some) || !is_admin ==> r == Err::<CitizenQuery, ReasonCode>(
            ReasonCode::Unauthorized,
        ),
        r matches Ok(c) ==> is_admin && c.id == f.number->0 && c.changed == 0 && c.name@
            == f.name->0@ && c.password@ == f.password->0@ && c.email@ == f.email->0@
            && c.priv_pass@.len() == 0 && c.comment@.len() == 0 && c.url@.len() == 0
            && c.immigration == 0 && c.expiration == f.expiration->0 && c.last_login == 0
            && c.last_address == 0 && c.total_time == 0 && c.bot_limit == 0 && c.beta
            == f.beta->0 && c.cav_enabled == f.cav_enabled->0 && c.cav_template == 0
            && c.enabled == f.enabled->0 && c.privacy == 0 && c.trial == f.trial->0,
        (f.number is Some && f.name is Some && f.password is Some && f.email is Some
            && f.expiration is Some && f.beta is Some && f.enabled is Some && f.trial is Some
            && f.cav_enabled is Some) && is_admin ==> r is Ok,
{
    let info = new_citizen_from_fields(f)?;
    if !is_admin {
        return Err(ReasonCode::Unauthorized);
    }
    Ok(info)
}

/// The answer once a changed account was written: a failed write is
/// `UnableToChangeCitizen`.
pub fn citizen_changed(written: &DatabaseResult<()>) -> (r: Result<(), ReasonCode>)
    ensures
        written is Success ==> r is Ok,
        written is DatabaseError ==> r == Err::<(), ReasonCode>(ReasonCode::UnableToChangeCitizen),
{
    match written {
        DatabaseResult::Success(_) => Ok(()),
        DatabaseResult::DatabaseError => Err(ReasonCode::UnableToChangeCitizen),
    }
}

/// What setting up the citizen table does once it looked up citizen 1: nothing when
/// the administrator exists (`Success(None)`), insert the administrator account
/// created at `now` when it does not (`Success(Some(..))`), and fail on a failed
/// lookup.
pub fn init_citizen(admin_lookup: &DatabaseResult<Option<CitizenQuery>>, now: u32) -> (r:
    DatabaseResult<Option<CitizenQuery>>)
    ensures
        admin_lookup matches DatabaseResult::Success(Some(_)) ==> r matches DatabaseResult::Success(
            None,
        ),
        admin_lookup matches DatabaseResult::Success(None) ==> (r matches DatabaseResult::Success(
            Some(c),
        ) && c.id == 1 && c.changed == 0 && c.name@ == "Administrator"@ && c.password@
            == "welcome"@ && c.email@.len() == 0 && c.priv_pass@.len() == 0 && c.comment@.len()
            == 0 && c.url@.len() == 0 && c.immigration == now && c.expiration == 0
            && c.last_login == 0 && c.last_address == 0 && c.total_time == 0 && c.bot_limit == 3
            && c.beta == 0 && c.cav_enabled == 0 && c.cav_template == 0 && c.enabled == 1
            && c.privacy == 0 && c.trial == 0),
        admin_lookup is DatabaseError ==> r is DatabaseError,
{
    match admin_lookup {
        DatabaseResult::Success(Some(_)) => DatabaseResult::Success(None),
        DatabaseResult::Success(None) => DatabaseResult::Success(Some(administrator_account(now))),
        DatabaseResult::DatabaseError => DatabaseResult::DatabaseError,
    }
}

/// A change always stores the name, passwords, e-mail, URL, avatar template and
/// privacy that the request asks for, keeps the account's number, immigration, last
/// login, last address and total time, and takes the administrator-only fields from
/// the request exactly when an administrator makes it.
pub proof fn law_change_takes_requested_fields(
    original: CitizenQuery,
    changed: CitizenQuery,
    admin: bool,
    c: CitizenQuery,
)
    requires
        merged_citizen(original, changed, admin, c),
    ensures
        c.name@ == changed.name@,
        c.password@ == changed.password@,
        c.email@ == changed.email@,
        c.priv_pass@ == changed.priv_pass@,
        c.url@ == changed.url@,
        c.cav_template == changed.cav_template,
        c.privacy == changed.privacy,
        c.id == original.id,
        c.immigration == original.immigration,
        c.last_login == original.last_login,
        c.last_address == original.last_address,
        c.total_time == original.total_time,
        admin ==> c.comment@ == changed.comment@ && c.expiration == changed.expiration
            && c.bot_limit == changed.bot_limit && c.beta == changed.beta && c.cav_enabled
            == changed.cav_enabled && c.enabled == changed.enabled && c.trial == changed.trial,
{
}

/// Immigration, when allowed and the name is free, accepts exactly a name of at least
/// two bytes, made of letters, digits and blanks, that neither starts nor ends with a
/// blank (so blanks inside are fine), with a password of 4 to 12 bytes.
pub proof fn law_immigration_rule(name: Seq<char>, password: Seq<char>)
    ensures
        immigration_error(true, name, password, DatabaseResult::Success(None)) is None <==> (
        utf8_len(name) >= 2 && name[0] != ' ' && name.last() != ' ' && (forall|i: int|
            0 <= i < name.len() ==> alphanumeric(#[trigger] name[i]) || name[i] == ' ')
            && 4 <= utf8_len(password) <= 12),
        immigration_error(false, name, password, DatabaseResult::Success(None)) == Some(
            ReasonCode::ImmigrationNotAllowed,
        ),
{
    law_new_citizen_name_rule(name);
}

} // verus!
