use vstd::prelude::*;

use crate::citizen::CitizenQuery;
use crate::client::{ClientInfo, Player};
use crate::contact_request::{client_citizen, NewTelegram};
use crate::db::{row_text, row_u32, DatabaseResult, Row, RowModel};
use crate::reason::ReasonCode;
use crate::text::{chars_of, digits_of, push_digits, string_from_chars};

verus! {

/// A telegram (offline message) as the telegram table stores it.
#[derive(Debug)]
pub struct TelegramQuery {
    pub id: u32,
    pub citizen: u32,
    pub from: u32,
    pub timestamp: u32,
    pub message: String,
    pub delivered: u32,
}

/// Every column that a telegram needs is present and in range.
pub open spec fn telegram_row_complete(r: RowModel) -> bool {
    &&& row_u32(r, "ID"@) is Some
    &&& row_u32(r, "Citizen"@) is Some
    &&& row_u32(r, "From"@) is Some
    &&& row_u32(r, "Timestamp"@) is Some
    &&& row_text(r, "Message"@) is Some
    &&& row_u32(r, "Delivered"@) is Some
}

/// `t` holds exactly the values of the row.
pub open spec fn telegram_matches_row(t: TelegramQuery, r: RowModel) -> bool {
    &&& row_u32(r, "ID"@) == Some(t.id)
    &&& row_u32(r, "Citizen"@) == Some(t.citizen)
    &&& row_u32(r, "From"@) == Some(t.from)
    &&& row_u32(r, "Timestamp"@) == Some(t.timestamp)
    &&& row_text(r, "Message"@) == Some(t.message@)
    &&& row_u32(r, "Delivered"@) == Some(t.delivered)
}

/// Reads a telegram from a row of the telegram table.
pub fn fetch_telegram(row: &Row) -> (r: DatabaseResult<TelegramQuery>)
    ensures
        r is Success <==> telegram_row_complete(row@),
        r matches DatabaseResult::Success(t) ==> telegram_matches_row(t, row@),
{
    let id = match row.fetch_u32("ID") {
        Some(x) => x,
        None => return DatabaseResult::DatabaseError,
    };
    let citizen = match row.fetch_u32("Citizen") {
        Some(x) => x,
        None => return DatabaseResult::DatabaseError,
    };
    let from = match row.fetch_u32("From") {
        Some(x) => x,
        None => return DatabaseResult::DatabaseError,
    };
    let timestamp = match row.fetch_u32("Timestamp") {
        Some(x) => x,
        None => return DatabaseResult::DatabaseError,
    };
    let message = match row.fetch_string("Message") {
        Some(x) => x,
        None => return DatabaseResult::DatabaseError,
    };
    let delivered = match row.fetch_u32("Delivered") {
        Some(x) => x,
        None => return DatabaseResult::DatabaseError,
    };
    DatabaseResult::Success(TelegramQuery { id, citizen, from, timestamp, message, delivered })
}

/// The telegrams of a query result, in row order: every row must be readable, or the
/// whole result is a database error.
pub fn telegrams_from_rows(rows: &Vec<Row>) -> (r: DatabaseResult<Vec<TelegramQuery>>)
    ensures
        r is Success <==> forall|i: int| 0 <= i < rows@.len() ==> telegram_row_complete(
            #[trigger] rows@[i]@,
        ),
        r matches DatabaseResult::Success(ts) ==> ts@.len() == rows@.len() && forall|i: int|
            0 <= i < rows@.len() ==> telegram_matches_row(#[trigger] ts@[i], rows@[i]@),
{
    let mut telegrams: Vec<TelegramQuery> = Vec::new();
    let mut i: usize = 0;
    while i < rows.len()
        invariant
            0 <= i <= rows@.len(),
            telegrams@.len() == i,
            forall|j: int| 0 <= j < i ==> telegram_row_complete(#[trigger] rows@[j]@),
            forall|j: int| 0 <= j < i ==> telegram_matches_row(#[trigger] telegrams@[j], rows@[j]@),
        decreases rows@.len() - i,
    {
        match fetch_telegram(&rows[i]) {
            DatabaseResult::Success(t) => telegrams.push(t),
            DatabaseResult::DatabaseError => return DatabaseResult::DatabaseError,
        }
        i = i + 1;
    }
    DatabaseResult::Success(telegrams)
}

/// The telegram to deliver next: the first undelivered one, and whether more remain
/// after it. Without undelivered telegrams there is nothing to deliver.
pub fn next_undelivered(telegrams: Vec<TelegramQuery>) -> (r: Result<(TelegramQuery, bool), ReasonCode>)
    ensures
        telegrams@.len() == 0 ==> r == Err::<(TelegramQuery, bool), ReasonCode>(
            ReasonCode::UnableToGetTelegram,
        ),
        telegrams@.len() > 0 ==> (r matches Ok((t, more)) && t == telegrams@[0] && more == (
        telegrams@.len() >= 2)),
{
    let mut telegrams = telegrams;
    let more_remain = telegrams.len() >= 2;
    if telegrams.len() == 0 {
        return Err(ReasonCode::UnableToGetTelegram);
    }
    let first = telegrams.remove(0);
    Ok((first, more_remain))
}

/// How many seconds ago a telegram was sent, never negative.
pub fn telegram_age(now: u32, timestamp: u32) -> (age: u32)
    ensures
        age == if now >= timestamp {
            now - timestamp
        } else {
            0
        },
{
    now.saturating_sub(timestamp)
}

/// The text of the telegram that announces a friend request from citizen `from`
/// named `name`: a line break, the byte 1, "(", the citizen number, ")", the name and
/// a line break.
pub open spec fn friend_request_text(from: u32, name: Seq<char>) -> Seq<char> {
    seq!['\n', '\u{1}', '('] + digits_of(from as nat) + seq![')'] + name + seq!['\n']
}

/// The telegram text that tells citizen `to` of a friend request from `from`.
pub fn friend_request_message(from: u32, name: &str) -> (m: String)
    ensures
        m@ == friend_request_text(from, name@),
{
    let mut v: Vec<char> = Vec::new();
    v.push('\n');
    v.push('\u{1}');
    v.push('(');
    push_digits(&mut v, from);
    v.push(')');
    let name_chars = chars_of(name);
    let mut i: usize = 0;
    let ghost start = v@;
    while i < name_chars.len()
        invariant
            0 <= i <= name_chars@.len(),
            name_chars@ == name@,
            v@ == start + name@.take(i as int),
        decreases name_chars@.len() - i,
    {
        v.push(name_chars[i]);
        i = i + 1;
        assert(v@ =~= start + name@.take(i as int));
    }
    v.push('\n');
    assert(name@.take(name@.len() as int) =~= name@);
    assert(v@ =~= friend_request_text(from, name@));
    string_from_chars(&v)
}

/// The first step of sending a telegram: the sender must be logged in as a citizen,
/// and the packet must name the recipient and carry the message. Gives the sender's
/// number, the recipient's name and the message.
pub fn telegram_send_start(
    client: &Option<ClientInfo>,
    to: Option<String>,
    message: Option<String>,
) -> (r: Result<(u32, String, String), ReasonCode>)
    ensures
        client_citizen(*client) is None ==> r == Err::<(u32, String, String), ReasonCode>(
            ReasonCode::NotLoggedIn,
        ),
        client_citizen(*client) is Some && to is None ==> r == Err::<
            (u32, String, String),
            ReasonCode,
        >(ReasonCode::NoSuchCitizen),
        client_citizen(*client) is Some && to is Some && message is None ==> r == Err::<
            (u32, String, String),
            ReasonCode,
        >(ReasonCode::UnableToSendTelegram),
        client_citizen(*client) is Some && to is Some && message is Some ==> r == Ok::<
            (u32, String, String),
            ReasonCode,
        >((client_citizen(*client)->0, to->0, message->0)),
{
    let citizen_id = match client {
        Some(ClientInfo::Player(player)) => match player.citizen() {
            Some(c) => c.cit_id,
            None => return Err(ReasonCode::NotLoggedIn),
        },
        _ => return Err(ReasonCode::NotLoggedIn),
    };
    let username_to = match to {
        Some(t) => t,
        None => return Err(ReasonCode::NoSuchCitizen),
    };
    let message = match message {
        Some(m) => m,
        None => return Err(ReasonCode::UnableToSendTelegram),
    };
    Ok((citizen_id, username_to, message))
}

/// Decides a telegram once the recipient was looked up: it must exist, and both the
/// sender's options towards it and its options towards the sender must allow
/// telegrams (the second is read only when the first allows them). The telegram is
/// stamped with `now`.
pub fn try_send_telegram_from_packet(
    citizen_id: u32,
    target: &DatabaseResult<Option<CitizenQuery>>,
    sender_allows: bool,
    recipient_allows: bool,
    message: String,
    now: u32,
) -> (r: Result<NewTelegram, ReasonCode>)
    ensures
        !(target matches DatabaseResult::Success(Some(_))) ==> r == Err::<NewTelegram, ReasonCode>(
            ReasonCode::NoSuchCitizen,
        ),
        (target matches DatabaseResult::Success(Some(_))) && !(sender_allows && recipient_allows)
            ==> r == Err::<NewTelegram, ReasonCode>(ReasonCode::TelegramBlocked),
        target matches DatabaseResult::Success(Some(t)) ==> (sender_allows && recipient_allows
            ==> r == Ok::<NewTelegram, ReasonCode>(
            NewTelegram { citizen: t.id, from: citizen_id, timestamp: now, message },
        )),
{
    let target_id = match target {
        DatabaseResult::Success(Some(t)) => t.id,
        _ => return Err(ReasonCode::NoSuchCitizen),
    };
    if !sender_allows || !recipient_allows {
        return Err(ReasonCode::TelegramBlocked);
    }
    Ok(NewTelegram { citizen: target_id, from: citizen_id, timestamp: now, message })
}

/// The answer once the telegram was stored: a failed store fails the sending.
pub fn telegram_sent(stored: &DatabaseResult<()>) -> (r: ReasonCode)
    ensures
        stored is Success ==> r == ReasonCode::Success,
        stored is DatabaseError ==> r == ReasonCode::UnableToSendTelegram,
{
    match stored {
        DatabaseResult::Success(_) => ReasonCode::Success,
        DatabaseResult::DatabaseError => ReasonCode::UnableToSendTelegram,
    }
}

/// The citizen whose telegrams a client may fetch: only a citizen has telegrams.
pub fn telegram_reader(client: &Option<ClientInfo>) -> (r: Result<u32, ReasonCode>)
    ensures
        client_citizen(*client) matches Some(id) ==> r == Ok::<u32, ReasonCode>(id),
        client_citizen(*client) is None ==> r == Err::<u32, ReasonCode>(
            ReasonCode::UnableToGetTelegram,
        ),
{
    match client {
        Some(ClientInfo::Player(player)) => match player.citizen() {
            Some(c) => Ok(c.cit_id),
            None => Err(ReasonCode::UnableToGetTelegram),
        },
        _ => Err(ReasonCode::UnableToGetTelegram),
    }
}

/// The telegram to deliver from a citizen's undelivered telegrams (which the caller
/// then marks delivered), and whether more remain after it.
pub fn try_telegram_get(undelivered: DatabaseResult<Vec<TelegramQuery>>) -> (r: Result<
    (TelegramQuery, bool),
    ReasonCode,
>)
    ensures
        undelivered is DatabaseError ==> r == Err::<(TelegramQuery, bool), ReasonCode>(
            ReasonCode::DatabaseError,
        ),
        undelivered matches DatabaseResult::Success(v) ==> (v@.len() == 0 ==> r == Err::<
            (TelegramQuery, bool),
            ReasonCode,
        >(ReasonCode::UnableToGetTelegram)),
        undelivered matches DatabaseResult::Success(v) ==> (v@.len() > 0 ==> r == Ok::<
            (TelegramQuery, bool),
            ReasonCode,
        >((v@[0], v@.len() >= 2))),
{
    match undelivered {
        DatabaseResult::Success(telegrams) => next_undelivered(telegrams),
        DatabaseResult::DatabaseError => Err(ReasonCode::DatabaseError),
    }
}

/// A telegram as it is delivered: the sender's name, its age in seconds, the text,
/// and whether more remain.
#[derive(Debug)]
pub struct TelegramDelivery {
    pub from_name: String,
    pub age: u32,
    pub message: String,
    pub more_remain: bool,
}

/// Delivers a telegram, given the lookup of its sender: an unknown sender is named
/// "<unknown>", a failed lookup fails the delivery.
pub fn telegram_get(
    telegram: TelegramQuery,
    more_remain: bool,
    sender: DatabaseResult<Option<CitizenQuery>>,
    now: u32,
) -> (r: Result<TelegramDelivery, ReasonCode>)
    ensures
        sender is DatabaseError ==> r == Err::<TelegramDelivery, ReasonCode>(
            ReasonCode::DatabaseError,
        ),
        sender is Success ==> (r matches Ok(d) && d.age == (if now >= telegram.timestamp {
            now - telegram.timestamp
        } else {
            0
        }) && d.message == telegram.message && d.more_remain == more_remain && (match sender {
            DatabaseResult::Success(Some(c)) => d.from_name == c.name,
            _ => d.from_name@ == "<unknown>"@,
        })),
{
    let from_name = match sender {
        DatabaseResult::Success(Some(cit)) => cit.name,
        DatabaseResult::Success(None) => "<unknown>".to_owned(),
        DatabaseResult::DatabaseError => return Err(ReasonCode::DatabaseError),
    };
    let age = telegram_age(now, telegram.timestamp);
    Ok(TelegramDelivery { from_name, age, message: telegram.message, more_remain })
}

} // verus!
