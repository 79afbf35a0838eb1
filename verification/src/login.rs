use vstd::prelude::*;

use crate::citizen::CitizenQuery;
use crate::client::{ClientInfo, ConnectedClient, Player};
use crate::db::DatabaseResult;
use crate::reason::ReasonCode;
use crate::text::chars_of;

verus! {

/// How a client asks to log in.
#[derive(Clone, Copy, Debug, PartialEq, Eq, Structural)]
pub enum LoginType {
    WorldServer,
    UnspecifiedHuman,
    Bot,
}

impl LoginType {
    /// The login type with number `n` (1, 2 or 3).
    pub fn from_i32(n: i32) -> (t: Option<LoginType>)
        ensures
            n == 1 ==> t == Some(LoginType::WorldServer),
            n == 2 ==> t == Some(LoginType::UnspecifiedHuman),
            n == 3 ==> t == Some(LoginType::Bot),
            !(1 <= n <= 3) ==> t is None,
    {
        match n {
            1 => Some(LoginType::WorldServer),
            2 => Some(LoginType::UnspecifiedHuman),
            3 => Some(LoginType::Bot),
            _ => None,
        }
    }
}

/// How many bytes UTF-8 uses for a character.
pub open spec fn utf8_width(c: char) -> int {
    if (c as u32) < 0x80 {
        1
    } else if (c as u32) < 0x800 {
        2
    } else if (c as u32) < 0x10000 {
        3
    } else {
        4
    }
}

/// How many bytes UTF-8 uses for a string (what `str::len` returns).
pub open spec fn utf8_len(s: Seq<char>) -> int
    decreases s.len(),
{
    if s.len() == 0 {
        0
    } else {
        utf8_len(s.drop_last()) + utf8_width(s.last())
    }
}

proof fn lemma_utf8_len_first(s: Seq<char>)
    requires
        s.len() > 0,
    ensures
        utf8_len(s) == utf8_width(s[0]) + utf8_len(s.drop_first()),
    decreases s.len(),
{
    let rest = s.drop_first();
    if s.len() == 1 {
        assert(s.drop_last().len() == 0);
        assert(rest.len() == 0);
        assert(utf8_len(s.drop_last()) == 0);
        assert(utf8_len(rest) == 0);
        assert(s.last() == s[0]);
    } else {
        let init = s.drop_last();
        lemma_utf8_len_first(init);
        assert(init.drop_first() =~= rest.drop_last());
        assert(init[0] == s[0]);
        assert(rest.last() == s.last());
        assert(utf8_len(rest) == utf8_len(rest.drop_last()) + utf8_width(rest.last()));
        assert(utf8_len(s) == utf8_len(init) + utf8_width(s.last()));
    }
}

/// `utf8_len` counts the bytes of the UTF-8 encoding, which is what `str::len` returns.
pub proof fn lemma_utf8_len_is_byte_len(s: Seq<char>)
    ensures
        vstd::utf8::encode_utf8(s).len() == utf8_len(s),
    decreases s.len(),
{
    if s.len() > 0 {
        lemma_utf8_len_first(s);
        lemma_utf8_len_is_byte_len(s.drop_first());
        let c: char = s[0];
        vstd::utf8::char_is_scalar(c);
        assert(vstd::utf8::encode_scalar(c as u32).len() == utf8_width(c));
        assert(vstd::utf8::encode_utf8(s) == vstd::utf8::encode_scalar(c as u32)
            + vstd::utf8::encode_utf8(s.drop_first()));
    }
}

/// Whether a character outside ASCII is alphabetic or numeric by its Unicode
/// properties, as `char::is_alphanumeric` decides.
pub uninterp spec fn char_is_alphanumeric(c: char) -> bool;

/// Whether a character is alphabetic or numeric, as `char::is_alphanumeric` decides:
/// within ASCII exactly the letters and the digits (the only ASCII characters with the
/// Alphabetic property or a numeric general category); outside ASCII by the Unicode
/// properties, named `char_is_alphanumeric`.
pub open spec fn alphanumeric(c: char) -> bool {
    if c <= '\u{7f}' {
        ('a' <= c <= 'z') || ('A' <= c <= 'Z') || ('0' <= c <= '9')
    } else {
        char_is_alphanumeric(c)
    }
}

/// Calls `char::is_alphanumeric`, which std documents as the Alphabetic property or a
/// numeric general category (Nd, Nl, No): within ASCII that is exactly the letters and
/// digits; outside ASCII the result is named `char_is_alphanumeric(c)` and nothing
/// more is claimed of it.
#[verifier::external_body]
fn is_alphanumeric(c: char) -> (b: bool)
    ensures
        b == alphanumeric(c),
        c > '\u{7f}' ==> b == char_is_alphanumeric(c),
{
    c.is_alphanumeric()
}

proof fn lemma_utf8_len_at_least_len(s: Seq<char>)
    ensures
        utf8_len(s) >= s.len(),
    decreases s.len(),
{
    if s.len() > 0 {
        lemma_utf8_len_at_least_len(s.drop_last());
    }
}

/// Whether `v[from..to]` takes fewer than two bytes in UTF-8.
fn utf8_len_below_two(v: &Vec<char>, from: usize, to: usize) -> (b: bool)
    requires
        from <= to <= v@.len(),
    ensures
        b == (utf8_len(v@.subrange(from as int, to as int)) < 2),
{
    let ghost s = v@.subrange(from as int, to as int);
    proof {
        lemma_utf8_len_at_least_len(s);
    }
    if to - from >= 2 {
        return false;
    }
    if to == from {
        assert(s.len() == 0);
        return true;
    }
    assert(s.drop_last().len() == 0);
    assert(utf8_len(s.drop_last()) == 0);
    assert(s.last() == v@[from as int]);
    (v[from] as u32) < 0x80
}

/// The name checks after the tourist quotes are removed: at least two bytes long, no
/// blank at either end, and only characters that `allowed` accepts.
pub open spec fn name_error(name: Seq<char>, allow_blank: bool) -> Option<ReasonCode> {
    if utf8_len(name) < 2 {
        Some(ReasonCode::NameTooShort)
    } else if name.last() == ' ' {
        Some(ReasonCode::NameEndsWithBlank)
    } else if name[0] == ' ' {
        Some(ReasonCode::NameContainsInvalidBlank)
    } else if !(forall|i: int|
        0 <= i < name.len() ==> alphanumeric(#[trigger] name[i]) || (allow_blank
            && name[i] == ' ')) {
        Some(ReasonCode::NameContainsNonalphanumericChar)
    } else {
        None
    }
}

/// What the name check decides: tourist names must be enclosed in double quotes, which
/// are then removed; the rest must pass `name_error`.
pub open spec fn check_name_spec(name: Seq<char>, is_tourist: bool, allow_blank: bool) -> Option<
    ReasonCode,
> {
    if is_tourist {
        if !(name.len() > 0 && name[0] == '"' && name.last() == '"') {
            Some(ReasonCode::NoSuchCitizen)
        } else if name.len() < 2 {
            Some(ReasonCode::NameTooShort)
        } else {
            name_error(name.subrange(1, name.len() - 1), allow_blank)
        }
    } else {
        name_error(name, allow_blank)
    }
}

#[verifier::loop_isolation(false)]
fn check_name_chars(v: &Vec<char>, from: usize, to: usize, allow_blank: bool) -> (r: Result<(), ReasonCode>)
    requires
        from <= to <= v@.len(),
    ensures
        r is Ok <==> name_error(v@.subrange(from as int, to as int), allow_blank) is None,
        r matches Err(e) ==> name_error(v@.subrange(from as int, to as int), allow_blank) == Some(e),
{
    let ghost name = v@.subrange(from as int, to as int);
    if utf8_len_below_two(v, from, to) {
        return Err(ReasonCode::NameTooShort);
    }
    assert(name.len() > 0) by {
        if name.len() == 0 {
            assert(utf8_len(name) == 0);
        }
    }
    assert(name.last() == v@[to - 1]);
    assert(name[0] == v@[from as int]);
    if v[to - 1] == ' ' {
        return Err(ReasonCode::NameEndsWithBlank);
    }
    if v[from] == ' ' {
        return Err(ReasonCode::NameContainsInvalidBlank);
    }
    let mut i = from;
    while i < to
        invariant
            from <= i <= to <= v@.len(),
            name == v@.subrange(from as int, to as int),
            forall|j: int|
                from <= j < i ==> alphanumeric(#[trigger] v@[j]) || (allow_blank && v@[j]
                    == ' '),
        decreases to - i,
    {
        let c = v[i];
        if !(is_alphanumeric(c) || (allow_blank && c == ' ')) {
            assert(name[i - from] == c);
            return Err(ReasonCode::NameContainsNonalphanumericChar);
        }
        i = i + 1;
    }
    assert forall|j: int| 0 <= j < name.len() implies alphanumeric(#[trigger] name[j]) || (
    allow_blank && name[j] == ' ') by {
        assert(name[j] == v@[from + j]);
    }
    Ok(())
}

/// Checks a name for a new citizen, or (with `is_tourist`) a quoted tourist name:
/// at least two bytes, no blank at the start or end, only letters, digits and blanks.
pub fn check_valid_name(name: &str, is_tourist: bool) -> (r: Result<(), ReasonCode>)
    ensures
        r is Ok <==> check_name_spec(name@, is_tourist, true) is None,
        r matches Err(e) ==> check_name_spec(name@, is_tourist, true) == Some(e),
{
    let v = chars_of(name);
    let n = v.len();
    if is_tourist {
        // Tourist names must start and end with quotes
        if !(n > 0 && v[0] == '"' && v[n - 1] == '"') {
            return Err(ReasonCode::NoSuchCitizen);
        }
        if n < 2 {
            return Err(ReasonCode::NameTooShort);
        }
        check_name_chars(&v, 1, n - 1, true)
    } else {
        assert(v@.subrange(0, n as int) =~= v@);
        check_name_chars(&v, 0, n, true)
    }
}

/// Checks a name at login, or (with `is_tourist`) a quoted tourist name: at least two
/// bytes, no blank at the start or end, only letters and digits. A tourist name that
/// is a single quote is left out: the slice between its quotes does not exist.
pub fn check_valid_login_name(name: &str, is_tourist: bool) -> (r: Result<(), ReasonCode>)
    requires
        !(is_tourist && name@ == seq!['"']),
    ensures
        r is Ok <==> check_name_spec(name@, is_tourist, false) is None,
        r matches Err(e) ==> check_name_spec(name@, is_tourist, false) == Some(e),
{
    let v = chars_of(name);
    let n = v.len();
    if is_tourist {
        if !(n > 0 && v[0] == '"' && v[n - 1] == '"') {
            return Err(ReasonCode::NoSuchCitizen);
        }
        assert(n >= 2) by {
            if n == 1 {
                assert(name@ =~= seq!['"']);
            }
        }
        check_name_chars(&v, 1, n - 1, false)
    } else {
        assert(v@.subrange(0, n as int) =~= v@);
        check_name_chars(&v, 0, n, false)
    }
}

/// What the username check at citizen login decides.
pub open spec fn citizen_username_ok(username: Seq<char>) -> bool {
    username.len() > 0 && username[0] != '[' && username[0] != '"'
}

/// Checks a citizen login name: it must be present, and must not start like a bot
/// ("[") or tourist ('"') name.
pub fn check_citizen_username(username: &str) -> (r: Result<(), ReasonCode>)
    ensures
        r is Ok <==> citizen_username_ok(username@),
        r is Ok <==> (username@.len() > 0 && username@[0] != '[' && username@[0] != '"'),
        r matches Err(e) ==> e == ReasonCode::NoSuchCitizen,
{
    let v = chars_of(username);
    if v.len() == 0 {
        return Err(ReasonCode::NoSuchCitizen);
    }
    if v[0] == '[' || v[0] == '"' {
        return Err(ReasonCode::NoSuchCitizen);
    }
    Ok(())
}

/// What the privilege check at login decides, given the citizen that the privilege
/// number names (`acting`, looked up only for a nonzero number).
pub open spec fn privilege_error(
    priv_id: Option<u32>,
    priv_pass: Option<Seq<char>>,
    acting: DatabaseResult<Option<CitizenQuery>>,
) -> Option<ReasonCode> {
    match priv_id {
        Some(id) if id != 0 => match acting {
            DatabaseResult::Success(Some(c)) => if c.enabled == 0 && c.id != 1 {
                Some(ReasonCode::NoSuchActingCitizen)
            } else {
                match priv_pass {
                    Some(p) => if p != c.priv_pass@ {
                        Some(ReasonCode::ActingPasswordInvalid)
                    } else {
                        None
                    },
                    None => Some(ReasonCode::ActingPasswordInvalid),
                }
            },
            _ => Some(ReasonCode::NoSuchActingCitizen),
        },
        _ => None,
    }
}

/// Checks the acting privileges a client asks for at login: for a nonzero privilege
/// number, that citizen must exist, be enabled (unless it is the administrator) and
/// the privilege password must match.
pub fn check_citizen_privilege(
    priv_id: Option<u32>,
    priv_pass: Option<&String>,
    acting: &DatabaseResult<Option<CitizenQuery>>,
) -> (r: Result<(), ReasonCode>)
    ensures
        r is Ok <==> privilege_error(
            priv_id,
            match priv_pass {
                Some(p) => Some(p@),
                None => None,
            },
            *acting,
        ) is None,
        r matches Err(e) ==> privilege_error(
            priv_id,
            match priv_pass {
                Some(p) => Some(p@),
                None => None,
            },
            *acting,
        ) == Some(e),
{
    // Checks if acquiring a privilege
    if let Some(id) = priv_id {
        if id != 0 {
            let priv_citizen = match acting {
                DatabaseResult::Success(Some(c)) => c,
                _ => return Err(ReasonCode::NoSuchActingCitizen),
            };
            if priv_citizen.enabled == 0 && priv_citizen.id != 1 {
                return Err(ReasonCode::NoSuchActingCitizen);
            }
            let pass = match priv_pass {
                Some(p) => p,
                None => return Err(ReasonCode::ActingPasswordInvalid),
            };
            if *pass != priv_citizen.priv_pass {
                return Err(ReasonCode::ActingPasswordInvalid);
            }
        }
    }
    Ok(())
}

/// Checks a plain-text login password against the citizen's: it must be present,
/// nonempty and equal.
pub fn check_password(password: Option<&String>, database_citizen: &CitizenQuery) -> (r: Result<(), ReasonCode>)
    ensures
        r is Ok <==> (password matches Some(p) && p@.len() > 0 && p@ == database_citizen.password@),
        r matches Err(e) ==> e == ReasonCode::InvalidPassword,
{
    let password = match password {
        Some(p) => p,
        None => return Err(ReasonCode::InvalidPassword),
    };
    if password.as_str().is_empty() {
        return Err(ReasonCode::InvalidPassword);
    }
    if database_citizen.password != *password {
        return Err(ReasonCode::InvalidPassword);
    }
    Ok(())
}

/// The MD5 digest of `data`, as the md5 crate computes it.
pub uninterp spec fn md5_digest(data: Seq<u8>) -> Seq<u8>;

/// Calls `md5::compute`: the digest of `data` is named `md5_digest(data)`, and it is
/// 16 bytes long (the crate's `Digest` holds a `[u8; 16]`).
#[verifier::external_body]
fn md5_compute(data: &Vec<u8>) -> (d: Vec<u8>)
    ensures
        d@ == md5_digest(data@),
        d@.len() == 16,
{
    md5::compute(data).0.to_vec()
}

/// The four little-endian bytes of `n`.
pub open spec fn le_bytes_u32(n: u32) -> Seq<u8> {
    seq![(n % 256) as u8, ((n / 256) % 256) as u8, ((n / 65536) % 256) as u8, (n / 16777216) as u8]
}

/// What the client hashes to prove it knows a password: the password's byte length
/// as a little-endian `u32`, then its UTF-8 bytes in reverse order.
pub open spec fn password_hash_input(password: Seq<char>) -> Seq<u8> {
    let bytes = vstd::utf8::encode_utf8(password);
    le_bytes_u32(bytes.len() as u32) + bytes.reverse()
}

/// The bytes that are hashed to check a password.
pub fn password_hash_buffer(password: &str) -> (buf: Vec<u8>)
    ensures
        buf@ == password_hash_input(password@),
{
    let bytes = password.as_bytes();
    let len = bytes.len() as u32;
    let mut buf: Vec<u8> = Vec::new();
    buf.push((len % 256) as u8);
    buf.push(((len / 256) % 256) as u8);
    buf.push(((len / 65536) % 256) as u8);
    buf.push((len / 16777216) as u8);
    let ghost head = buf@;
    assert(head =~= le_bytes_u32(len));
    let n = bytes.len();
    let mut i = n;
    while i > 0
        invariant
            0 <= i <= n,
            n == bytes@.len(),
            buf@ == head + bytes@.reverse().take(n - i),
        decreases i,
    {
        i = i - 1;
        buf.push(bytes[i]);
        assert(bytes@.reverse()[n - i - 1] == bytes@[i as int]);
        assert(buf@ =~= head + bytes@.reverse().take(n - i));
    }
    assert(bytes@.reverse().take(n as int) =~= bytes@.reverse());
    buf
}

/// Checks a hashed login password: the client must send the MD5 digest of the
/// citizen's password as `password_hash_input` lays it out.
#[verifier::loop_isolation(false)]
pub fn check_password_hash(database_citizen: &CitizenQuery, password_hash: Option<&Vec<u8>>) -> (r: Result<(), ReasonCode>)
    ensures
        r is Ok <==> (password_hash matches Some(h) && h@ == md5_digest(
            password_hash_input(database_citizen.password@),
        )),
        r matches Err(e) ==> e == ReasonCode::InvalidPassword,
{
    let buf = password_hash_buffer(database_citizen.password.as_str());
    let correct = md5_compute(&buf);
    let given = match password_hash {
        Some(h) => h,
        None => return Err(ReasonCode::InvalidPassword),
    };
    if given.len() != correct.len() {
        return Err(ReasonCode::InvalidPassword);
    }
    let mut i: usize = 0;
    while i < given.len()
        invariant
            given@.len() == correct@.len(),
            0 <= i <= given@.len(),
            forall|j: int| 0 <= j < i ==> given@[j] == correct@[j],
        decreases given@.len() - i,
    {
        if given[i] != correct[i] {
            assert(given@[i as int] != correct@[i as int]);
            return Err(ReasonCode::InvalidPassword);
        }
        i = i + 1;
    }
    assert(given@ =~= correct@);
    Ok(())
}

/// Checks that the citizen account is enabled.
pub fn check_citizen_enabled(database_citizen: &CitizenQuery) -> (r: Result<(), ReasonCode>)
    ensures
        r is Ok <==> database_citizen.enabled != 0,
        r matches Err(e) ==> e == ReasonCode::CitizenDisabled,
{
    if database_citizen.enabled == 0 {
        return Err(ReasonCode::CitizenDisabled);
    }
    Ok(())
}

/// The client is logged in as citizen `id`.
pub open spec fn is_citizen_with_id(client: Option<ClientInfo>, id: u32) -> bool {
    client matches Some(ClientInfo::Player(Player::Citizen(c))) && c.cit_id == id
}

/// The client is a tourist called `username`.
pub open spec fn is_tourist_named(client: Option<ClientInfo>, username: Seq<char>) -> bool {
    client matches Some(ClientInfo::Player(Player::Tourist(g))) && g.username@ == username
}

/// Some other connection is logged in as citizen `id`.
pub open spec fn logged_in_elsewhere(connections: Seq<ConnectedClient>, id: u32, this_cid: u64) -> bool {
    exists|i: int|
        0 <= i < connections.len() && connections[i].cid != this_cid && is_citizen_with_id(
            (#[trigger] connections[i]).client,
            id,
        )
}

/// Checks that no other connection is logged in as this citizen; the same connection
/// logging in again is allowed.
pub fn check_citizen_already_logged_in(
    connections: &Vec<ConnectedClient>,
    database_citizen: &CitizenQuery,
    this_cid: u64,
) -> (r: Result<(), ReasonCode>)
    ensures
        r is Ok <==> !logged_in_elsewhere(connections@, database_citizen.id, this_cid),
        r matches Err(e) ==> e == ReasonCode::IdentityAlreadyInUse,
{
    let mut i: usize = 0;
    while i < connections.len()
        invariant
            0 <= i <= connections@.len(),
            forall|j: int|
                0 <= j < i ==> !(connections@[j].cid != this_cid && is_citizen_with_id(
                    (#[trigger] connections@[j]).client,
                    database_citizen.id,
                )),
        decreases connections@.len() - i,
    {
        let other = &connections[i];
        if let Some(other_client) = &other.client {
            if let Some(citizen) = other_client.citizen() {
                if citizen.cit_id == database_citizen.id {
                    // Don't give an error if the client is already logged in as this user.
                    if this_cid != other.cid {
                        return Err(ReasonCode::IdentityAlreadyInUse);
                    }
                }
            }
        }
        i = i + 1;
    }
    Ok(())
}

/// Some connection is a tourist with this name.
pub open spec fn tourist_name_taken(connections: Seq<ConnectedClient>, username: Seq<char>) -> bool {
    exists|i: int|
        0 <= i < connections.len() && is_tourist_named((#[trigger] connections[i]).client, username)
}

/// Checks a tourist login: the quoted name must be valid and not used by another
/// tourist.
#[verifier::loop_isolation(false)]
pub fn check_tourist(connections: &Vec<ConnectedClient>, username: &str) -> (r: Result<(), ReasonCode>)
    requires
        username@ != seq!['"'],
    ensures
        r is Ok <==> check_name_spec(username@, true, false) is None && !tourist_name_taken(
            connections@,
            username@,
        ),
        r matches Err(e) ==> (check_name_spec(username@, true, false) == Some(e) || (check_name_spec(
            username@,
            true,
            false,
        ) is None && e == ReasonCode::NameAlreadyUsed)),
{
    check_valid_login_name(username, true)?;
    let mut i: usize = 0;
    while i < connections.len()
        invariant
            0 <= i <= connections@.len(),
            forall|j: int|
                0 <= j < i ==> !is_tourist_named((#[trigger] connections@[j]).client, username@),
        decreases connections@.len() - i,
    {
        if let Some(client_info) = &connections[i].client {
            if let Some(tourist) = client_info.tourist() {
                if crate::db::str_equal(tourist.username.as_str(), username) {
                    assert(is_tourist_named(connections@[i as int].client, username@));
                    return Err(ReasonCode::NameAlreadyUsed);
                }
            }
        }
        i = i + 1;
    }
    Ok(())
}

/// The text of an optional string.
pub open spec fn opt_text(s: Option<&String>) -> Option<Seq<char>> {
    match s {
        Some(t) => Some(t@),
        None => None,
    }
}

/// The bytes of an optional byte vector.
pub open spec fn opt_bytes(b: Option<&Vec<u8>>) -> Option<Seq<u8>> {
    match b {
        Some(v) => Some(v@),
        None => None,
    }
}

/// A plain-text password proves the citizen's identity.
pub open spec fn password_matches(password: Option<Seq<char>>, c: CitizenQuery) -> bool {
    password matches Some(p) && p.len() > 0 && p == c.password@
}

/// A hashed password proves the citizen's identity.
pub open spec fn hash_matches(hash: Option<Seq<u8>>, c: CitizenQuery) -> bool {
    hash matches Some(h) && h == md5_digest(password_hash_input(c.password@))
}

/// The outcome of a citizen login, the checks made in this order: the name, the
/// acting privileges, the account's existence, the password (`password_ok`), that
/// the account is enabled, and that no other connection uses it.
pub open spec fn citizen_login(
    username: Seq<char>,
    priv_id: Option<u32>,
    priv_pass: Option<Seq<char>>,
    acting: DatabaseResult<Option<CitizenQuery>>,
    found: DatabaseResult<Option<CitizenQuery>>,
    password_ok: spec_fn(CitizenQuery) -> bool,
    connections: Seq<ConnectedClient>,
    this_cid: u64,
) -> Result<CitizenQuery, ReasonCode> {
    if !citizen_username_ok(username) {
        Err(ReasonCode::NoSuchCitizen)
    } else if privilege_error(priv_id, priv_pass, acting) is Some {
        Err(privilege_error(priv_id, priv_pass, acting)->0)
    } else {
        match found {
            DatabaseResult::Success(Some(c)) => if !password_ok(c) {
                Err(ReasonCode::InvalidPassword)
            } else if c.enabled == 0 {
                Err(ReasonCode::CitizenDisabled)
            } else if logged_in_elsewhere(connections, c.id, this_cid) {
                Err(ReasonCode::IdentityAlreadyInUse)
            } else {
                Ok(c)
            },
            _ => Err(ReasonCode::NoSuchCitizen),
        }
    }
}

/// Checks a citizen login with a plain-text password. `acting` is the lookup of the
/// privilege number's citizen, `found` that of the login name.
pub fn check_citizen_v4(
    username: &str,
    password: Option<&String>,
    priv_id: Option<u32>,
    priv_pass: Option<&String>,
    acting: &DatabaseResult<Option<CitizenQuery>>,
    found: DatabaseResult<Option<CitizenQuery>>,
    connections: &Vec<ConnectedClient>,
    this_cid: u64,
) -> (r: Result<CitizenQuery, ReasonCode>)
    ensures
        r == citizen_login(
            username@,
            priv_id,
            opt_text(priv_pass),
            *acting,
            found,
            |c: CitizenQuery| password_matches(opt_text(password), c),
            connections@,
            this_cid,
        ),
{
    check_citizen_username(username)?;
    check_citizen_privilege(priv_id, priv_pass, acting)?;
    let database_citizen = match found {
        DatabaseResult::Success(Some(c)) => c,
        _ => return Err(ReasonCode::NoSuchCitizen),
    };
    check_password(password, &database_citizen)?;
    check_citizen_enabled(&database_citizen)?;
    check_citizen_already_logged_in(connections, &database_citizen, this_cid)?;
    Ok(database_citizen)
}

/// Checks a citizen login with a hashed password. `acting` is the lookup of the
/// privilege number's citizen, `found` that of the login name.
pub fn check_citizen_v6(
    username: &str,
    password_hash: Option<&Vec<u8>>,
    priv_id: Option<u32>,
    priv_pass: Option<&String>,
    acting: &DatabaseResult<Option<CitizenQuery>>,
    found: DatabaseResult<Option<CitizenQuery>>,
    connections: &Vec<ConnectedClient>,
    this_cid: u64,
) -> (r: Result<CitizenQuery, ReasonCode>)
    ensures
        r == citizen_login(
            username@,
            priv_id,
            opt_text(priv_pass),
            *acting,
            found,
            |c: CitizenQuery| hash_matches(opt_bytes(password_hash), c),
            connections@,
            this_cid,
        ),
{
    check_citizen_username(username)?;
    check_citizen_privilege(priv_id, priv_pass, acting)?;
    let database_citizen = match found {
        DatabaseResult::Success(Some(c)) => c,
        _ => return Err(ReasonCode::NoSuchCitizen),
    };
    check_password_hash(&database_citizen, password_hash)?;
    check_citizen_enabled(&database_citizen)?;
    check_citizen_already_logged_in(connections, &database_citizen, this_cid)?;
    Ok(database_citizen)
}

/// What a client proves its identity with: a plain-text password (older protocol)
/// or the hash of one (newer protocol).
#[derive(Debug)]
pub enum LoginSecret {
    Password(Option<String>),
    PasswordHash(Option<Vec<u8>>),
}

/// The secret proves the citizen's identity.
pub open spec fn secret_matches(secret: LoginSecret, c: CitizenQuery) -> bool {
    match secret {
        LoginSecret::Password(p) => password_matches(
            match p {
                Some(t) => Some(t@),
                None => None,
            },
            c,
        ),
        LoginSecret::PasswordHash(h) => hash_matches(
            match h {
                Some(v) => Some(v@),
                None => None,
            },
            c,
        ),
    }
}

/// Why a tourist login fails: a bad quoted name, or a name another tourist uses.
pub open spec fn tourist_login_error(username: Seq<char>, connections: Seq<ConnectedClient>) -> Option<
    ReasonCode,
> {
    if check_name_spec(username, true, false) is Some {
        check_name_spec(username, true, false)
    } else if tourist_name_taken(connections, username) {
        Some(ReasonCode::NameAlreadyUsed)
    } else {
        None
    }
}

/// The outcome of a human login: a quoted name logs in as a tourist (`Ok(None)`),
/// any other name as the citizen it names.
pub open spec fn human_login(
    username: Seq<char>,
    secret: LoginSecret,
    priv_id: Option<u32>,
    priv_pass: Option<Seq<char>>,
    acting: DatabaseResult<Option<CitizenQuery>>,
    found: DatabaseResult<Option<CitizenQuery>>,
    connections: Seq<ConnectedClient>,
    this_cid: u64,
) -> Result<Option<CitizenQuery>, ReasonCode> {
    if username.len() > 0 && username[0] == '"' {
        match tourist_login_error(username, connections) {
            Some(e) => Err(e),
            None => Ok(None),
        }
    } else {
        match citizen_login(
            username,
            priv_id,
            priv_pass,
            acting,
            found,
            |c: CitizenQuery| secret_matches(secret, c),
            connections,
            this_cid,
        ) {
            Ok(c) => Ok(Some(c)),
            Err(e) => Err(e),
        }
    }
}

/// Validates a human login: a tourist (`Ok(None)`) or a citizen (`Ok(Some(..))`).
/// A name that is a single quote is left out: the slice between its quotes does not
/// exist.
pub fn validate_human_login(
    username: &str,
    secret: &LoginSecret,
    priv_id: Option<u32>,
    priv_pass: Option<&String>,
    acting: &DatabaseResult<Option<CitizenQuery>>,
    found: DatabaseResult<Option<CitizenQuery>>,
    connections: &Vec<ConnectedClient>,
    this_cid: u64,
) -> (r: Result<Option<CitizenQuery>, ReasonCode>)
    requires
        username@ != seq!['"'],
    ensures
        r == human_login(
            username@,
            *secret,
            priv_id,
            opt_text(priv_pass),
            *acting,
            found,
            connections@,
            this_cid,
        ),
{
    let v = chars_of(username);
    if v.len() > 0 && v[0] == '"' {
        check_tourist(connections, username)?;
        Ok(None)
    } else {
        let cit = match secret {
            LoginSecret::Password(p) => {
                let pr = p.as_ref();
                let r = check_citizen_v4(
                    username,
                    pr,
                    priv_id,
                    priv_pass,
                    acting,
                    found,
                    connections,
                    this_cid,
                );
                proof {
                    assert((|c: CitizenQuery| secret_matches(*secret, c)) =~= (|c: CitizenQuery|
                        password_matches(opt_text(pr), c)));
                }
                r
            },
            LoginSecret::PasswordHash(h) => {
                let hr = h.as_ref();
                let r = check_citizen_v6(
                    username,
                    hr,
                    priv_id,
                    priv_pass,
                    acting,
                    found,
                    connections,
                    this_cid,
                );
                proof {
                    assert((|c: CitizenQuery| secret_matches(*secret, c)) =~= (|c: CitizenQuery|
                        hash_matches(opt_bytes(hr), c)));
                }
                r
            },
        };
        match cit {
            Ok(c) => Ok(Some(c)),
            Err(e) => Err(e),
        }
    }
}

/// Validates a login request: only a human may log in (world servers and bots are
/// refused), and the login type, the name and the browser build must be present. A
/// human login with a name that is a single quote is left out: the slice between its
/// quotes does not exist. Every other request with that name is refused as above.
pub fn validate_login(
    user_type: Option<i32>,
    username: Option<&String>,
    browser_build: Option<i32>,
    secret: &LoginSecret,
    priv_id: Option<u32>,
    priv_pass: Option<&String>,
    acting: &DatabaseResult<Option<CitizenQuery>>,
    found: DatabaseResult<Option<CitizenQuery>>,
    connections: &Vec<ConnectedClient>,
    this_cid: u64,
) -> (r: Result<Option<CitizenQuery>, ReasonCode>)
    requires
        user_type == Some(2i32) && browser_build is Some && username is Some ==> username->0@
            != seq!['"'],
    ensures
        user_type != Some(2i32) ==> r == Err::<Option<CitizenQuery>, ReasonCode>(
            ReasonCode::NoSuchCitizen,
        ),
        username is None || browser_build is None ==> r == Err::<Option<CitizenQuery>, ReasonCode>(
            ReasonCode::NoSuchCitizen,
        ),
        user_type == Some(2i32) && username is Some && browser_build is Some ==> r == human_login(
            username->0@,
            *secret,
            priv_id,
            opt_text(priv_pass),
            *acting,
            found,
            connections@,
            this_cid,
        ),
{
    let login_type = match user_type {
        Some(n) => match LoginType::from_i32(n) {
            Some(t) => t,
            None => return Err(ReasonCode::NoSuchCitizen),
        },
        None => return Err(ReasonCode::NoSuchCitizen),
    };
    let username = match username {
        Some(u) => u,
        None => return Err(ReasonCode::NoSuchCitizen),
    };
    if browser_build.is_none() {
        return Err(ReasonCode::NoSuchCitizen);
    }
    match login_type {
        LoginType::WorldServer => Err(ReasonCode::NoSuchCitizen),
        LoginType::UnspecifiedHuman => validate_human_login(
            username.as_str(),
            secret,
            priv_id,
            priv_pass,
            acting,
            found,
            connections,
            this_cid,
        ),
        LoginType::Bot => Err(ReasonCode::NoSuchCitizen),
    }
}

/// A citizen login succeeds only with the right secret, for an enabled account that
/// no other connection uses, and a quoted name never logs in as a citizen.
pub proof fn law_login_grants(
    username: Seq<char>,
    secret: LoginSecret,
    priv_id: Option<u32>,
    priv_pass: Option<Seq<char>>,
    acting: DatabaseResult<Option<CitizenQuery>>,
    found: DatabaseResult<Option<CitizenQuery>>,
    connections: Seq<ConnectedClient>,
    this_cid: u64,
)
    ensures
        human_login(username, secret, priv_id, priv_pass, acting, found, connections, this_cid) matches Ok(
            Some(c),
        ) ==> secret_matches(secret, c) && c.enabled != 0 && !logged_in_elsewhere(
            connections,
            c.id,
            this_cid,
        ) && found == DatabaseResult::Success(Some(c)) && privilege_error(
            priv_id,
            priv_pass,
            acting,
        ) is None && citizen_username_ok(username),
        human_login(username, secret, priv_id, priv_pass, acting, found, connections, this_cid) matches Ok(
            None,
        ) ==> username[0] == '"' && !tourist_name_taken(connections, username),
{
}

/// The player a validated login creates: a tourist under the name it logged in
/// with, or the citizen under the account's name acting with the requested
/// privileges; both with the new session number, the browser build and the address.
pub fn login_player(
    identity: Option<CitizenQuery>,
    username: &str,
    priv_id: Option<u32>,
    session_id: u16,
    browser_build: i32,
    ip: [u8; 4],
) -> (p: Player)
    ensures
        identity is None ==> (p matches Player::Tourist(g) && g.username@ == username@
            && g.privilege_id is None && g.session_id == session_id && g.build_version
            == browser_build && g.ip == ip && g.serial is None && !g.afk && g.nonce is None),
        identity matches Some(c) ==> (p matches Player::Citizen(cit) && cit.cit_id == c.id
            && cit.base_player.username@ == c.name@ && cit.base_player.privilege_id == priv_id
            && cit.base_player.session_id == session_id && cit.base_player.build_version
            == browser_build && cit.base_player.ip == ip && cit.base_player.serial is None
            && !cit.base_player.afk && cit.base_player.nonce is None),
{
    match identity {
        None => Player::new_tourist(session_id, browser_build, username, ip),
        Some(c) => Player::new_citizen(c.id, priv_id, session_id, browser_build, c.name.as_str(), ip),
    }
}

/// The outcome of a login for the connection: on success the answer is `Success` and
/// the connection's client becomes the new player; on failure the answer is the
/// reason and the connection has no client any more, whatever it was logged in as.
pub fn login(result: Result<Player, ReasonCode>) -> (r: (ReasonCode, Option<ClientInfo>))
    ensures
        result matches Ok(p) ==> r == (ReasonCode::Success, Some(ClientInfo::Player(p))),
        result matches Err(e) ==> r == (e, None::<ClientInfo>),
{
    match result {
        Ok(player) => (ReasonCode::Success, Some(ClientInfo::Player(player))),
        Err(rc) => (rc, None),
    }
}

/// The name check at citizen login refuses exactly an empty name and one that starts
/// like a bot name (`[`) or a tourist name (`"`); anything else, blanks included, may go
/// on to the account lookup.
pub proof fn law_citizen_name_check(username: Seq<char>)
    ensures
        citizen_username_ok(username) <==> (username.len() > 0 && username[0] != '['
            && username[0] != '"'),
{
}

/// A name rule for new citizens: a name is accepted exactly when it takes at least two
/// bytes, neither starts nor ends with a blank, and holds only letters, digits and
/// blanks; the tourist rule is the same between the quotes, without blanks.
pub proof fn law_new_citizen_name_rule(name: Seq<char>)
    ensures
        check_name_spec(name, false, true) is None <==> (utf8_len(name) >= 2 && name[0] != ' '
            && name.last() != ' ' && forall|i: int|
            0 <= i < name.len() ==> alphanumeric(#[trigger] name[i]) || name[i] == ' '),
        check_name_spec(name, false, false) is None <==> (utf8_len(name) >= 2 && forall|i: int|
            0 <= i < name.len() ==> alphanumeric(#[trigger] name[i])),
{
    if utf8_len(name) >= 2 {
        lemma_utf8_len_nonempty(name);
        if forall|i: int| 0 <= i < name.len() ==> alphanumeric(#[trigger] name[i]) {
            assert(alphanumeric(name[0]));
            assert(alphanumeric(name[name.len() - 1]));
        }
    }
}

proof fn lemma_utf8_len_nonempty(s: Seq<char>)
    requires
        utf8_len(s) > 0,
    ensures
        s.len() > 0,
{
    if s.len() == 0 {
        assert(utf8_len(s) == 0);
    }
}

/// A citizen with a name that does not start with `[` or `"` (blanks anywhere
/// inside allowed), who asks for no acting privileges and proves its identity with
/// the right secret for an enabled account that no other connection uses, logs in as
/// that citizen.
pub proof fn law_citizen_login_succeeds(
    username: Seq<char>,
    secret: LoginSecret,
    priv_pass: Option<Seq<char>>,
    acting: DatabaseResult<Option<CitizenQuery>>,
    c: CitizenQuery,
    connections: Seq<ConnectedClient>,
    this_cid: u64,
)
    requires
        username.len() > 0,
        username[0] != '[',
        username[0] != '"',
        secret_matches(secret, c),
        c.enabled != 0,
        !logged_in_elsewhere(connections, c.id, this_cid),
    ensures
        human_login(
            username,
            secret,
            None,
            priv_pass,
            acting,
            DatabaseResult::Success(Some(c)),
            connections,
            this_cid,
        ) == Ok::<Option<CitizenQuery>, ReasonCode>(Some(c)),
{
}

/// The plain-password case stated on the inputs themselves: a citizen whose name does
/// not start with `[` or `"`, who sends the account's own non-empty password and asks
/// for no acting privileges, logs in as that account when it is enabled and no other
/// connection is logged in as it.
pub proof fn law_password_login_succeeds(
    username: Seq<char>,
    password: String,
    priv_pass: Option<Seq<char>>,
    acting: DatabaseResult<Option<CitizenQuery>>,
    c: CitizenQuery,
    connections: Seq<ConnectedClient>,
    this_cid: u64,
)
    requires
        username.len() > 0,
        username[0] != '[',
        username[0] != '"',
        password@.len() > 0,
        password@ == c.password@,
        c.enabled != 0,
        forall|i: int|
            0 <= i < connections.len() ==> (#[trigger] connections[i]).cid == this_cid || !(
            connections[i].client matches Some(ClientInfo::Player(Player::Citizen(x))) && x.cit_id
                == c.id),
    ensures
        human_login(
            username,
            LoginSecret::Password(Some(password)),
            None,
            priv_pass,
            acting,
            DatabaseResult::Success(Some(c)),
            connections,
            this_cid,
        ) == Ok::<Option<CitizenQuery>, ReasonCode>(Some(c)),
{
    assert(!logged_in_elsewhere(connections, c.id, this_cid)) by {
        if logged_in_elsewhere(connections, c.id, this_cid) {
            let i = choose|i: int|
                0 <= i < connections.len() && connections[i].cid != this_cid && is_citizen_with_id(
                    (#[trigger] connections[i]).client,
                    c.id,
                );
            assert(connections[i].cid == this_cid || !(connections[i].client matches Some(
                ClientInfo::Player(Player::Citizen(x)),
            ) && x.cit_id == c.id));
        }
    }
}

} // verus!
