use vstd::prelude::*;

use crate::client::{is_admin, ClientInfo};
use crate::db::{row_int, row_text, row_u32, DatabaseResult, Row, RowModel};
use crate::reason::ReasonCode;
use crate::text::chars_of;

verus! {

/// A world license as the license table stores it.
#[derive(Debug)]
pub struct LicenseQuery {
    pub id: u32,
    pub name: String,
    pub password: String,
    pub email: String,
    pub comment: String,
    pub creation: u32,
    pub expiration: u32,
    pub last_start: u32,
    pub last_address: u32,
    pub users: u32,
    pub world_size: u32,
    pub hidden: u32,
    pub changed: u32,
    pub tourists: u32,
    pub voip: u32,
    pub plugins: u32,
}

/// Every column that a license needs is present and in range.
pub open spec fn license_row_complete(r: RowModel) -> bool {
    &&& row_u32(r, "ID"@) is Some
    &&& row_text(r, "Name"@) is Some
    &&& row_text(r, "Password"@) is Some
    &&& row_text(r, "Email"@) is Some
    &&& row_text(r, "Comment"@) is Some
    &&& row_u32(r, "Creation"@) is Some
    &&& row_u32(r, "Expiration"@) is Some
    &&& row_u32(r, "LastStart"@) is Some
    &&& row_int(r, "LastAddress"@) is Some
    &&& row_u32(r, "Users"@) is Some
    &&& row_u32(r, "WorldSize"@) is Some
    &&& row_u32(r, "Hidden"@) is Some
    &&& row_u32(r, "Changed"@) is Some
    &&& row_u32(r, "Tourists"@) is Some
    &&& row_u32(r, "Voip"@) is Some
    &&& row_u32(r, "Plugins"@) is Some
}

/// `l` holds exactly the values of the row; a negative stored last address is kept
/// modulo 2^32.
pub open spec fn license_matches_row(l: LicenseQuery, r: RowModel) -> bool {
    &&& row_u32(r, "ID"@) == Some(l.id)
    &&& row_text(r, "Name"@) == Some(l.name@)
    &&& row_text(r, "Password"@) == Some(l.password@)
    &&& row_text(r, "Email"@) == Some(l.email@)
    &&& row_text(r, "Comment"@) == Some(l.comment@)
    &&& row_u32(r, "Creation"@) == Some(l.creation)
    &&& row_u32(r, "Expiration"@) == Some(l.expiration)
    &&& row_u32(r, "LastStart"@) == Some(l.last_start)
    &&& row_int(r, "LastAddress"@) matches Some(a) && l.last_address == a as u32
    &&& row_u32(r, "Users"@) == Some(l.users)
    &&& row_u32(r, "WorldSize"@) == Some(l.world_size)
    &&& row_u32(r, "Hidden"@) == Some(l.hidden)
    &&& row_u32(r, "Changed"@) == Some(l.changed)
    &&& row_u32(r, "Tourists"@) == Some(l.tourists)
    &&& row_u32(r, "Voip"@) == Some(l.voip)
    &&& row_u32(r, "Plugins"@) == Some(l.plugins)
}

/// Reads a license from a row of the license table.
pub fn fetch_license(row: &Row) -> (r: DatabaseResult<LicenseQuery>)
    ensures
        r is Success <==> license_row_complete(row@),
        r matches DatabaseResult::Success(l) ==> license_matches_row(l, row@),
{
    let id = match row.fetch_u32("ID") {
        Some(x) => x,
        None => return DatabaseResult::DatabaseError,
    };
    let name = match row.fetch_string("Name") {
        Some(x) => x,
        None => return DatabaseResult::DatabaseError,
    };
    let password = match row.fetch_string("Password") {
        Some(x) => x,
        None => return DatabaseResult::DatabaseError,
    };
    let email = match row.fetch_string("Email") {
        Some(x) => x,
        None => return DatabaseResult::DatabaseError,
    };
    let comment = match row.fetch_string("Comment") {
        Some(x) => x,
        None => return DatabaseResult::DatabaseError,
    };
    let creation = match row.fetch_u32("Creation") {
        Some(x) => x,
        None => return DatabaseResult::DatabaseError,
    };
    let expiration = match row.fetch_u32("Expiration") {
        Some(x) => x,
        None => return DatabaseResult::DatabaseError,
    };
    let last_start = match row.fetch_u32("LastStart") {
        Some(x) => x,
        None => return DatabaseResult::DatabaseError,
    };
    // A negative stored address is kept by its low 32 bits.
    let last_address = match row.fetch_int("LastAddress") {
        Some(x) => x as u32,
        None => return DatabaseResult::DatabaseError,
    };
    let users = match row.fetch_u32("Users") {
        Some(x) => x,
        None => return DatabaseResult::DatabaseError,
    };
    let world_size = match row.fetch_u32("WorldSize") {
        Some(x) => x,
        None => return DatabaseResult::DatabaseError,
    };
    let hidden = match row.fetch_u32("Hidden") {
        Some(x) => x,
        None => return DatabaseResult::DatabaseError,
    };
    let changed = match row.fetch_u32("Changed") {
        Some(x) => x,
        None => return DatabaseResult::DatabaseError,
    };
    let tourists = match row.fetch_u32("Tourists") {
        Some(x) => x,
        None => return DatabaseResult::DatabaseError,
    };
    let voip = match row.fetch_u32("Voip") {
        Some(x) => x,
        None => return DatabaseResult::DatabaseError,
    };
    let plugins = match row.fetch_u32("Plugins") {
        Some(x) => x,
        None => return DatabaseResult::DatabaseError,
    };
    DatabaseResult::Success(
        LicenseQuery {
            id,
            name,
            password,
            email,
            comment,
            expiration,
            last_start,
            last_address,
            users,
            world_size,
            hidden,
            changed,
            tourists,
            voip,
            plugins,
            creation,
        },
    )
}

/// The license that a lookup by name (or the next or previous name) finds: none for no
/// row, the license of the only row, and a database error if several rows come back or
/// the row is unreadable.
pub fn license_from_rows(rows: &Vec<Row>) -> (r: DatabaseResult<Option<LicenseQuery>>)
    ensures
        rows@.len() > 1 ==> r is DatabaseError,
        rows@.len() == 0 ==> r matches DatabaseResult::Success(None),
        rows@.len() == 1 ==> (r is Success <==> license_row_complete(rows@[0]@)),
        rows@.len() == 1 ==> (r matches DatabaseResult::Success(found) ==> found matches Some(
            l,
        ) && license_matches_row(l, rows@[0]@)),
{
    if rows.len() > 1 {
        return DatabaseResult::DatabaseError;
    }
    if rows.len() == 0 {
        return DatabaseResult::Success(None);
    }
    match fetch_license(&rows[0]) {
        DatabaseResult::Success(l) => DatabaseResult::Success(Some(l)),
        DatabaseResult::DatabaseError => DatabaseResult::DatabaseError,
    }
}

/// The client may use the administrator functions.
pub open spec fn client_is_admin(client: Option<ClientInfo>) -> bool {
    client matches Some(c) && is_admin(c)
}

fn admin_client(client: &Option<ClientInfo>) -> (b: bool)
    ensures
        b == client_is_admin(*client),
{
    match client {
        Some(c) => c.has_admin_permissions(),
        None => false,
    }
}

/// The first checks of a license add: the packet must name a world, the client must be
/// an administrator, and the name must be nonempty without blanks.
#[verifier::loop_isolation(false)]
pub fn license_add_start(client: &Option<ClientInfo>, world_name: Option<&String>) -> (r: Result<
    (),
    ReasonCode,
>)
    ensures
        world_name is None ==> r == Err::<(), ReasonCode>(ReasonCode::NameContainsInvalidBlank),
        world_name is Some && !client_is_admin(*client) ==> r == Err::<(), ReasonCode>(
            ReasonCode::Unauthorized,
        ),
        world_name is Some && client_is_admin(*client) ==> (r is Ok <==> (world_name->0@.len() > 0
            && !world_name->0@.contains(' '))),
        world_name is Some && client_is_admin(*client) && r is Err ==> r == Err::<(), ReasonCode>(
            ReasonCode::NoSuchLicense,
        ),
{
    let name = match world_name {
        Some(n) => n,
        None => return Err(ReasonCode::NameContainsInvalidBlank),
    };
    if !admin_client(client) {
        return Err(ReasonCode::Unauthorized);
    }
    let v = chars_of(name.as_str());
    if v.len() == 0 {
        return Err(ReasonCode::NoSuchLicense);
    }
    let mut i: usize = 0;
    while i < v.len()
        invariant
            0 <= i <= v@.len(),
            v@ == name@,
            forall|j: int| 0 <= j < i ==> v@[j] != ' ',
        decreases v@.len() - i,
    {
        if v[i] == ' ' {
            assert(name@[i as int] == ' ');
            return Err(ReasonCode::NoSuchLicense);
        }
        i = i + 1;
    }
    Ok(())
}

/// Decides a license add once the license was read from the packet: no license may
/// have its name yet, and the world name must pass the world name check
/// (`name_check`); `Ok` means the license is to be inserted.
pub fn license_add(
    existing: &DatabaseResult<Option<LicenseQuery>>,
    name_check: Result<(), ReasonCode>,
) -> (r: Result<(), ReasonCode>)
    ensures
        existing matches DatabaseResult::Success(Some(_)) ==> r == Err::<(), ReasonCode>(
            ReasonCode::WorldAlreadyExists,
        ),
        existing is DatabaseError ==> r == Err::<(), ReasonCode>(ReasonCode::DatabaseError),
        existing matches DatabaseResult::Success(None) ==> r == name_check,
{
    match existing {
        DatabaseResult::Success(Some(_)) => return Err(ReasonCode::WorldAlreadyExists),
        DatabaseResult::Success(None) => {},
        DatabaseResult::DatabaseError => return Err(ReasonCode::DatabaseError),
    }
    name_check
}

/// The answer once the license was inserted.
pub fn license_inserted(inserted: &DatabaseResult<()>) -> (rc: ReasonCode)
    ensures
        inserted is Success ==> rc == ReasonCode::Success,
        inserted is DatabaseError ==> rc == ReasonCode::UnableToInsertName,
{
    match inserted {
        DatabaseResult::Success(_) => ReasonCode::Success,
        DatabaseResult::DatabaseError => ReasonCode::UnableToInsertName,
    }
}

/// Whether a license removal is made: only for an administrator naming a world.
pub fn license_delete(client: &Option<ClientInfo>, world_name: Option<&String>) -> (b: bool)
    ensures
        b == (client_is_admin(*client) && world_name is Some),
{
    admin_client(client) && world_name.is_some()
}

/// The private key a universe license is signed with.
#[derive(Clone, Copy, Debug, PartialEq, Eq, Structural)]
pub enum LicenseKey {
    /// The key of the Vortex 5.1 and Miuchiz R7 browsers.
    Vortex,
    /// The key of every other browser.
    Aw,
}

/// The key a license for a browser of this build is signed with: builds 1217 and
/// 2007 use the Vortex key, every other build (or none) the regular one.
pub fn license_key_for_build(build_version: Option<i32>) -> (k: LicenseKey)
    ensures
        k == (if build_version == Some(1217i32) || build_version == Some(2007i32) {
            LicenseKey::Vortex
        } else {
            LicenseKey::Aw
        }),
{
    match build_version {
        Some(1217) | Some(2007) => LicenseKey::Vortex,
        _ => LicenseKey::Aw,
    }
}

} // verus!
