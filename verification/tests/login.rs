use universe::citizen::CitizenQuery;
use universe::client::{Citizen, ClientInfo, ConnectedClient, GenericPlayer, Player};
use universe::db::DatabaseResult;
use universe::login::{
    check_citizen_privilege, check_citizen_username, check_password, check_password_hash,
    check_tourist, check_valid_login_name, check_valid_name, login, password_hash_buffer, validate_login,
    LoginSecret, LoginType,
};
use universe::reason::ReasonCode;

fn record(id: u32, name: &str, password: &str) -> CitizenQuery {
    CitizenQuery {
        id,
        changed: 0,
        name: name.to_string(),
        password: password.to_string(),
        email: String::new(),
        priv_pass: "acting".to_string(),
        comment: String::new(),
        url: String::new(),
        immigration: 0,
        expiration: 0,
        last_login: 0,
        last_address: 0,
        total_time: 0,
        bot_limit: 0,
        beta: 0,
        cav_enabled: 0,
        cav_template: 0,
        enabled: 1,
        privacy: 0,
        trial: 0,
    }
}

fn generic(name: &str) -> GenericPlayer {
    GenericPlayer {
        username: name.to_string(),
        privilege_id: None,
        session_id: 1,
        build_version: 100,
        ip: [127, 0, 0, 1],
        serial: None,
        afk: false,
        nonce: None,
    }
}

fn tourist_conn(cid: u64, name: &str) -> ConnectedClient {
    ConnectedClient { cid, client: Some(ClientInfo::Player(Player::Tourist(generic(name)))) }
}

fn citizen_conn(cid: u64, id: u32) -> ConnectedClient {
    ConnectedClient {
        cid,
        client: Some(ClientInfo::Player(Player::Citizen(Citizen { cit_id: id, base_player: generic("Alice") }))),
    }
}

fn digest_of(password: &str) -> Vec<u8> {
    let mut buf = (password.len() as u32).to_le_bytes().to_vec();
    buf.extend(password.as_bytes().iter().rev());
    md5::compute(buf).0.to_vec()
}

#[test]
fn login_types_by_number() {
    assert_eq!(LoginType::from_i32(1), Some(LoginType::WorldServer));
    assert_eq!(LoginType::from_i32(2), Some(LoginType::UnspecifiedHuman));
    assert_eq!(LoginType::from_i32(3), Some(LoginType::Bot));
    assert_eq!(LoginType::from_i32(4), None);
    assert_eq!(LoginType::from_i32(0), None);
}

#[test]
fn names_of_new_citizens() {
    assert_eq!(check_valid_name("ab", false), Ok(()));
    assert_eq!(check_valid_name("a b", false), Ok(()));
    assert_eq!(check_valid_name("a", false), Err(ReasonCode::NameTooShort));
    assert_eq!(check_valid_name("ab ", false), Err(ReasonCode::NameEndsWithBlank));
    assert_eq!(check_valid_name(" ab", false), Err(ReasonCode::NameContainsInvalidBlank));
    assert_eq!(check_valid_name("a-b", false), Err(ReasonCode::NameContainsNonalphanumericChar));
    assert_eq!(check_valid_name("é1", false), Ok(()));
    assert_eq!(check_valid_name("\"ab\"", true), Ok(()));
    assert_eq!(check_valid_name("ab", true), Err(ReasonCode::NoSuchCitizen));
}

#[test]
fn names_at_login() {
    assert_eq!(check_valid_login_name("\"ab\"", true), Ok(()));
    assert_eq!(check_valid_login_name("\"a b\"", true), Err(ReasonCode::NameContainsNonalphanumericChar));
    assert_eq!(check_valid_login_name("\"a\"", true), Err(ReasonCode::NameTooShort));
    assert_eq!(check_valid_login_name("\"\"", true), Err(ReasonCode::NameTooShort));
    assert_eq!(check_citizen_username(""), Err(ReasonCode::NoSuchCitizen));
    assert_eq!(check_citizen_username("[bot"), Err(ReasonCode::NoSuchCitizen));
    assert_eq!(check_citizen_username("\"x"), Err(ReasonCode::NoSuchCitizen));
    assert_eq!(check_citizen_username("Alice"), Ok(()));
}

#[test]
fn acting_privileges() {
    let acting = DatabaseResult::Success(Some(record(5, "Boss", "pw")));
    let pass = "acting".to_string();
    let wrong = "nope".to_string();
    assert_eq!(check_citizen_privilege(None, None, &DatabaseResult::DatabaseError), Ok(()));
    assert_eq!(check_citizen_privilege(Some(0), None, &DatabaseResult::DatabaseError), Ok(()));
    assert_eq!(check_citizen_privilege(Some(5), Some(&pass), &acting), Ok(()));
    assert_eq!(check_citizen_privilege(Some(5), Some(&wrong), &acting), Err(ReasonCode::ActingPasswordInvalid));
    assert_eq!(check_citizen_privilege(Some(5), None, &acting), Err(ReasonCode::ActingPasswordInvalid));
    assert_eq!(check_citizen_privilege(Some(5), Some(&pass), &DatabaseResult::Success(None)), Err(ReasonCode::NoSuchActingCitizen));
    let mut disabled = record(5, "Boss", "pw");
    disabled.enabled = 0;
    assert_eq!(check_citizen_privilege(Some(5), Some(&pass), &DatabaseResult::Success(Some(disabled))), Err(ReasonCode::NoSuchActingCitizen));
    let mut admin = record(1, "Admin", "pw");
    admin.enabled = 0;
    assert_eq!(check_citizen_privilege(Some(1), Some(&pass), &DatabaseResult::Success(Some(admin))), Ok(()));
}

#[test]
fn plain_passwords() {
    let c = record(2, "Alice", "secret");
    let right = "secret".to_string();
    let empty = String::new();
    assert_eq!(check_password(Some(&right), &c), Ok(()));
    assert_eq!(check_password(Some(&empty), &c), Err(ReasonCode::InvalidPassword));
    assert_eq!(check_password(None, &c), Err(ReasonCode::InvalidPassword));
}

#[test]
fn hashed_passwords_use_md5() {
    let c = record(2, "Alice", "secret");
    let buf = password_hash_buffer("secret");
    assert_eq!(buf, vec![6, 0, 0, 0, b't', b'e', b'r', b'c', b'e', b's']);
    let good = digest_of("secret");
    assert_eq!(check_password_hash(&c, Some(&good)), Ok(()));
    let bad = digest_of("secreT");
    assert_eq!(check_password_hash(&c, Some(&bad)), Err(ReasonCode::InvalidPassword));
    assert_eq!(check_password_hash(&c, Some(&buf)), Err(ReasonCode::InvalidPassword));
    assert_eq!(check_password_hash(&c, None), Err(ReasonCode::InvalidPassword));
}

#[test]
fn tourists_need_free_names() {
    let conns = vec![tourist_conn(1, "\"Tom\""), citizen_conn(2, 7)];
    assert_eq!(check_tourist(&conns, "\"Tom\""), Err(ReasonCode::NameAlreadyUsed));
    assert_eq!(check_tourist(&conns, "\"Tim\""), Ok(()));
    assert_eq!(check_tourist(&conns, "\"T\""), Err(ReasonCode::NameTooShort));
}

#[test]
fn login_requests() {
    let conns = vec![tourist_conn(1, "\"Tom\""), citizen_conn(2, 7)];
    let name = "Alice".to_string();
    let tourist = "\"Tim\"".to_string();
    let secret = LoginSecret::Password(Some("secret".to_string()));
    let found = || DatabaseResult::Success(Some(record(3, "Alice", "secret")));
    let none = DatabaseResult::Success(None);
    // World servers and bots cannot log in; missing variables refuse the login.
    assert_eq!(validate_login(Some(1), Some(&name), Some(1), &secret, None, None, &none, found(), &conns, 9).err(), Some(ReasonCode::NoSuchCitizen));
    assert_eq!(validate_login(Some(3), Some(&name), Some(1), &secret, None, None, &none, found(), &conns, 9).err(), Some(ReasonCode::NoSuchCitizen));
    assert_eq!(validate_login(None, Some(&name), Some(1), &secret, None, None, &none, found(), &conns, 9).err(), Some(ReasonCode::NoSuchCitizen));
    assert_eq!(validate_login(Some(2), None, Some(1), &secret, None, None, &none, found(), &conns, 9).err(), Some(ReasonCode::NoSuchCitizen));
    assert_eq!(validate_login(Some(2), Some(&name), None, &secret, None, None, &none, found(), &conns, 9).err(), Some(ReasonCode::NoSuchCitizen));
    // A citizen.
    let ok = validate_login(Some(2), Some(&name), Some(1), &secret, None, None, &none, found(), &conns, 9).unwrap();
    assert_eq!(ok.map(|c| c.id), Some(3));
    // A tourist.
    assert!(matches!(validate_login(Some(2), Some(&tourist), Some(1), &secret, None, None, &none, found(), &conns, 9), Ok(None)));
    // Wrong password, unknown name, disabled, in use elsewhere.
    let wrong = LoginSecret::Password(Some("other".to_string()));
    assert_eq!(validate_login(Some(2), Some(&name), Some(1), &wrong, None, None, &none, found(), &conns, 9).err(), Some(ReasonCode::InvalidPassword));
    assert_eq!(validate_login(Some(2), Some(&name), Some(1), &secret, None, None, &none, DatabaseResult::Success(None), &conns, 9).err(), Some(ReasonCode::NoSuchCitizen));
    let mut disabled = record(3, "Alice", "secret");
    disabled.enabled = 0;
    assert_eq!(validate_login(Some(2), Some(&name), Some(1), &secret, None, None, &none, DatabaseResult::Success(Some(disabled)), &conns, 9).err(), Some(ReasonCode::CitizenDisabled));
    let busy = vec![citizen_conn(4, 3)];
    assert_eq!(validate_login(Some(2), Some(&name), Some(1), &secret, None, None, &none, found(), &busy, 9).err(), Some(ReasonCode::IdentityAlreadyInUse));
    assert!(validate_login(Some(2), Some(&name), Some(1), &secret, None, None, &none, found(), &busy, 4).is_ok());
    // The hashed protocol.
    let hashed = LoginSecret::PasswordHash(Some(digest_of("secret")));
    assert!(validate_login(Some(2), Some(&name), Some(1), &hashed, None, None, &none, found(), &conns, 9).is_ok());
}

#[test]
fn new_players() {
    let t = Player::new_tourist(4, 77, "\"Tim\"", [10, 0, 0, 2]);
    assert!(matches!(&t, Player::Tourist(g) if g.username == "\"Tim\"" && g.session_id == 4 && g.privilege_id.is_none()));
    let c = Player::new_citizen(3, Some(5), 6, 77, "Alice", [10, 0, 0, 2]);
    assert_eq!(c.citizen_id(), Some(3));
    assert_eq!(c.base_player().privilege_id, Some(5));
    assert!(!c.base_player().afk);
}

#[test]
fn login_outcome_for_the_connection() {
    let (rc, client) = login(Ok(Player::new_tourist(1, 2, "\"Tim\"", [1, 1, 1, 1])));
    assert_eq!(rc, ReasonCode::Success);
    assert!(client.unwrap().tourist().is_some());
    let (rc, client) = login(Err(ReasonCode::InvalidPassword));
    assert_eq!(rc, ReasonCode::InvalidPassword);
    assert!(client.is_none());
}
