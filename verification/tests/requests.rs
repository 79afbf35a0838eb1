use universe::attrib::{attribute_change, Attribute};
use universe::botgram::{
    bot_botgram, botgram_start, invite, BotgramOutcome, BotgramParams, BotgramSource, BotgramStep,
    BotgramType,
};
use universe::citizen::{
    citizen_change, citizen_delete, citizen_next, citizen_prev, immigrate, try_add_citizen,
    CitizenQuery, ImmigrateParams,
};
use universe::client::{Bot, Citizen, ClientInfo, ConnectedClient, GenericPlayer, Player, WorldServer};
use universe::db::DatabaseResult;
use universe::eject::{eject_delete, eject_lookup, eject_lookup_by_method, EjectionQuery};
use universe::join::{join, join_reply, join_request, join_start, send_join_request, JoinLocation, JoinStep};
use universe::license::{
    license_add, license_add_start, license_delete, license_inserted, license_key_for_build,
    LicenseKey,
};
use universe::reason::ReasonCode;
use universe::telegram::{
    telegram_get, telegram_reader, telegram_send_start, telegram_sent, try_send_telegram_from_packet,
    try_telegram_get, TelegramQuery,
};
use universe::citizen::{
    citizen_add_start, citizen_changed, get_cav, init_citizen, CitizenAddFields,
    CitizenLookupByNameParams, CitizenLookupParamsError, CitizenNextParams,
};
use universe::login::login_player;
use universe::timestamp::{timestamp_from_secs, unix_epoch_timestamp_str, unix_epoch_timestamp_u32};
use universe::world::{ip_to_num, nonce_from_random, world_lookup, WorldEntry, WorldLookupReply};

fn generic(name: &str, privilege_id: Option<u32>) -> GenericPlayer {
    GenericPlayer {
        username: name.to_string(),
        privilege_id,
        session_id: 1,
        build_version: 100,
        ip: [127, 0, 0, 1],
        serial: None,
        afk: false,
        nonce: None,
    }
}

fn citizen(id: u32, name: &str) -> ClientInfo {
    ClientInfo::Player(Player::Citizen(Citizen { cit_id: id, base_player: generic(name, Some(0)) }))
}

fn bot(name: &str, owner: u32) -> ClientInfo {
    ClientInfo::Player(Player::Bot(Bot { base_player: generic(name, Some(owner)) }))
}

fn record(id: u32, name: &str) -> CitizenQuery {
    CitizenQuery {
        id,
        changed: 0,
        name: name.to_string(),
        password: "secret".to_string(),
        email: String::new(),
        priv_pass: String::new(),
        comment: String::new(),
        url: String::new(),
        immigration: 0,
        expiration: 0,
        last_login: 0,
        last_address: 0,
        total_time: 0,
        bot_limit: 0,
        beta: 0,
        cav_enabled: 0,
        cav_template: 0,
        enabled: 1,
        privacy: 0,
        trial: 0,
    }
}

fn connections() -> Vec<ConnectedClient> {
    vec![
        ConnectedClient { cid: 10, client: Some(bot("[a]", 5)) },
        ConnectedClient { cid: 11, client: Some(citizen(5, "Eve")) },
        ConnectedClient { cid: 12, client: None },
        ConnectedClient { cid: 13, client: Some(bot("[b]", 6)) },
        ConnectedClient { cid: 14, client: Some(bot("[c]", 5)) },
    ]
}

fn params(kind: BotgramType, message: &str) -> BotgramParams {
    BotgramParams { citizen_number: 5, botgram_type: kind, message: message.to_string() }
}

#[test]
fn botgram_kinds_and_params() {
    assert_eq!(BotgramType::from_u32(0), Some(BotgramType::Botgram));
    assert_eq!(BotgramType::from_u32(1), Some(BotgramType::Invite));
    assert_eq!(BotgramType::from_u32(2), None);
    assert_eq!(BotgramType::Invite.to_u32(), 1);
    assert!(BotgramParams::from_packet(Some(5), Some(7), Some("x".to_string())).is_none());
    assert!(BotgramParams::from_packet(None, Some(0), Some("x".to_string())).is_none());
    let p = BotgramParams::from_packet(Some(5), Some(1), Some("x".to_string())).unwrap();
    assert_eq!((p.citizen_number, p.botgram_type, p.message.as_str()), (5, BotgramType::Invite, "x"));
}

#[test]
fn botgram_first_step() {
    let uri = "aw://example.com:1234/world/raw/-52,-7499,681,870";
    let sender = Some(citizen(3, "Bob"));
    assert!(matches!(botgram_start(&None, &params(BotgramType::Botgram, "hi")), BotgramStep::Reply(ReasonCode::NotLoggedIn)));
    let world = Some(ClientInfo::WorldServer(WorldServer { build: 1 }));
    assert!(matches!(botgram_start(&world, &params(BotgramType::Botgram, "hi")), BotgramStep::Reply(ReasonCode::NotLoggedIn)));
    assert!(matches!(botgram_start(&sender, &params(BotgramType::Invite, "not a uri")), BotgramStep::Ignore));
    match botgram_start(&sender, &params(BotgramType::Invite, uri)) {
        BotgramStep::AskContact { target, source } => {
            assert_eq!(target, 5);
            assert_eq!(source.id, 3);
            assert_eq!(source.username, "Bob");
        }
        other => panic!("unexpected {other:?}"),
    }
    let acting = Some(bot("[x]", 9));
    match botgram_start(&acting, &params(BotgramType::Botgram, "hi")) {
        BotgramStep::AskContact { source, .. } => assert_eq!(source.id, 9),
        other => panic!("unexpected {other:?}"),
    }
}

#[test]
fn botgram_delivery() {
    let conns = connections();
    let source = || BotgramSource { id: 3, username: "Bob".to_string() };
    match invite(params(BotgramType::Invite, "uri"), source(), DatabaseResult::Success(true), &conns) {
        BotgramOutcome::Forward { targets, packet } => {
            assert_eq!(targets, vec![11, 10, 14]);
            assert_eq!(packet.from_citizen, 3);
            assert_eq!(packet.from_username, "Bob");
            assert_eq!(packet.message, "uri");
        }
        other => panic!("unexpected {other:?}"),
    }
    match bot_botgram(params(BotgramType::Botgram, "hi"), source(), DatabaseResult::Success(true), &conns) {
        BotgramOutcome::Forward { targets, .. } => assert_eq!(targets, vec![10, 14]),
        other => panic!("unexpected {other:?}"),
    }
    assert!(matches!(invite(params(BotgramType::Invite, "u"), source(), DatabaseResult::Success(false), &conns), BotgramOutcome::Reply(ReasonCode::JoinRefused)));
    assert!(matches!(bot_botgram(params(BotgramType::Botgram, "u"), source(), DatabaseResult::Success(false), &conns), BotgramOutcome::Reply(ReasonCode::TelegramBlocked)));
    assert!(matches!(bot_botgram(params(BotgramType::Botgram, "u"), source(), DatabaseResult::DatabaseError, &conns), BotgramOutcome::Ignore));
}

#[test]
fn joining_other_citizens() {
    let conns = connections();
    assert_eq!(join_start(&None, Some(5), &conns), JoinStep::Ignore);
    assert_eq!(join_start(&Some(citizen(3, "Bob")), None, &conns), JoinStep::Ignore);
    assert_eq!(join_start(&Some(citizen(3, "Bob")), Some(8), &conns), JoinStep::Refuse(ReasonCode::NotLoggedIn));
    assert_eq!(join_start(&Some(citizen(3, "Bob")), Some(5), &conns), JoinStep::AskContact { source: 3, target: 5, target_cid: 11 });
    assert_eq!(join_request(DatabaseResult::DatabaseError, DatabaseResult::Success(true)), Err(ReasonCode::DatabaseError));
    assert_eq!(join_request(DatabaseResult::Success(true), DatabaseResult::DatabaseError), Err(ReasonCode::DatabaseError));
    assert_eq!(join_request(DatabaseResult::Success(false), DatabaseResult::Success(true)), Err(ReasonCode::JoinRefused));
    assert_eq!(join_request(DatabaseResult::Success(true), DatabaseResult::Success(false)), Err(ReasonCode::NotLoggedIn));
    assert_eq!(join_request(DatabaseResult::Success(true), DatabaseResult::Success(true)), Ok(()));
    assert_eq!(join(false, false), Err(ReasonCode::JoinRefused));
    assert_eq!(send_join_request(&Some(citizen(3, "Bob"))), Some((3, "Bob".to_string())));
    assert_eq!(send_join_request(&Some(bot("[x]", 3))), None);
}

#[test]
fn join_replies() {
    let conns = connections();
    let location = || Some(JoinLocation { world: "aw".to_string(), north: 1, height: 2, west: 3, rotation: 4 });
    let answerer = Some(citizen(3, "Bob"));
    let r = join_reply(&answerer, Some(5), Some(0), location(), &conns).unwrap();
    assert_eq!((r.target_cid, r.citizen_number, r.reason_code), (11, 3, 0));
    assert_eq!(r.location.unwrap().world, "aw");
    assert!(join_reply(&answerer, Some(5), Some(0), None, &conns).is_none());
    let r = join_reply(&answerer, Some(5), Some(7), location(), &conns).unwrap();
    assert!(r.location.is_none());
    assert!(join_reply(&answerer, Some(8), Some(0), location(), &conns).is_none());
    assert!(join_reply(&Some(bot("[x]", 3)), Some(5), Some(0), location(), &conns).is_none());
}

#[test]
fn telegram_sending() {
    assert_eq!(telegram_send_start(&None, Some("A".into()), Some("m".into())).err(), Some(ReasonCode::NotLoggedIn));
    let me = Some(citizen(3, "Bob"));
    assert_eq!(telegram_send_start(&me, None, Some("m".into())).err(), Some(ReasonCode::NoSuchCitizen));
    assert_eq!(telegram_send_start(&me, Some("A".into()), None).err(), Some(ReasonCode::UnableToSendTelegram));
    assert_eq!(telegram_send_start(&me, Some("A".into()), Some("m".into())).unwrap(), (3, "A".to_string(), "m".to_string()));
    let target = DatabaseResult::Success(Some(record(8, "Ann")));
    assert_eq!(try_send_telegram_from_packet(3, &DatabaseResult::Success(None), true, true, "m".into(), 50).err(), Some(ReasonCode::NoSuchCitizen));
    assert_eq!(try_send_telegram_from_packet(3, &target, true, false, "m".into(), 50).err(), Some(ReasonCode::TelegramBlocked));
    let t = try_send_telegram_from_packet(3, &target, true, true, "m".into(), 50).unwrap();
    assert_eq!((t.citizen, t.from, t.timestamp, t.message.as_str()), (8, 3, 50, "m"));
    assert_eq!(telegram_sent(&DatabaseResult::DatabaseError), ReasonCode::UnableToSendTelegram);
    assert_eq!(telegram_sent(&DatabaseResult::Success(())), ReasonCode::Success);
}

fn telegram(id: u32, timestamp: u32) -> TelegramQuery {
    TelegramQuery { id, citizen: 3, from: 8, timestamp, message: format!("t{id}"), delivered: 0 }
}

#[test]
fn telegram_delivery() {
    assert_eq!(telegram_reader(&Some(bot("[x]", 3))), Err(ReasonCode::UnableToGetTelegram));
    assert_eq!(telegram_reader(&Some(citizen(3, "Bob"))), Ok(3));
    assert!(matches!(try_telegram_get(DatabaseResult::DatabaseError), Err(ReasonCode::DatabaseError)));
    assert!(matches!(try_telegram_get(DatabaseResult::Success(vec![])), Err(ReasonCode::UnableToGetTelegram)));
    let (first, more) = try_telegram_get(DatabaseResult::Success(vec![telegram(1, 10), telegram(2, 20)])).unwrap();
    assert_eq!((first.id, more), (1, true));
    let (_, more) = try_telegram_get(DatabaseResult::Success(vec![telegram(2, 20)])).unwrap();
    assert!(!more);
    let d = telegram_get(telegram(1, 10), false, DatabaseResult::Success(Some(record(8, "Ann"))), 25).unwrap();
    assert_eq!((d.from_name.as_str(), d.age, d.message.as_str()), ("Ann", 15, "t1"));
    let d = telegram_get(telegram(1, 30), true, DatabaseResult::Success(None), 25).unwrap();
    assert_eq!((d.from_name.as_str(), d.age, d.more_remain), ("<unknown>", 0, true));
    assert!(matches!(telegram_get(telegram(1, 10), false, DatabaseResult::DatabaseError, 25), Err(ReasonCode::DatabaseError)));
}

#[test]
fn world_lookups() {
    assert_eq!(ip_to_num(Some([1, 2, 3, 4])), 0x0403_0201);
    assert_eq!(ip_to_num(Some([127, 0, 0, 1])), u32::from_le_bytes([127, 0, 0, 1]));
    assert_eq!(ip_to_num(None), 0);
    let random: Vec<u8> = (0..=255).map(|x| x as u8).collect();
    let nonce = nonce_from_random(&random);
    assert_eq!(nonce.len(), 255);
    assert_eq!(nonce[254], 254);
    let world = WorldEntry { name: "aw".into(), ipv4: Some([10, 0, 0, 1]), port: 5670, max_users: 50, world_size: 40 };
    let mut client = Some(citizen(3, "Bob"));
    match world_lookup(Some(&world), &mut client) {
        WorldLookupReply::Found { address, port, users, range, nonce } => {
            assert_eq!((address, port, users, range), (0x0100_000a, 5670, 50, 40));
            assert_eq!(nonce.len(), 255);
            assert_eq!(client.as_ref().unwrap().player_info().unwrap().nonce.as_ref(), Some(&nonce));
        }
        other => panic!("unexpected {other:?}"),
    }
    let mut server = Some(ClientInfo::WorldServer(WorldServer { build: 1 }));
    assert!(matches!(world_lookup(Some(&world), &mut server), WorldLookupReply::NotPlayer));
    assert!(matches!(world_lookup(None, &mut client), WorldLookupReply::NoSuchWorld));
    assert_eq!(WorldLookupReply::NoSuchWorld.reason_code(), Some(ReasonCode::NoSuchWorld));
}

#[test]
fn attribute_changes() {
    let vars = vec![(12u64, "Welcome".to_string()), (11, "now".to_string()), (5, "1".to_string()), (0, "Y".to_string())];
    assert!(attribute_change(false, &vars).is_none());
    let c = attribute_change(true, &vars).unwrap();
    assert!(c.complete);
    let sets: Vec<(Attribute, &str)> = c.sets.iter().map(|(a, v)| (*a, v.as_str())).collect();
    assert_eq!(sets, vec![(Attribute::WelcomeMessage, "Welcome"), (Attribute::AllowTourists, "Y")]);
    let vars = vec![(12u64, "Hi".to_string()), (99, "bad".to_string()), (0, "Y".to_string())];
    let c = attribute_change(true, &vars).unwrap();
    assert!(!c.complete);
    assert_eq!(c.sets.len(), 1);
}

#[test]
fn citizen_admin_requests() {
    assert_eq!(citizen_next(5), 6);
    assert_eq!(citizen_next(u32::MAX), u32::MAX);
    assert_eq!(citizen_prev(5), 4);
    assert_eq!(citizen_prev(0), 0);
    assert_eq!(citizen_prev(citizen_next(41)), 41);
    assert_eq!(citizen_delete(&DatabaseResult::DatabaseError), ReasonCode::UnableToDeleteCitizen);
    assert_eq!(citizen_delete(&DatabaseResult::Success(())), ReasonCode::Success);
    assert_eq!(immigrate(&DatabaseResult::Success(())), ReasonCode::Success);
    assert_eq!(immigrate(&DatabaseResult::DatabaseError), ReasonCode::DatabaseError);
    assert!(ImmigrateParams::from_packet(Some("a".into()), None, Some("e".into())).is_none());
    let p = ImmigrateParams::from_packet(Some("a".into()), Some("p".into()), Some("e".into())).unwrap();
    assert_eq!((p.name.as_str(), p.password.as_str(), p.email.as_str()), ("a", "p", "e"));
}

#[test]
fn adding_citizens() {
    let free = DatabaseResult::Success(None);
    let taken = DatabaseResult::Success(Some(record(4, "Ann")));
    assert_eq!(try_add_citizen(record(7, "Ann"), false, false, None, None, None, &free, &free).err(), Some(ReasonCode::Unauthorized));
    assert_eq!(try_add_citizen(record(7, "Ann"), true, false, None, None, None, &taken, &free).err(), Some(ReasonCode::NameAlreadyUsed));
    assert_eq!(try_add_citizen(record(7, "Ann"), true, false, None, None, None, &free, &taken).err(), Some(ReasonCode::NumberAlreadyUsed));
    assert_eq!(try_add_citizen(record(7, "Ann"), true, false, None, None, None, &DatabaseResult::DatabaseError, &free).err(), Some(ReasonCode::DatabaseError));
    assert_eq!(try_add_citizen(record(0x8000_0000, "Ann"), true, false, None, None, None, &free, &free).err(), Some(ReasonCode::UnableToInsertCitizen));
    let (c, next) = try_add_citizen(record(0, "Ann"), true, true, Some(5), None, Some(9), &free, &free).unwrap();
    assert!(next);
    assert_eq!((c.immigration, c.last_login, c.total_time), (5, 0, 9));
    let (c, next) = try_add_citizen(record(7, "Ann"), true, false, Some(5), None, Some(9), &free, &free).unwrap();
    assert!(!next);
    assert_eq!((c.id, c.immigration), (7, 0));
}

#[test]
fn changing_citizens() {
    let own = Some(citizen(3, "Bob"));
    assert!(matches!(citizen_change(&None, 3, DatabaseResult::Success(None)), Ok(None)));
    assert!(matches!(citizen_change(&own, 4, DatabaseResult::Success(Some(record(4, "X")))), Err(ReasonCode::Unauthorized)));
    assert!(matches!(citizen_change(&own, 3, DatabaseResult::Success(None)), Err(ReasonCode::NoSuchCitizen)));
    assert!(matches!(citizen_change(&own, 3, DatabaseResult::Success(Some(record(3, "Bob")))), Ok(Some(_))));
    let admin = Some(citizen(1, "Admin"));
    assert!(matches!(citizen_change(&admin, 4, DatabaseResult::Success(Some(record(4, "X")))), Ok(Some(_))));
}

#[test]
fn ejection_requests() {
    let admin = Some(citizen(1, "Admin"));
    assert_eq!(eject_lookup(&admin, Some(7)), Some(7));
    assert_eq!(eject_lookup(&admin, None), None);
    assert_eq!(eject_lookup(&Some(citizen(3, "Bob")), Some(7)), None);
    let e = EjectionQuery { address: 7, expiration: 9, creation: 1, comment: "c".into() };
    let (rc, found) = eject_lookup_by_method(DatabaseResult::Success(Some(e)));
    assert_eq!(rc, ReasonCode::Success);
    assert_eq!(found.unwrap().address, 7);
    assert_eq!(eject_lookup_by_method(DatabaseResult::Success(None)).0, ReasonCode::NoSuchEjection);
    assert_eq!(eject_lookup_by_method(DatabaseResult::DatabaseError).0, ReasonCode::DatabaseError);
    assert_eq!(eject_delete(&DatabaseResult::DatabaseError), ReasonCode::DatabaseError);
}

#[test]
fn license_requests() {
    let admin = Some(citizen(1, "Admin"));
    let name = "world".to_string();
    let blank = "my world".to_string();
    let empty = String::new();
    assert_eq!(license_add_start(&admin, None), Err(ReasonCode::NameContainsInvalidBlank));
    assert_eq!(license_add_start(&Some(citizen(3, "Bob")), Some(&name)), Err(ReasonCode::Unauthorized));
    assert_eq!(license_add_start(&admin, Some(&blank)), Err(ReasonCode::NoSuchLicense));
    assert_eq!(license_add_start(&admin, Some(&empty)), Err(ReasonCode::NoSuchLicense));
    assert_eq!(license_add_start(&admin, Some(&name)), Ok(()));
    assert_eq!(license_add(&DatabaseResult::DatabaseError, Ok(())), Err(ReasonCode::DatabaseError));
    assert_eq!(license_add(&DatabaseResult::Success(None), Err(ReasonCode::NameTooShort)), Err(ReasonCode::NameTooShort));
    assert_eq!(license_add(&DatabaseResult::Success(None), Ok(())), Ok(()));
    assert_eq!(license_inserted(&DatabaseResult::DatabaseError), ReasonCode::UnableToInsertName);
    assert!(license_delete(&admin, Some(&name)));
    assert!(!license_delete(&admin, None));
    assert_eq!(license_key_for_build(Some(1217)), LicenseKey::Vortex);
    assert_eq!(license_key_for_build(Some(2007)), LicenseKey::Vortex);
    assert_eq!(license_key_for_build(Some(100)), LicenseKey::Aw);
    assert_eq!(license_key_for_build(None), LicenseKey::Aw);
}

#[test]
fn attributes_stored_at_setup() {
    let mut config = universe::config::UniverseConfig::default();
    config.allow_citizen_changes = false;
    let init = universe::attrib::initial_attributes(&config);
    assert_eq!(init, vec![(Attribute::Userlist, "Y"), (Attribute::CitizenChanges, "N")]);
}

#[test]
fn allocation_checks() {
    let c = universe::config::allocation_check(1_000_000_001, 10);
    assert!(c.over_limit && !c.large);
    let c = universe::config::allocation_check(5_000_000, 2_000_000);
    assert!(!c.over_limit && c.large);
    let c = universe::config::allocation_check(1_000_000_000, 1_000_000);
    assert!(!c.over_limit && !c.large);
}

#[test]
fn clock_readings() {
    assert_eq!(timestamp_from_secs(None), 0);
    assert_eq!(timestamp_from_secs(Some(1_700_000_000)), 1_700_000_000);
    assert_eq!(timestamp_from_secs(Some((1u64 << 32) + 5)), 5);
    assert!(unix_epoch_timestamp_u32() > 1_600_000_000);
    let s = unix_epoch_timestamp_str();
    assert!(!s.is_empty() && s.chars().all(|c| c.is_ascii_digit()));
}

#[test]
fn logged_in_players() {
    let p = login_player(None, "\"Tim\"", Some(4), 9, 77, [1, 2, 3, 4]);
    assert!(matches!(&p, Player::Tourist(g) if g.username == "\"Tim\"" && g.privilege_id.is_none() && g.session_id == 9));
    let p = login_player(Some(record(3, "Ann")), "ann", Some(4), 9, 77, [1, 2, 3, 4]);
    assert_eq!(p.citizen_id(), Some(3));
    assert_eq!(p.base_player().username, "Ann");
    assert_eq!(p.base_player().privilege_id, Some(4));
    assert_eq!(p.base_player().build_version, 77);
}

#[test]
fn lookup_params_and_avatars() {
    assert_eq!(CitizenNextParams::try_from(Some(4)).unwrap().citizen_id, 4);
    assert_eq!(CitizenNextParams::try_from(None).err(), Some(CitizenLookupParamsError::CitizenID));
    assert_eq!(CitizenLookupByNameParams::try_from(None).err(), Some(CitizenLookupParamsError::CitizenName));
    assert_eq!(get_cav(Some(3)), Some(ReasonCode::NoSuchCav));
    assert_eq!(get_cav(None), None);
}

fn add_fields() -> CitizenAddFields {
    CitizenAddFields {
        number: Some(7),
        name: Some("Alice".to_string()),
        password: Some("secret".to_string()),
        email: Some("a@b".to_string()),
        expiration: Some(99),
        beta: Some(1),
        enabled: Some(1),
        trial: Some(0),
        cav_enabled: Some(1),
    }
}

#[test]
fn citizen_add_start_refuses_non_administrators() {
    assert!(matches!(citizen_add_start(add_fields(), false), Err(ReasonCode::Unauthorized)));
}

#[test]
fn citizen_add_start_refuses_a_missing_field() {
    let mut f = add_fields();
    f.email = None;
    assert!(matches!(citizen_add_start(f, true), Err(ReasonCode::Unauthorized)));
    let mut f = add_fields();
    f.cav_enabled = None;
    assert!(matches!(citizen_add_start(f, true), Err(ReasonCode::Unauthorized)));
}

#[test]
fn citizen_add_start_describes_the_account() {
    let c = citizen_add_start(add_fields(), true).unwrap();
    assert_eq!(c.id, 7);
    assert_eq!(c.name, "Alice");
    assert_eq!(c.password, "secret");
    assert_eq!(c.email, "a@b");
    assert_eq!(c.expiration, 99);
    assert_eq!(c.beta, 1);
    assert_eq!(c.enabled, 1);
    assert_eq!(c.trial, 0);
    assert_eq!(c.cav_enabled, 1);
    assert_eq!(c.immigration, 0);
    assert_eq!(c.bot_limit, 0);
    assert_eq!(c.comment, "");
}

#[test]
fn citizen_changed_maps_the_write() {
    assert!(matches!(citizen_changed(&DatabaseResult::Success(())), Ok(())));
    assert!(matches!(
        citizen_changed(&DatabaseResult::DatabaseError),
        Err(ReasonCode::UnableToChangeCitizen)
    ));
}

#[test]
fn init_citizen_inserts_the_administrator_once() {
    match init_citizen(&DatabaseResult::Success(None), 1234) {
        DatabaseResult::Success(Some(c)) => {
            assert_eq!(c.id, 1);
            assert_eq!(c.name, "Administrator");
            assert_eq!(c.password, "welcome");
            assert_eq!(c.immigration, 1234);
            assert_eq!(c.bot_limit, 3);
            assert_eq!(c.enabled, 1);
        }
        other => panic!("unexpected {:?}", other),
    }
    let existing = citizen_add_start(add_fields(), true).unwrap();
    assert!(matches!(
        init_citizen(&DatabaseResult::Success(Some(existing)), 1234),
        DatabaseResult::Success(None)
    ));
    assert!(matches!(init_citizen(&DatabaseResult::DatabaseError, 1234), DatabaseResult::DatabaseError));
}

#[test]
fn nonce_unavailable_answers_no_such_world() {
    assert!(matches!(WorldLookupReply::NonceUnavailable.reason_code(), Some(ReasonCode::NoSuchWorld)));
}
