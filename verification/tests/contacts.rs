use universe::client::{Bot, Citizen, ClientInfo, GenericPlayer, Player};
use universe::contact::{
    contact_get, contact_invites_allowed, contact_telegrams_allowed, ContactOptions, ContactQuery,
    ALL_BLOCKED, FRIEND_REQUEST_BLOCKED, STATUS_ALLOWED, STATUS_BLOCKED, TELEGRAMS_BLOCKED,
};
use universe::contact_request::{
    alert_friend_request, contact_add_citizen, contact_add_target, contact_change,
    contact_confirm_start, contact_delete, contact_pair_stored, set_afk, try_add_contact,
    try_contact_confirm, ContactAddParams, ContactAddParamsError, ContactChangeParams,
    ContactChangeParamsError, ContactConfirmStep,
};
use universe::citizen::CitizenQuery;
use universe::db::DatabaseResult;
use universe::reason::ReasonCode;

fn player(name: &str) -> GenericPlayer {
    GenericPlayer {
        username: name.to_string(),
        privilege_id: None,
        session_id: 1,
        build_version: 100,
        ip: [127, 0, 0, 1],
        serial: None,
        afk: false,
        nonce: None,
    }
}

fn citizen_client(id: u32) -> Option<ClientInfo> {
    Some(ClientInfo::Player(Player::Citizen(Citizen { cit_id: id, base_player: player("Alice") })))
}

fn citizen_record(id: u32, name: &str) -> CitizenQuery {
    CitizenQuery {
        id,
        changed: 0,
        name: name.to_string(),
        password: "secret".to_string(),
        email: String::new(),
        priv_pass: String::new(),
        comment: String::new(),
        url: String::new(),
        immigration: 0,
        expiration: 0,
        last_login: 0,
        last_address: 0,
        total_time: 0,
        bot_limit: 0,
        beta: 0,
        cav_enabled: 0,
        cav_template: 0,
        enabled: 1,
        privacy: 0,
        trial: 0,
    }
}

fn query(options: u32) -> ContactQuery {
    ContactQuery { citizen: 1, contact: 2, options: ContactOptions::from_bits_truncate(options) }
}

#[test]
fn apply_changes_takes_touched_pairs() {
    let old = ContactOptions::from_bits_truncate(0x0001 | 0x0004);
    let changes = ContactOptions::from_bits_truncate(0x0002);
    assert_eq!(old.apply_changes(changes).bits(), 0x0006);
}

#[test]
fn apply_changes_without_changes_keeps_options() {
    let old = ContactOptions::from_bits_truncate(0x1234);
    assert_eq!(old.apply_changes(ContactOptions::empty()).bits(), 0x1234);
}

#[test]
fn apply_changes_is_idempotent() {
    let old = ContactOptions::from_bits_truncate(0x0155);
    let changes = ContactOptions::from_bits_truncate(0x2a0a);
    let once = old.apply_changes(changes);
    assert_eq!(once.apply_changes(changes), once);
}

#[test]
fn apply_changes_replaces_the_all_pair() {
    let old = ContactOptions::from_bits_truncate(ALL_BLOCKED);
    let changes = ContactOptions::from_bits_truncate(0x0010 | 0x4000);
    assert_eq!(old.apply_changes(changes).bits(), 0x4010);
    let blocked = ContactOptions::empty().apply_changes(ContactOptions::from_bits_truncate(ALL_BLOCKED));
    assert!(blocked.is_blocked());
    let kept = ContactOptions::from_bits_truncate(ALL_BLOCKED).apply_changes(ContactOptions::from_bits_truncate(0x0010));
    assert_eq!(kept.bits(), 0x8010);
}

#[test]
fn option_bits_outside_the_flags() {
    assert!(ContactOptions::from_bits(0x1_0000).is_none());
    assert_eq!(ContactOptions::from_bits(0xffff).map(|o| o.bits()), Some(0xffff));
    assert_eq!(ContactOptions::from_bits_truncate(0x1_ffff).bits(), 0xffff);
}

#[test]
fn option_predicates() {
    let o = ContactOptions::from_bits_truncate(STATUS_BLOCKED);
    assert!(!o.is_status_allowed());
    assert!(o.is_telegram_allowed());
    let o = ContactOptions::from_bits_truncate(ALL_BLOCKED);
    assert!(o.is_blocked());
    assert!(!o.is_join_allowed());
    assert!(!o.is_invite_allowed());
    assert!(!o.is_friend_request_allowed());
    let mut o = ContactOptions::empty();
    o.set(STATUS_ALLOWED, true);
    assert!(o.contains(STATUS_ALLOWED));
    o.set(STATUS_ALLOWED, false);
    assert_eq!(o.bits(), 0);
}

#[test]
fn contact_lookup_without_rows_is_a_database_error() {
    assert!(matches!(contact_get(&Vec::new()), Err(ReasonCode::DatabaseError)));
}

#[test]
fn telegrams_fall_back_to_default_options() {
    let missing: Result<ContactQuery, ReasonCode> = Err(ReasonCode::DatabaseError);
    let blocking_default = Ok(query(TELEGRAMS_BLOCKED));
    assert!(!contact_telegrams_allowed(1, &missing, &blocking_default));
    assert!(contact_telegrams_allowed(1, &missing, &missing));
    assert!(contact_telegrams_allowed(1, &Ok(query(0)), &blocking_default));
    assert!(contact_invites_allowed(&missing));
}

#[test]
fn contact_add_params_from_packet() {
    assert_eq!(
        ContactAddParams::try_from(None, Some(1)).err(),
        Some(ContactAddParamsError::ContactName)
    );
    assert_eq!(
        ContactAddParams::try_from(Some("Bob".to_string()), None).err(),
        Some(ContactAddParamsError::ContactOptions)
    );
    let p = ContactAddParams::try_from(Some("Bob".to_string()), Some(0x1_0001)).unwrap();
    assert_eq!(p.contact_name, "Bob");
    assert_eq!(p.contact_options.bits(), 0x0001);
}

#[test]
fn contact_add_needs_a_citizen_and_a_target() {
    assert_eq!(contact_add_citizen(&None), Err(ReasonCode::NotLoggedIn));
    assert_eq!(contact_add_citizen(&citizen_client(7)), Ok(7));
    assert_eq!(contact_add_target(&DatabaseResult::Success(None)), Err(ReasonCode::NoSuchCitizen));
    assert_eq!(contact_add_target(&DatabaseResult::DatabaseError), Err(ReasonCode::DatabaseError));
    assert_eq!(
        contact_add_target(&DatabaseResult::Success(Some(citizen_record(9, "Bob")))),
        Ok(9)
    );
}

#[test]
fn contact_add_decisions() {
    let params = ContactAddParams { contact_name: "Bob".to_string(), contact_options: ContactOptions::from_bits_truncate(0x1001) };
    let none = || DatabaseResult::Success(None);
    assert_eq!(
        try_add_contact(&params, DatabaseResult::Success(true), none(), none()).err(),
        Some(ReasonCode::ContactAddBlocked)
    );
    assert_eq!(
        try_add_contact(&params, DatabaseResult::DatabaseError, none(), none()).err(),
        Some(ReasonCode::DatabaseError)
    );
    assert_eq!(
        try_add_contact(
            &params,
            DatabaseResult::Success(false),
            DatabaseResult::Success(Some(query(0))),
            DatabaseResult::Success(Some(query(0)))
        )
        .err(),
        Some(ReasonCode::UnableToSetContact)
    );
    let stored = try_add_contact(&params, DatabaseResult::Success(false), none(), none()).unwrap();
    assert_eq!(stored.bits(), 0x0001 | FRIEND_REQUEST_BLOCKED);
    let blocking = ContactAddParams { contact_name: "Bob".to_string(), contact_options: ContactOptions::from_bits_truncate(ALL_BLOCKED) };
    assert!(try_add_contact(&blocking, DatabaseResult::Success(true), none(), none()).is_ok());
}

#[test]
fn added_request_can_be_confirmed_unless_blocked() {
    let params = ContactAddParams { contact_name: "Bob".to_string(), contact_options: ContactOptions::from_bits_truncate(0x1000) };
    let stored = try_add_contact(&params, DatabaseResult::Success(false), DatabaseResult::Success(None), DatabaseResult::Success(None)).unwrap();
    let request = DatabaseResult::Success(Some(ContactQuery { citizen: 2, contact: 1, options: stored }));
    assert_eq!(try_contact_confirm(&request), Ok(()));
    let params = ContactAddParams { contact_name: "Bob".to_string(), contact_options: ContactOptions::from_bits_truncate(ALL_BLOCKED) };
    let stored = try_add_contact(&params, DatabaseResult::Success(false), DatabaseResult::Success(None), DatabaseResult::Success(None)).unwrap();
    let request = DatabaseResult::Success(Some(ContactQuery { citizen: 2, contact: 1, options: stored }));
    assert_eq!(try_contact_confirm(&request), Err(ReasonCode::UnableToSetContact));
}

#[test]
fn contact_confirm_steps() {
    assert_eq!(contact_confirm_start(&None, Some(2), Some(0), Some(0)), ContactConfirmStep::Done(ReasonCode::NotLoggedIn));
    let c = citizen_client(1);
    assert_eq!(contact_confirm_start(&c, None, Some(0), Some(0)), ContactConfirmStep::Done(ReasonCode::NoSuchCitizen));
    assert_eq!(contact_confirm_start(&c, Some(2), Some(-1), None), ContactConfirmStep::Done(ReasonCode::Success));
    assert_eq!(contact_confirm_start(&c, Some(2), None, None), ContactConfirmStep::Done(ReasonCode::Success));
    assert_eq!(contact_confirm_start(&c, Some(2), Some(5), None), ContactConfirmStep::Done(ReasonCode::NoSuchCitizen));
    assert_eq!(contact_confirm_start(&c, Some(2), Some(5), Some(5)), ContactConfirmStep::ReadRequest { citizen: 1, contact: 2 });
    assert_eq!(try_contact_confirm(&DatabaseResult::Success(None)), Err(ReasonCode::UnableToSetContact));
    assert_eq!(try_contact_confirm(&DatabaseResult::DatabaseError), Err(ReasonCode::DatabaseError));
    assert_eq!(contact_pair_stored(&DatabaseResult::Success(()), &DatabaseResult::Success(())), ReasonCode::Success);
    assert_eq!(contact_pair_stored(&DatabaseResult::DatabaseError, &DatabaseResult::Success(())), ReasonCode::UnableToSetContact);
    assert_eq!(contact_pair_stored(&DatabaseResult::Success(()), &DatabaseResult::DatabaseError), ReasonCode::UnableToSetContact);
}

#[test]
fn contact_delete_answers() {
    let ok = DatabaseResult::Success(());
    let err = DatabaseResult::DatabaseError;
    assert_eq!(contact_delete(&DatabaseResult::DatabaseError, &ok, &ok), ReasonCode::DatabaseError);
    assert_eq!(contact_delete(&DatabaseResult::Success(false), &ok, &ok), ReasonCode::Success);
    assert_eq!(contact_delete(&DatabaseResult::Success(false), &err, &ok), ReasonCode::UnableToSetContact);
    assert_eq!(contact_delete(&DatabaseResult::Success(false), &err, &err), ReasonCode::DatabaseError);
    assert_eq!(contact_delete(&DatabaseResult::Success(true), &ok, &err), ReasonCode::Success);
}

#[test]
fn contact_change_plans() {
    assert_eq!(ContactChangeParams::try_from(None, Some(1)).err(), Some(ContactChangeParamsError::ContactCitizenID));
    assert_eq!(ContactChangeParams::try_from(Some(2), Some(0x1_0000)).err(), Some(ContactChangeParamsError::OptionChanges));
    let params = ContactChangeParams::try_from(Some(2), Some(STATUS_BLOCKED | ALL_BLOCKED)).unwrap();
    let change = contact_change(&params, &DatabaseResult::Success(Some(query(STATUS_ALLOWED | 0x0010)))).unwrap();
    assert_eq!(change.options.bits(), STATUS_BLOCKED | 0x0010 | ALL_BLOCKED);
    assert!(change.options.is_blocked());
    assert!(change.remove_reverse);
    assert!(contact_change(&params, &DatabaseResult::Success(None)).is_none());
    assert!(contact_change(&params, &DatabaseResult::DatabaseError).is_none());
    let default_params = ContactChangeParams::try_from(Some(0), Some(STATUS_BLOCKED)).unwrap();
    let change = contact_change(&default_params, &DatabaseResult::Success(None)).unwrap();
    assert_eq!(change.options.bits(), STATUS_BLOCKED);
    assert!(!change.remove_reverse);
}

#[test]
fn afk_status_of_citizens() {
    let mut c = citizen_client(3);
    assert!(set_afk(&mut c, Some(1)));
    assert!(c.as_ref().unwrap().player_info().unwrap().afk);
    assert!(set_afk(&mut c, Some(0)));
    assert!(!c.as_ref().unwrap().player_info().unwrap().afk);
    assert!(!set_afk(&mut c, None));
    let mut bot = Some(ClientInfo::Player(Player::Bot(Bot { base_player: player("[bot]") })));
    assert!(!set_afk(&mut bot, Some(1)));
    assert!(!bot.unwrap().player_info().unwrap().afk);
}

#[test]
fn friend_request_telegram() {
    let found = DatabaseResult::Success(Some(citizen_record(5, "Bob")));
    let t = alert_friend_request(5, 8, 1000, &found).unwrap();
    assert_eq!(t.citizen, 8);
    assert_eq!(t.from, 5);
    assert_eq!(t.timestamp, 1000);
    assert_eq!(t.message, "\n\u{1}(5)Bob\n");
    assert!(alert_friend_request(5, 8, 1000, &DatabaseResult::Success(None)).is_none());
}
