use universe::attrib::{
    attribute_packet_entries, attributes_from_rows, get_attributes, Attribute, AttributeTable,
    AttributeValue,
};
use universe::citizen::{
    check_valid_password, citizen_from_rows, citizen_info_vars, fetch_citizen, modify_citizen,
    next_citizen_id, try_citizen_lookup, try_immigrate, CitizenQuery,
};
use universe::client::{Citizen, ClientInfo, GenericPlayer, Player};
use universe::db::{DatabaseResult, Row, Value};
use universe::eject::{
    ejection_from_rows, ejection_scan_start, ejection_scan_step, serial_from_comment,
    EjectionQuery, EjectionScan,
};
use universe::license::license_from_rows;
use universe::packet::{PacketVar, VarId};
use universe::reason::ReasonCode;
use universe::telegram::telegrams_from_rows;

fn int_col(name: &str, v: i64) -> (String, Value) {
    (name.to_string(), Value::Int(v))
}

fn text(name: &str, v: &str) -> (String, Value) {
    (name.to_string(), Value::Text(v.to_string()))
}

fn citizen_row(id: i64, name: &str) -> Row {
    Row {
        columns: vec![
            int_col("ID", id),
            int_col("Changed", 0),
            text("Name", name),
            text("Password", "pw"),
            text("Email", "e@x"),
            text("PrivPass", "pp"),
            text("Comment", "note"),
            text("URL", "http://x"),
            int_col("Immigration", 10),
            int_col("Expiration", 20),
            int_col("LastLogin", 30),
            int_col("LastAddress", -1),
            int_col("TotalTime", 40),
            int_col("BotLimit", 3),
            int_col("Beta", 0),
            int_col("CAVEnabled", 1),
            int_col("CAVTemplate", 7),
            int_col("Enabled", 1),
            int_col("Privacy", 0),
            int_col("Trial", 0),
        ],
    }
}

fn player(name: &str) -> GenericPlayer {
    GenericPlayer {
        username: name.to_string(),
        privilege_id: None,
        session_id: 1,
        build_version: 100,
        ip: [127, 0, 0, 1],
        serial: Some(0xbeef),
        afk: false,
        nonce: None,
    }
}

#[test]
fn citizens_from_rows() {
    let c = match fetch_citizen(&citizen_row(4, "Ann")) {
        DatabaseResult::Success(c) => c,
        DatabaseResult::DatabaseError => panic!("row is complete"),
    };
    assert_eq!((c.id, c.name.as_str(), c.last_address, c.cav_template), (4, "Ann", u32::MAX, 7));
    let mut broken = citizen_row(4, "Ann");
    broken.columns[0] = int_col("ID", -5);
    assert!(fetch_citizen(&broken).is_err());
    assert!(matches!(citizen_from_rows(&vec![]), DatabaseResult::Success(None)));
    assert!(matches!(citizen_from_rows(&vec![citizen_row(1, "A"), citizen_row(2, "B")]), DatabaseResult::DatabaseError));
    assert!(matches!(citizen_from_rows(&vec![citizen_row(1, "A")]), DatabaseResult::Success(Some(_))));
    assert!(matches!(next_citizen_id(&vec![]), DatabaseResult::Success(1)));
    assert!(matches!(next_citizen_id(&vec![Row { columns: vec![int_col("ID", 12)] }]), DatabaseResult::Success(12)));
    assert!(matches!(next_citizen_id(&vec![Row { columns: vec![text("ID", "x")] }]), DatabaseResult::DatabaseError));
}

fn citizen_record(id: u32) -> CitizenQuery {
    match fetch_citizen(&citizen_row(id as i64, "Ann")) {
        DatabaseResult::Success(c) => c,
        DatabaseResult::DatabaseError => panic!("row is complete"),
    }
}

#[test]
fn citizen_information_by_viewer() {
    let c = citizen_record(4);
    assert_eq!(citizen_info_vars(&c, false, false).len(), 6);
    assert_eq!(citizen_info_vars(&c, true, false).len(), 18);
    let all = citizen_info_vars(&c, false, true);
    assert_eq!(all.len(), 20);
    assert!(matches!(&all[0], PacketVar::Uint(VarId::CitizenNumber, 4)));
    assert!(matches!(&all[5], PacketVar::Uint(VarId::CAVTemplate, 7)));
    assert!(matches!(&all[19], PacketVar::Uint(VarId::IdentifyUserIP, x) if *x == u32::MAX));
    let viewer = ClientInfo::Player(Player::Citizen(Citizen { cit_id: 4, base_player: player("Ann") }));
    let (rc, vars) = try_citizen_lookup(Some(&viewer), DatabaseResult::Success(Some(citizen_record(4))));
    assert_eq!((rc, vars.len()), (ReasonCode::Success, 18));
    let (rc, vars) = try_citizen_lookup(Some(&viewer), DatabaseResult::Success(None));
    assert_eq!((rc, vars.len()), (ReasonCode::NoSuchCitizen, 0));
    let (rc, _) = try_citizen_lookup(None, DatabaseResult::Success(Some(citizen_record(4))));
    assert_eq!(rc, ReasonCode::Unauthorized);
}

#[test]
fn changing_an_account() {
    let original = citizen_record(4);
    let mut changed = citizen_record(4);
    changed.name = "Anna".to_string();
    changed.comment = "changed".to_string();
    changed.bot_limit = 9;
    let as_self = modify_citizen(&original, &changed, &DatabaseResult::Success(None), false).unwrap();
    assert_eq!((as_self.name.as_str(), as_self.comment.as_str(), as_self.bot_limit), ("Anna", "note", 3));
    let as_admin = modify_citizen(&original, &changed, &DatabaseResult::Success(None), true).unwrap();
    assert_eq!((as_admin.comment.as_str(), as_admin.bot_limit), ("changed", 9));
    let holder = DatabaseResult::Success(Some(citizen_record(5)));
    assert_eq!(modify_citizen(&original, &changed, &holder, true).err(), Some(ReasonCode::NameAlreadyUsed));
    let same = DatabaseResult::Success(Some(citizen_record(4)));
    assert!(modify_citizen(&original, &changed, &same, false).is_ok());
}

#[test]
fn immigration() {
    assert_eq!(check_valid_password("abcd"), Ok(()));
    assert_eq!(check_valid_password("abc"), Err(ReasonCode::PasswordTooShort));
    assert_eq!(check_valid_password("abcdefghijklm"), Err(ReasonCode::PasswordTooLong));
    assert_eq!(check_valid_password("ééééééé"), Err(ReasonCode::PasswordTooLong));
    let free = DatabaseResult::Success(None);
    let c = try_immigrate(true, "Ann".into(), "secret".into(), "a@b".into(), &free, 99).unwrap();
    assert_eq!((c.id, c.immigration, c.enabled, c.cav_enabled), (0, 99, 1, 1));
    assert_eq!(try_immigrate(false, "Ann".into(), "secret".into(), "".into(), &free, 0).err(), Some(ReasonCode::ImmigrationNotAllowed));
    assert_eq!(try_immigrate(true, "A".into(), "secret".into(), "".into(), &free, 0).err(), Some(ReasonCode::NameTooShort));
    let taken = DatabaseResult::Success(Some(citizen_record(3)));
    assert_eq!(try_immigrate(true, "Ann".into(), "secret".into(), "".into(), &taken, 0).err(), Some(ReasonCode::NameAlreadyUsed));
}

#[test]
fn attribute_tables() {
    let rows = vec![
        Row { columns: vec![int_col("ID", 12), text("Value", "Hello")] },
        Row { columns: vec![int_col("ID", 99), text("Value", "ignored")] },
        Row { columns: vec![int_col("ID", 25), text("Value", "pw")] },
    ];
    let stored = attributes_from_rows(&rows);
    let table = get_attributes(stored, "123".to_string());
    assert_eq!(table.get(Attribute::WelcomeMessage).map(|s| s.as_str()), Some("Hello"));
    assert_eq!(table.get(Attribute::UniverseBuild).map(|s| s.as_str()), Some("120"));
    assert_eq!(table.get(Attribute::Timestamp).map(|s| s.as_str()), Some("123"));
    assert!(table.get(Attribute::AllowTourists).is_none());
    let entries = attribute_packet_entries(&table);
    assert_eq!(entries.len(), 22);
    assert_eq!(entries[0].attribute, Attribute::AllowTourists);
    assert!(matches!(&entries[6].value, AttributeValue::Text(s) if s == "Hello"));
    assert!(matches!(&entries[19].value, AttributeValue::Data(b) if b == b"pw"));
    let bad = vec![Row { columns: vec![int_col("ID", 1)] }];
    assert!(attributes_from_rows(&bad).is_err());
    let fallback = get_attributes(DatabaseResult::DatabaseError, "5".to_string());
    assert!(fallback.get(Attribute::WelcomeMessage).is_none());
    let mut t = AttributeTable::new();
    t.insert(Attribute::BillingMethod, "x".to_string());
    assert!(matches!(&attribute_packet_entries(&t)[16].value, AttributeValue::Text(s) if s.is_empty()));
}

#[test]
fn ejections() {
    let row = Row { columns: vec![int_col("Address", 7), int_col("Expiration", 100), int_col("Creation", 1), text("Comment", "serial=0xBEEF")] };
    let e = match ejection_from_rows(&vec![row]) {
        DatabaseResult::Success(Some(e)) => e,
        _ => panic!("row is complete"),
    };
    assert_eq!((e.address, e.expiration), (7, 100));
    assert_eq!(serial_from_comment("serial=0xBEEF"), Some(0xbeef));
    assert_eq!(serial_from_comment("serial=0x"), None);
    assert_eq!(serial_from_comment("serial=0xffffffff"), Some(u32::MAX));
    assert_eq!(serial_from_comment("serial=0x100000000"), None);
    assert_eq!(serial_from_comment("serial=0xg"), None);
    assert_eq!(serial_from_comment("Serial=0x1"), None);
    assert_eq!(ejection_scan_start(false, None), EjectionScan::Finished(Some(false)));
    let admin = ClientInfo::Player(Player::Citizen(Citizen { cit_id: 1, base_player: player("Admin") }));
    assert_eq!(ejection_scan_start(true, Some(&admin)), EjectionScan::Finished(Some(false)));
    assert_eq!(ejection_scan_start(true, None), EjectionScan::NextAfter(0));
    let found = |e: EjectionQuery| DatabaseResult::Success(Some(e));
    let by_address = EjectionQuery { address: 7, expiration: 100, creation: 1, comment: String::new() };
    assert_eq!(ejection_scan_step(50, 7, None, &found(by_address)), EjectionScan::Finished(Some(true)));
    let expired = EjectionQuery { address: 7, expiration: 10, creation: 1, comment: String::new() };
    assert_eq!(ejection_scan_step(50, 7, None, &found(expired)), EjectionScan::NextAfter(7));
    let by_serial = EjectionQuery { address: 3, expiration: 100, creation: 1, comment: "serial=0xbeef".into() };
    assert_eq!(ejection_scan_step(50, 7, Some(0xbeef), &found(by_serial)), EjectionScan::Finished(Some(true)));
    let other = EjectionQuery { address: 3, expiration: 100, creation: 1, comment: "serial=0x1".into() };
    assert_eq!(ejection_scan_step(50, 7, Some(0xbeef), &found(other)), EjectionScan::NextAfter(3));
    assert_eq!(ejection_scan_step(50, 7, None, &DatabaseResult::Success(None)), EjectionScan::Finished(Some(false)));
    assert_eq!(ejection_scan_step(50, 7, None, &DatabaseResult::DatabaseError), EjectionScan::Finished(None));
}

#[test]
fn licenses_and_telegrams_from_rows() {
    assert!(matches!(license_from_rows(&vec![]), DatabaseResult::Success(None)));
    let bad = vec![Row { columns: vec![int_col("ID", 1)] }];
    assert!(matches!(license_from_rows(&bad), DatabaseResult::DatabaseError));
    let t = Row { columns: vec![int_col("ID", 1), int_col("Citizen", 2), int_col("From", 3), int_col("Timestamp", 4), text("Message", "m"), int_col("Delivered", 0)] };
    match telegrams_from_rows(&vec![t]) {
        DatabaseResult::Success(ts) => assert_eq!((ts.len(), ts[0].from, ts[0].message.as_str()), (1, 3, "m")),
        DatabaseResult::DatabaseError => panic!("row is complete"),
    }
    let broken = Row { columns: vec![int_col("ID", 1)] };
    assert!(telegrams_from_rows(&vec![broken]).is_err());
}

fn scan_table(table: &[EjectionQuery], now: u32, ip: u32, serial: Option<u32>) -> Option<bool> {
    let mut state = ejection_scan_start(true, None);
    loop {
        match state {
            EjectionScan::Finished(v) => return v,
            EjectionScan::NextAfter(a) => {
                let next = match table.iter().find(|e| e.address > a) {
                    Some(e) => DatabaseResult::Success(Some(EjectionQuery {
                        address: e.address,
                        expiration: e.expiration,
                        creation: e.creation,
                        comment: e.comment.clone(),
                    })),
                    None => DatabaseResult::Success(None),
                };
                state = ejection_scan_step(now, ip, serial, &next);
            }
        }
    }
}

#[test]
fn whole_ejection_scan() {
    let ej = |address: u32, expiration: u32, comment: &str| EjectionQuery {
        address,
        expiration,
        creation: 0,
        comment: comment.to_string(),
    };
    let table = vec![ej(2, 10, ""), ej(5, 100, "serial=0x1"), ej(9, 10, "serial=0xbeef"), ej(12, 100, "")];
    // The live ejection of address 12 ejects the connection at that address.
    assert_eq!(scan_table(&table, 50, 12, None), Some(true));
    // The ejection of address 2 has expired.
    assert_eq!(scan_table(&table, 50, 2, None), Some(false));
    // Serial 1 is ejected by the comment of address 5; serial 0xbeef only by an expired one.
    assert_eq!(scan_table(&table, 50, 77, Some(1)), Some(true));
    assert_eq!(scan_table(&table, 50, 77, Some(0xbeef)), Some(false));
    assert_eq!(scan_table(&[], 50, 77, Some(1)), Some(false));
}
