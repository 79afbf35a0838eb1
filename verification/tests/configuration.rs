use universe::config::{
    is_whitespace, parse_ipv4_at, parse_u16_at, run_configurator, trim_bounds, Config, ConfigStep, DatabaseType,
    MysqlConfig, SqliteConfig, UniverseConfig,
};

fn chars(s: &str) -> Vec<char> {
    s.chars().collect()
}

fn ipv4(s: &str) -> Option<[u8; 4]> {
    let v = chars(s);
    parse_ipv4_at(&v, 0, v.len())
}

fn port(s: &str) -> Option<u16> {
    let v = chars(s);
    parse_u16_at(&v, 0, v.len())
}

fn defaults() -> Config {
    Config::with_sqlite(SqliteConfig::with_default_path(Some("/srv/universe.db".to_string())))
}

#[test]
fn default_settings() {
    let u = UniverseConfig::default();
    assert_eq!(u.license_ip, [127, 0, 0, 1]);
    assert_eq!(u.bind_ip, [0, 0, 0, 0]);
    assert_eq!(u.port, 6670);
    assert!(u.user_list && u.allow_citizen_changes && u.allow_immigration);
    let m = MysqlConfig::default();
    assert_eq!(m.hostname, "127.0.0.1");
    assert_eq!(m.port, 3306);
    assert_eq!(m.username, "root");
    assert_eq!(m.password, "password");
    assert_eq!(m.database, "aworld_universe");
    assert_eq!(DatabaseType::default(), DatabaseType::Internal);
    assert_eq!(SqliteConfig::with_default_path(None).path, "universe.db");
}

#[test]
fn trimming_input() {
    let v = chars("  a b \t\n");
    let (a, b) = trim_bounds(&v);
    assert_eq!(v[a..b].iter().collect::<String>(), "a b");
    let v = chars(" \u{3000} ");
    let (a, b) = trim_bounds(&v);
    assert_eq!(a, b);
}

#[test]
fn reading_addresses() {
    assert_eq!(ipv4("10.0.0.1"), Some([10, 0, 0, 1]));
    assert_eq!(ipv4("255.255.255.255"), Some([255, 255, 255, 255]));
    assert_eq!(ipv4("256.0.0.1"), None);
    assert_eq!(ipv4("01.2.3.4"), None);
    assert_eq!(ipv4("1.2.3"), None);
    assert_eq!(ipv4("1.2.3.4.5"), None);
    assert_eq!(ipv4("1..3.4"), None);
    assert_eq!(ipv4("a.b.c.d"), None);
    assert_eq!(ipv4("192.168.100.7"), Some([192, 168, 100, 7]));
    assert_eq!(ipv4("0.0.0.0"), Some([0, 0, 0, 0]));
}

#[test]
fn reading_ports() {
    assert_eq!(port("80"), Some(80));
    assert_eq!(port("+80"), Some(80));
    assert_eq!(port("0080"), Some(80));
    assert_eq!(port("65535"), Some(65535));
    assert_eq!(port("65536"), None);
    assert_eq!(port("-1"), None);
    assert_eq!(port("+"), None);
    assert_eq!(port(""), None);
    for s in ["0", "+7", "00012", "65535", "65536", "x1"] {
        assert_eq!(port(s), s.parse::<u16>().ok());
    }
}

#[test]
fn printed_defaults_read_back() {
    for a in [[0u8, 0, 0, 0], [127, 0, 0, 1], [255, 10, 9, 100]] {
        let text = format!("{}.{}.{}.{}", a[0], a[1], a[2], a[3]);
        assert_eq!(ipv4(&text), Some(a));
    }
    for p in [0u16, 9, 6670, 65535] {
        assert_eq!(port(&p.to_string()), Some(p));
    }
}

#[test]
fn configuration_of_an_internal_database() {
    let mut c = run_configurator(defaults());
    assert_eq!(
        c.prompt().unwrap(),
        "Enter the IP address that the universe server will be bound to. Default: 0.0.0.0"
    );
    assert_eq!(c.answer("  10.1.2.3 \n"), None);
    assert_eq!(c.step, ConfigStep::LicenseIp);
    assert_eq!(c.answer("300.1.1.1"), Some("Invalid IP address. Please try again.".to_string()));
    assert_eq!(c.step, ConfigStep::LicenseIp);
    assert_eq!(c.answer(""), None);
    assert_eq!(c.prompt().unwrap(), "Enter the port that the universe server will be bound to. Default: 6670");
    assert_eq!(c.answer("seventy"), Some("Invalid port number. Please try again.".to_string()));
    assert_eq!(c.answer("7000"), None);
    assert_eq!(c.prompt().unwrap(), "Enter \"internal\" or \"external\" database. Default: Internal");
    assert_eq!(c.answer("neither"), Some("Invalid database type. Choose internal or external.".to_string()));
    assert_eq!(c.answer("\n"), None);
    assert_eq!(c.step, ConfigStep::SqlitePath);
    assert_eq!(
        c.prompt().unwrap(),
        "Enter path to the file to be created for the internal database. Default: /srv/universe.db"
    );
    assert_eq!(c.answer(" data/u.db "), None);
    assert_eq!(c.step, ConfigStep::Done);
    assert!(c.prompt().is_none());
    assert_eq!(c.answer("ignored"), None);
    assert_eq!(c.config.universe.bind_ip, [10, 1, 2, 3]);
    assert_eq!(c.config.universe.license_ip, [127, 0, 0, 1]);
    assert_eq!(c.config.universe.port, 7000);
    assert_eq!(c.config.sql.database_type, DatabaseType::Internal);
    assert_eq!(c.config.sql.sqlite_config.path, "data/u.db");
}

#[test]
fn configuration_of_an_external_database() {
    let mut c = run_configurator(defaults());
    for _ in 0..3 {
        assert_eq!(c.answer(""), None);
    }
    assert_eq!(c.answer("ExTeRnAl"), None);
    assert_eq!(c.step, ConfigStep::MysqlHostname);
    assert_eq!(c.prompt().unwrap(), "Enter the hostname of the MySQL server. Default: 127.0.0.1");
    assert_eq!(c.answer("db.example.org"), None);
    assert_eq!(c.prompt().unwrap(), "Enter the port of the MySQL server. Default: 3306");
    assert_eq!(c.answer("3307"), None);
    assert_eq!(c.answer(""), None);
    assert_eq!(c.answer("hunter2"), None);
    assert_eq!(c.answer("aw"), None);
    assert_eq!(c.step, ConfigStep::Done);
    assert_eq!(c.config.sql.database_type, DatabaseType::External);
    assert_eq!(c.config.sql.mysql_config.hostname, "db.example.org");
    assert_eq!(c.config.sql.mysql_config.port, 3307);
    assert_eq!(c.config.sql.mysql_config.username, "root");
    assert_eq!(c.config.sql.mysql_config.password, "hunter2");
    assert_eq!(c.config.sql.mysql_config.database, "aw");
}

#[test]
fn configuration_ends_after_ten_answers() {
    let mut c = run_configurator(defaults());
    let mut answers = 0;
    while c.step != ConfigStep::Done {
        let line = if c.step == ConfigStep::DatabaseType { "external" } else { "" };
        assert_eq!(c.answer(line), None);
        answers += 1;
        assert!(answers <= 10);
    }
    assert_eq!(answers, 9);
}

#[test]
fn white_space_is_the_unicode_set() {
    for c in ['\t', '\n', '\u{b}', '\u{c}', '\r', ' ', '\u{85}', '\u{a0}', '\u{1680}', '\u{2000}', '\u{200a}', '\u{2028}', '\u{2029}', '\u{202f}', '\u{205f}', '\u{3000}'] {
        assert!(is_whitespace(c), "{:?}", c);
        assert_eq!(is_whitespace(c), c.is_whitespace());
    }
    for c in ['a', '0', '_', '\u{200b}', '\u{feff}', '\u{180e}', '\u{1f}'] {
        assert!(!is_whitespace(c), "{:?}", c);
        assert_eq!(is_whitespace(c), c.is_whitespace());
    }
}

#[test]
fn trimming_unicode_white_space() {
    let v: Vec<char> = "\u{85}\u{3000}ab c\u{a0}\u{2029}".chars().collect();
    let (a, b) = trim_bounds(&v);
    assert_eq!((a, b), (2, 6));
}

#[test]
fn internal_database_keeps_mysql_defaults() {
    let mut c = run_configurator(defaults());
    for line in ["", "10.0.0.2", "", "internal", "/data/u.db"] {
        assert_eq!(c.answer(line), None);
    }
    assert_eq!(c.step, ConfigStep::Done);
    assert_eq!(c.config.universe.license_ip, [10, 0, 0, 2]);
    assert_eq!(c.config.sql.database_type, DatabaseType::Internal);
    assert_eq!(c.config.sql.sqlite_config.path, "/data/u.db");
    let m = MysqlConfig::default();
    assert_eq!(c.config.sql.mysql_config.hostname, m.hostname);
    assert_eq!(c.config.sql.mysql_config.port, m.port);
    assert_eq!(c.config.sql.mysql_config.username, m.username);
    assert_eq!(c.config.sql.mysql_config.password, m.password);
    assert_eq!(c.config.sql.mysql_config.database, m.database);
    assert!(c.config.universe.user_list);
}

#[test]
fn external_database_keeps_sqlite_default() {
    let mut c = run_configurator(defaults());
    for line in ["", "", "7000", "External", "db.host", "", "admin", "pw", "worlds"] {
        assert_eq!(c.answer(line), None);
    }
    assert_eq!(c.step, ConfigStep::Done);
    assert_eq!(c.config.universe.port, 7000);
    assert_eq!(c.config.sql.database_type, DatabaseType::External);
    assert_eq!(c.config.sql.mysql_config.hostname, "db.host");
    assert_eq!(c.config.sql.mysql_config.port, 3306);
    assert_eq!(c.config.sql.sqlite_config.path, "/srv/universe.db");
}
