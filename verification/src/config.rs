use vstd::prelude::*;

use crate::text::{
    all_digits, canonical_digits, chars_of, digits_of, digits_value, is_digit,
    lemma_digits_of_canonical, lemma_digits_value_prefix, push_digits, string_from_chars,
};
use crate::uri::{
    find_char, lemma_split_at_first, lemma_split_step, lemma_split_without_separator, split_char,
};

verus! {

/// Whether a character has the Unicode White_Space property, which is what
/// `char::is_whitespace` decides: tab, line feed, vertical tab, form feed, carriage
/// return, space, next line, no-break space, Ogham space mark, the spaces from en quad
/// to hair space, line and paragraph separator, narrow no-break space, medium
/// mathematical space and ideographic space.
pub open spec fn white_space(c: char) -> bool {
    let u = c as u32;
    ||| 0x9 <= u <= 0xd
    ||| u == 0x20
    ||| u == 0x85
    ||| u == 0xa0
    ||| u == 0x1680
    ||| 0x2000 <= u <= 0x200a
    ||| u == 0x2028
    ||| u == 0x2029
    ||| u == 0x202f
    ||| u == 0x205f
    ||| u == 0x3000
}

/// Whether a character is white space.
pub fn is_whitespace(c: char) -> (b: bool)
    ensures
        b == white_space(c),
{
    let u = c as u32;
    (0x9 <= u && u <= 0xd) || u == 0x20 || u == 0x85 || u == 0xa0 || u == 0x1680 || (0x2000 <= u
        && u <= 0x200a) || u == 0x2028 || u == 0x2029 || u == 0x202f || u == 0x205f || u == 0x3000
}

/// `s` without its leading white space.
pub open spec fn skip_ws(s: Seq<char>) -> Seq<char>
    decreases s.len(),
{
    if s.len() > 0 && white_space(s[0]) {
        skip_ws(s.drop_first())
    } else {
        s
    }
}

/// `s` without its trailing white space.
pub open spec fn drop_ws_end(s: Seq<char>) -> Seq<char>
    decreases s.len(),
{
    if s.len() > 0 && white_space(s.last()) {
        drop_ws_end(s.drop_last())
    } else {
        s
    }
}

/// `s` without leading and trailing white space, as `str::trim` gives it.
pub open spec fn trimmed(s: Seq<char>) -> Seq<char> {
    drop_ws_end(skip_ws(s))
}

/// The bounds of the trimmed text within `v`: `v[a..b]` is `trimmed(v)`.
pub fn trim_bounds(v: &Vec<char>) -> (r: (usize, usize))
    ensures
        r.0 <= r.1 <= v@.len(),
        v@.subrange(r.0 as int, r.1 as int) == trimmed(v@),
{
    let n = v.len();
    let mut a: usize = 0;
    assert(v@.subrange(0, n as int) =~= v@);
    while a < n && is_whitespace(v[a])
        invariant
            0 <= a <= n,
            n == v@.len(),
            skip_ws(v@.subrange(a as int, n as int)) == skip_ws(v@),
        decreases n - a,
    {
        assert(v@.subrange(a as int, n as int).drop_first() =~= v@.subrange(a + 1, n as int));
        a = a + 1;
    }
    assert(skip_ws(v@.subrange(a as int, n as int)) == v@.subrange(a as int, n as int));
    let mut b: usize = n;
    while b > a && is_whitespace(v[b - 1])
        invariant
            a <= b <= n,
            n == v@.len(),
            drop_ws_end(v@.subrange(a as int, b as int)) == trimmed(v@),
        decreases b - a,
    {
        assert(v@.subrange(a as int, b as int).drop_last() =~= v@.subrange(a as int, b - 1));
        b = b - 1;
    }
    (a, b)
}

/// Reads `v[start..end]` as a number written with decimal digits only, at most
/// `max`; leading zeros are allowed.
pub fn parse_digits_at(v: &Vec<char>, start: usize, end: usize, max: u32) -> (r: Option<u32>)
    requires
        start <= end <= v@.len(),
    ensures
        r is Some <==> (start < end && all_digits(v@.subrange(start as int, end as int))
            && digits_value(v@.subrange(start as int, end as int)) <= max),
        r matches Some(x) ==> x == digits_value(v@.subrange(start as int, end as int)),
{
    if start == end {
        return None;
    }
    let ghost d = v@.subrange(start as int, end as int);
    let mut val: u64 = 0;
    let mut i = start;
    while i < end
        invariant
            start <= i <= end <= v@.len(),
            d == v@.subrange(start as int, end as int),
            all_digits(v@.subrange(start as int, i as int)),
            val == digits_value(v@.subrange(start as int, i as int)),
            val <= max,
        decreases end - i,
    {
        let c = v[i];
        assert(v@.subrange(start as int, i as int) =~= d.take(i - start));
        if !('0' <= c && c <= '9') {
            assert(!all_digits(d)) by {
                assert(d[i - start] == c);
            }
            return None;
        }
        let dv = (c as u32 - 48) as u64;
        let ghost p = v@.subrange(start as int, i + 1);
        assert(p.drop_last() =~= v@.subrange(start as int, i as int));
        assert(p.last() == c);
        val = val * 10 + dv;
        i = i + 1;
        assert(all_digits(p));
        if val > max as u64 {
            proof {
                assert(p =~= d.take(i - start));
                if all_digits(d) {
                    lemma_digits_value_prefix(d, i - start);
                }
            }
            return None;
        }
    }
    assert(d =~= v@.subrange(start as int, i as int));
    Some(val as u32)
}

/// How `str::parse::<u16>` reads text: an optional "+", then decimal digits (leading
/// zeros allowed) whose value fits in a `u16`.
pub open spec fn parse_u16_text(t: Seq<char>) -> Option<u16> {
    let d = if t.len() > 0 && t[0] == '+' {
        t.drop_first()
    } else {
        t
    };
    if d.len() > 0 && all_digits(d) && digits_value(d) <= 65535 {
        Some(digits_value(d) as u16)
    } else {
        None
    }
}

/// Reads `v[start..end]` as a port number.
pub fn parse_u16_at(v: &Vec<char>, start: usize, end: usize) -> (r: Option<u16>)
    requires
        start <= end <= v@.len(),
    ensures
        r == parse_u16_text(v@.subrange(start as int, end as int)),
{
    let ghost t = v@.subrange(start as int, end as int);
    let ds = if start < end && v[start] == '+' {
        start + 1
    } else {
        start
    };
    assert(start < end && v@[start as int] == '+' ==> v@.subrange(ds as int, end as int)
        =~= t.drop_first());
    assert(!(start < end && v@[start as int] == '+') ==> v@.subrange(ds as int, end as int) =~= t);
    match parse_digits_at(v, ds, end, 65535) {
        Some(x) => Some(x as u16),
        None => None,
    }
}

/// One part of a dotted IPv4 address: 1 to 3 decimal digits without a leading zero
/// (a lone "0" is allowed), at most 255.
pub open spec fn octet_text(t: Seq<char>) -> bool {
    &&& t.len() > 0
    &&& all_digits(t)
    &&& (t[0] != '0' || t.len() == 1)
    &&& digits_value(t) <= 255
}

/// Text that `Ipv4Addr` parses: four octets separated by dots.
pub open spec fn valid_ipv4_text(t: Seq<char>) -> bool {
    let f = split_char(t, '.');
    &&& f.len() == 4
    &&& forall|i: int| 0 <= i < 4 ==> octet_text(#[trigger] f[i])
}

/// The bytes of the address that dotted text writes.
pub open spec fn ipv4_of_text(t: Seq<char>) -> Seq<u8> {
    let f = split_char(t, '.');
    seq![
        digits_value(f[0]) as u8,
        digits_value(f[1]) as u8,
        digits_value(f[2]) as u8,
        digits_value(f[3]) as u8,
    ]
}

fn parse_octet_at(v: &Vec<char>, start: usize, end: usize) -> (r: Option<u8>)
    requires
        start <= end <= v@.len(),
    ensures
        r is Some <==> octet_text(v@.subrange(start as int, end as int)),
        r matches Some(x) ==> x == digits_value(v@.subrange(start as int, end as int)),
{
    let ghost t = v@.subrange(start as int, end as int);
    if start < end && v[start] == '0' && end - start > 1 {
        assert(t[0] == '0');
        return None;
    }
    assert(start < end ==> t[0] == v@[start as int]);
    match parse_digits_at(v, start, end, 255) {
        Some(x) => Some(x as u8),
        None => None,
    }
}

/// Reads dotted IPv4 text, as `str::parse::<Ipv4Addr>` does.
#[verifier::loop_isolation(false)]
pub fn parse_ipv4_at(v: &Vec<char>, start: usize, end: usize) -> (r: Option<[u8; 4]>)
    requires
        start <= end <= v@.len(),
    ensures
        r is Some <==> valid_ipv4_text(v@.subrange(start as int, end as int)),
        r matches Some(a) ==> a@ == ipv4_of_text(v@.subrange(start as int, end as int)),
{
    let ghost t = v@.subrange(start as int, end as int);
    let mut octets: [u8; 4] = [0u8; 4];
    let mut pos = start;
    let mut k: usize = 0;
    assert(split_char(t, '.') =~= split_char(t, '.').take(0) + split_char(t, '.'));
    while k < 4
        invariant
            0 <= k <= 4,
            start <= pos <= end <= v@.len(),
            t == v@.subrange(start as int, end as int),
            k < 4 ==> split_char(t, '.') == split_char(t, '.').take(k as int) + split_char(
                v@.subrange(pos as int, end as int),
                '.',
            ),
            split_char(t, '.').len() >= k,
            forall|i: int| 0 <= i < k ==> octet_text(#[trigger] split_char(t, '.')[i]) && octets@[i]
                == digits_value(split_char(t, '.')[i]),
            k == 4 ==> split_char(t, '.').len() == 4,
        decreases 4 - k,
    {
        let ghost f = split_char(t, '.');
        let ghost s = v@.subrange(pos as int, end as int);
        let p = find_char(v, pos, end, '.');
        proof {
            lemma_split_step(v@, pos as int, end as int, p as int, '.');
        }
        let part = match parse_octet_at(v, pos, p) {
            Some(x) => x,
            None => {
                proof {
                    assert(f[k as int] == v@.subrange(pos as int, p as int));
                }
                return None;
            },
        };
        assert(f[k as int] == v@.subrange(pos as int, p as int));
        octets[k] = part;
        if k < 3 {
            if p == end {
                proof {
                    assert(f.len() == k + 1);
                }
                return None;
            }
            proof {
                assert(f =~= f.take(k + 1) + split_char(v@.subrange(p + 1, end as int), '.'));
            }
            pos = p + 1;
        } else {
            if p < end {
                proof {
                    crate::uri::lemma_split_nonempty(v@.subrange(p + 1, end as int), '.');
                    assert(f.len() > 4);
                }
                return None;
            }
            proof {
                assert(f.len() == 4);
            }
            pos = end;
        }
        k = k + 1;
    }
    assert(split_char(t, '.').len() == 4);
    assert(octets@ =~= ipv4_of_text(t));
    Some(octets)
}

/// Where the universe keeps its data: an external (server) database or an internal
/// (local, on-disk) one.
#[derive(Clone, Copy, Debug, PartialEq, Eq, Structural)]
pub enum DatabaseType {
    External,
    Internal,
}

impl Default for DatabaseType {
    fn default() -> (d: DatabaseType)
        ensures
            d == DatabaseType::Internal,
    {
        DatabaseType::Internal
    }
}

/// Settings of the internal database.
#[derive(Debug)]
pub struct SqliteConfig {
    pub path: String,
}

impl SqliteConfig {
    /// The default settings: the file "universe.db" in the current directory, given
    /// as `path` (`None` when that path is not valid text, then the bare file name).
    pub fn with_default_path(path: Option<String>) -> (c: SqliteConfig)
        ensures
            path matches Some(p) ==> c.path == p,
            path is None ==> c.path@ == "universe.db"@,
    {
        match path {
            Some(p) => SqliteConfig { path: p },
            None => SqliteConfig { path: "universe.db".to_owned() },
        }
    }
}

/// Settings of the connection to an external database.
#[derive(Debug)]
pub struct MysqlConfig {
    pub hostname: String,
    pub port: u16,
    pub username: String,
    pub password: String,
    pub database: String,
}

impl Default for MysqlConfig {
    fn default() -> (c: MysqlConfig)
        ensures
            c.hostname@ == "127.0.0.1"@,
            c.port == 3306,
            c.username@ == "root"@,
            c.password@ == "password"@,
            c.database@ == "aworld_universe"@,
    {
        MysqlConfig {
            hostname: "127.0.0.1".to_owned(),
            port: 3306,
            username: "root".to_owned(),
            password: "password".to_owned(),
            database: "aworld_universe".to_owned(),
        }
    }
}

/// Settings of the database, internal or external.
#[derive(Debug)]
pub struct DatabaseConfig {
    pub database_type: DatabaseType,
    pub mysql_config: MysqlConfig,
    pub sqlite_config: SqliteConfig,
}

/// Settings of the universe server itself.
#[derive(Debug)]
pub struct UniverseConfig {
    pub license_ip: [u8; 4],
    pub bind_ip: [u8; 4],
    pub port: u16,
    pub user_list: bool,
    pub allow_citizen_changes: bool,
    pub allow_immigration: bool,
}

impl Default for UniverseConfig {
    fn default() -> (c: UniverseConfig)
        ensures
            c.license_ip@ == seq![127u8, 0u8, 0u8, 1u8],
            c.bind_ip@ == seq![0u8, 0u8, 0u8, 0u8],
            c.port == 6670,
            c.user_list,
            c.allow_citizen_changes,
            c.allow_immigration,
    {
        let c = UniverseConfig {
            license_ip: [127, 0, 0, 1],
            bind_ip: [0, 0, 0, 0],
            port: 6670,
            user_list: true,
            allow_citizen_changes: true,
            allow_immigration: true,
        };
        assert(c.license_ip@ =~= seq![127u8, 0u8, 0u8, 1u8]);
        assert(c.bind_ip@ =~= seq![0u8, 0u8, 0u8, 0u8]);
        c
    }
}

/// All the settings of the configuration file.
#[derive(Debug)]
pub struct Config {
    pub universe: UniverseConfig,
    pub sql: DatabaseConfig,
}

/// The settings in specifications.
pub struct ConfigModel {
    pub license_ip: Seq<u8>,
    pub bind_ip: Seq<u8>,
    pub port: u16,
    pub user_list: bool,
    pub allow_citizen_changes: bool,
    pub allow_immigration: bool,
    pub database_type: DatabaseType,
    pub mysql_hostname: Seq<char>,
    pub mysql_port: u16,
    pub mysql_username: Seq<char>,
    pub mysql_password: Seq<char>,
    pub mysql_database: Seq<char>,
    pub sqlite_path: Seq<char>,
}

impl View for Config {
    type V = ConfigModel;

    open spec fn view(&self) -> ConfigModel {
        ConfigModel {
            license_ip: self.universe.license_ip@,
            bind_ip: self.universe.bind_ip@,
            port: self.universe.port,
            user_list: self.universe.user_list,
            allow_citizen_changes: self.universe.allow_citizen_changes,
            allow_immigration: self.universe.allow_immigration,
            database_type: self.sql.database_type,
            mysql_hostname: self.sql.mysql_config.hostname@,
            mysql_port: self.sql.mysql_config.port,
            mysql_username: self.sql.mysql_config.username@,
            mysql_password: self.sql.mysql_config.password@,
            mysql_database: self.sql.mysql_config.database@,
            sqlite_path: self.sql.sqlite_config.path@,
        }
    }
}

impl Config {
    /// The default settings, with the given internal database settings (whose default
    /// depends on the current directory).
    pub fn with_sqlite(sqlite_config: SqliteConfig) -> (c: Config)
        ensures
            c@.license_ip == seq![127u8, 0u8, 0u8, 1u8],
            c@.bind_ip == seq![0u8, 0u8, 0u8, 0u8],
            c@.port == 6670,
            c@.user_list && c@.allow_citizen_changes && c@.allow_immigration,
            c@.database_type == DatabaseType::Internal,
            c@.mysql_hostname == "127.0.0.1"@,
            c@.mysql_port == 3306,
            c@.mysql_username == "root"@,
            c@.mysql_password == "password"@,
            c@.mysql_database == "aworld_universe"@,
            c@.sqlite_path == sqlite_config.path@,
    {
        Config {
            universe: UniverseConfig::default(),
            sql: DatabaseConfig {
                database_type: DatabaseType::default(),
                mysql_config: MysqlConfig::default(),
                sqlite_config,
            },
        }
    }
}

/// The questions of the interactive configuration, in the order they are asked.
#[derive(Clone, Copy, Debug, PartialEq, Eq, Structural)]
pub enum ConfigStep {
    BindIp,
    LicenseIp,
    Port,
    DatabaseType,
    MysqlHostname,
    MysqlPort,
    MysqlUsername,
    MysqlPassword,
    MysqlDatabase,
    SqlitePath,
    Done,
}

/// The question after `step`; after the database type, the questions of the chosen
/// kind of database follow.
pub open spec fn next_step(step: ConfigStep, db: DatabaseType) -> ConfigStep {
    match step {
        ConfigStep::BindIp => ConfigStep::LicenseIp,
        ConfigStep::LicenseIp => ConfigStep::Port,
        ConfigStep::Port => ConfigStep::DatabaseType,
        ConfigStep::DatabaseType => match db {
            DatabaseType::External => ConfigStep::MysqlHostname,
            DatabaseType::Internal => ConfigStep::SqlitePath,
        },
        ConfigStep::MysqlHostname => ConfigStep::MysqlPort,
        ConfigStep::MysqlPort => ConfigStep::MysqlUsername,
        ConfigStep::MysqlUsername => ConfigStep::MysqlPassword,
        ConfigStep::MysqlPassword => ConfigStep::MysqlDatabase,
        ConfigStep::MysqlDatabase => ConfigStep::Done,
        ConfigStep::SqlitePath => ConfigStep::Done,
        ConfigStep::Done => ConfigStep::Done,
    }
}

/// The question asked at each step.
pub open spec fn step_question(step: ConfigStep) -> Seq<char> {
    match step {
        ConfigStep::BindIp => "Enter the IP address that the universe server will be bound to."@,
        ConfigStep::LicenseIp => "Enter the IP address to use for licensing. This must be the IP address that clients connect to. If it is incorrect, clients will report error 471."@,
        ConfigStep::Port => "Enter the port that the universe server will be bound to."@,
        ConfigStep::DatabaseType => "Enter \"internal\" or \"external\" database."@,
        ConfigStep::MysqlHostname => "Enter the hostname of the MySQL server."@,
        ConfigStep::MysqlPort => "Enter the port of the MySQL server."@,
        ConfigStep::MysqlUsername => "Enter the username for the MySQL server."@,
        ConfigStep::MysqlPassword => "Enter the password for the MySQL server."@,
        ConfigStep::MysqlDatabase => "Enter the database name to use on the MySQL server."@,
        ConfigStep::SqlitePath => "Enter path to the file to be created for the internal database."@,
        ConfigStep::Done => ""@,
    }
}

fn question(step: ConfigStep) -> (q: &'static str)
    ensures
        q@ == step_question(step),
{
    match step {
        ConfigStep::BindIp => "Enter the IP address that the universe server will be bound to.",
        ConfigStep::LicenseIp => "Enter the IP address to use for licensing. This must be the IP address that clients connect to. If it is incorrect, clients will report error 471.",
        ConfigStep::Port => "Enter the port that the universe server will be bound to.",
        ConfigStep::DatabaseType => "Enter \"internal\" or \"external\" database.",
        ConfigStep::MysqlHostname => "Enter the hostname of the MySQL server.",
        ConfigStep::MysqlPort => "Enter the port of the MySQL server.",
        ConfigStep::MysqlUsername => "Enter the username for the MySQL server.",
        ConfigStep::MysqlPassword => "Enter the password for the MySQL server.",
        ConfigStep::MysqlDatabase => "Enter the database name to use on the MySQL server.",
        ConfigStep::SqlitePath => "Enter path to the file to be created for the internal database.",
        ConfigStep::Done => "",
    }
}

/// How an IPv4 address is printed: its four bytes in decimal, separated by dots.
pub open spec fn ipv4_text(ip: Seq<u8>) -> Seq<char> {
    digits_of(ip[0] as nat) + seq!['.'] + digits_of(ip[1] as nat) + seq!['.'] + digits_of(
        ip[2] as nat,
    ) + seq!['.'] + digits_of(ip[3] as nat)
}

/// How the current value of a step's setting is printed as its default.
pub open spec fn step_default(step: ConfigStep, m: ConfigModel) -> Seq<char> {
    match step {
        ConfigStep::BindIp => ipv4_text(m.bind_ip),
        ConfigStep::LicenseIp => ipv4_text(m.license_ip),
        ConfigStep::Port => digits_of(m.port as nat),
        ConfigStep::DatabaseType => match m.database_type {
            DatabaseType::External => "External"@,
            DatabaseType::Internal => "Internal"@,
        },
        ConfigStep::MysqlHostname => m.mysql_hostname,
        ConfigStep::MysqlPort => digits_of(m.mysql_port as nat),
        ConfigStep::MysqlUsername => m.mysql_username,
        ConfigStep::MysqlPassword => m.mysql_password,
        ConfigStep::MysqlDatabase => m.mysql_database,
        ConfigStep::SqlitePath => m.sqlite_path,
        ConfigStep::Done => Seq::empty(),
    }
}

/// Appends the characters of `s`.
pub fn push_str(v: &mut Vec<char>, s: &str)
    ensures
        final(v)@ == old(v)@ + s@,
{
    let c = chars_of(s);
    let mut i: usize = 0;
    let ghost start = v@;
    while i < c.len()
        invariant
            0 <= i <= c@.len(),
            c@ == s@,
            v@ == start + s@.take(i as int),
        decreases c@.len() - i,
    {
        v.push(c[i]);
        i = i + 1;
        assert(v@ =~= start + s@.take(i as int));
    }
    assert(s@.take(s@.len() as int) =~= s@);
}

fn push_ipv4(v: &mut Vec<char>, ip: &[u8; 4])
    ensures
        final(v)@ == old(v)@ + ipv4_text(ip@),
{
    let ghost start = v@;
    push_digits(v, ip[0] as u32);
    v.push('.');
    push_digits(v, ip[1] as u32);
    v.push('.');
    push_digits(v, ip[2] as u32);
    v.push('.');
    push_digits(v, ip[3] as u32);
    assert(v@ =~= start + ipv4_text(ip@));
}

/// `t` is `word` (lower case ASCII) up to the case of ASCII letters, which is what
/// comparing `t.to_lowercase()` with `word` decides for these words.
pub open spec fn is_word_ignoring_case(t: Seq<char>, word: Seq<char>) -> bool {
    &&& t.len() == word.len()
    &&& forall|i: int| 0 <= i < t.len() ==> ascii_lower(#[trigger] t[i]) == word[i]
}

/// The ASCII lower-case form of a character; other characters stay.
pub open spec fn ascii_lower(c: char) -> char {
    if 'A' <= c <= 'Z' {
        ((c as u32) + 32) as char
    } else {
        c
    }
}

fn word_at(v: &Vec<char>, a: usize, b: usize, word: &str) -> (r: bool)
    requires
        a <= b <= v@.len(),
    ensures
        r == is_word_ignoring_case(v@.subrange(a as int, b as int), word@),
{
    let w = chars_of(word);
    if b - a != w.len() {
        return false;
    }
    let mut i: usize = 0;
    while i < w.len()
        invariant
            0 <= i <= w@.len(),
            w@ == word@,
            b - a == w@.len(),
            a <= b <= v@.len(),
            forall|j: int| 0 <= j < i ==> ascii_lower(v@[a + j]) == w@[j],
        decreases w@.len() - i,
    {
        let c = v[a + i];
        let lower = if 'A' <= c && c <= 'Z' {
            ((c as u32) + 32) as u8 as char
        } else {
            c
        };
        assert(lower == ascii_lower(c)) by {
            if 'A' <= c && c <= 'Z' {
                assert(((c as u32) + 32) as u8 as char == ((c as u32) + 32) as char);
            }
        }
        if lower != w[i] {
            assert(v@.subrange(a as int, b as int)[i as int] == c);
            return false;
        }
        i = i + 1;
    }
    assert forall|j: int| 0 <= j < (b - a) implies ascii_lower(
        #[trigger] v@.subrange(a as int, b as int)[j],
    ) == word@[j] by {
        assert(v@.subrange(a as int, b as int)[j] == v@[a + j]);
    }
    true
}

/// The text printed when an address cannot be read.
pub open spec fn ip_error() -> Seq<char> {
    "Invalid IP address. Please try again."@
}

/// The text printed when a port number cannot be read.
pub open spec fn port_error() -> Seq<char> {
    "Invalid port number. Please try again."@
}

/// The text printed when the database type is neither of the two.
pub open spec fn db_type_error() -> Seq<char> {
    "Invalid database type. Choose internal or external."@
}

/// What one answer to the configuration's current question does: the next step, the
/// settings after it, and the error text to print when the answer is refused (the
/// question is then asked again). An empty answer (after trimming white space) keeps
/// the shown default; any other answer must be valid for the setting.
pub open spec fn answer_effect(step: ConfigStep, m: ConfigModel, line: Seq<char>) -> (
    ConfigStep,
    ConfigModel,
    Option<Seq<char>>,
) {
    let t = trimmed(line);
    let next = next_step(step, m.database_type);
    if step == ConfigStep::Done {
        (step, m, None)
    } else if t.len() == 0 {
        (next, m, None)
    } else {
        match step {
            ConfigStep::BindIp => if valid_ipv4_text(t) {
                (next, ConfigModel { bind_ip: ipv4_of_text(t), ..m }, None)
            } else {
                (step, m, Some(ip_error()))
            },
            ConfigStep::LicenseIp => if valid_ipv4_text(t) {
                (next, ConfigModel { license_ip: ipv4_of_text(t), ..m }, None)
            } else {
                (step, m, Some(ip_error()))
            },
            ConfigStep::Port => match parse_u16_text(t) {
                Some(p) => (next, ConfigModel { port: p, ..m }, None),
                None => (step, m, Some(port_error())),
            },
            ConfigStep::MysqlPort => match parse_u16_text(t) {
                Some(p) => (next, ConfigModel { mysql_port: p, ..m }, None),
                None => (step, m, Some(port_error())),
            },
            ConfigStep::DatabaseType => if is_word_ignoring_case(t, "internal"@) {
                (
                    ConfigStep::SqlitePath,
                    ConfigModel { database_type: DatabaseType::Internal, ..m },
                    None,
                )
            } else if is_word_ignoring_case(t, "external"@) {
                (
                    ConfigStep::MysqlHostname,
                    ConfigModel { database_type: DatabaseType::External, ..m },
                    None,
                )
            } else {
                (step, m, Some(db_type_error()))
            },
            ConfigStep::MysqlHostname => (next, ConfigModel { mysql_hostname: t, ..m }, None),
            ConfigStep::MysqlUsername => (next, ConfigModel { mysql_username: t, ..m }, None),
            ConfigStep::MysqlPassword => (next, ConfigModel { mysql_password: t, ..m }, None),
            ConfigStep::MysqlDatabase => (next, ConfigModel { mysql_database: t, ..m }, None),
            _ => (next, ConfigModel { sqlite_path: t, ..m }, None),
        }
    }
}

fn string_of_range(v: &Vec<char>, a: usize, b: usize) -> (s: String)
    requires
        a <= b <= v@.len(),
    ensures
        s@ == v@.subrange(a as int, b as int),
{
    let mut w: Vec<char> = Vec::new();
    let mut i = a;
    while i < b
        invariant
            a <= i <= b <= v@.len(),
            w@ == v@.subrange(a as int, i as int),
        decreases b - i,
    {
        w.push(v[i]);
        i = i + 1;
        assert(w@ =~= v@.subrange(a as int, i as int));
    }
    string_from_chars(&w)
}

/// The interactive configuration: the question it stands at and the settings so far.
#[derive(Debug)]
pub struct Configurator {
    pub step: ConfigStep,
    pub config: Config,
}

/// Starts the interactive configuration at its first question, with `config` as the
/// defaults; the caller asks `prompt` and hands each line read to `answer` until the
/// prompt is `None`.
pub fn run_configurator(config: Config) -> (c: Configurator)
    ensures
        c.step == ConfigStep::BindIp,
        c.config@ == config@,
{
    Configurator { step: ConfigStep::BindIp, config }
}

impl Configurator {

    /// The line that asks the current question and shows the current value as the
    /// default; `None` once every question was answered.
    pub fn prompt(&self) -> (p: Option<String>)
        ensures
            self.step == ConfigStep::Done ==> p is None,
            self.step != ConfigStep::Done ==> (p matches Some(s) && s@ == step_question(self.step)
                + " Default: "@ + step_default(self.step, self.config@)),
    {
        if self.step == ConfigStep::Done {
            return None;
        }
        let mut v: Vec<char> = Vec::new();
        push_str(&mut v, question(self.step));
        push_str(&mut v, " Default: ");
        let ghost before = v@;
        match self.step {
            ConfigStep::BindIp => push_ipv4(&mut v, &self.config.universe.bind_ip),
            ConfigStep::LicenseIp => push_ipv4(&mut v, &self.config.universe.license_ip),
            ConfigStep::Port => push_digits(&mut v, self.config.universe.port as u32),
            ConfigStep::DatabaseType => match self.config.sql.database_type {
                DatabaseType::External => push_str(&mut v, "External"),
                DatabaseType::Internal => push_str(&mut v, "Internal"),
            },
            ConfigStep::MysqlHostname => push_str(&mut v, self.config.sql.mysql_config.hostname.as_str()),
            ConfigStep::MysqlPort => push_digits(&mut v, self.config.sql.mysql_config.port as u32),
            ConfigStep::MysqlUsername => push_str(&mut v, self.config.sql.mysql_config.username.as_str()),
            ConfigStep::MysqlPassword => push_str(&mut v, self.config.sql.mysql_config.password.as_str()),
            ConfigStep::MysqlDatabase => push_str(&mut v, self.config.sql.mysql_config.database.as_str()),
            _ => push_str(&mut v, self.config.sql.sqlite_config.path.as_str()),
        }
        assert(v@ =~= step_question(self.step) + " Default: "@ + step_default(self.step, self.config@));
        Some(string_from_chars(&v))
    }

    fn advance(&mut self)
        ensures
            final(self).step == next_step(old(self).step, old(self).config.sql.database_type),
            final(self).config@ == old(self).config@,
    {
        self.step = match self.step {
            ConfigStep::BindIp => ConfigStep::LicenseIp,
            ConfigStep::LicenseIp => ConfigStep::Port,
            ConfigStep::Port => ConfigStep::DatabaseType,
            ConfigStep::DatabaseType => match self.config.sql.database_type {
                DatabaseType::External => ConfigStep::MysqlHostname,
                DatabaseType::Internal => ConfigStep::SqlitePath,
            },
            ConfigStep::MysqlHostname => ConfigStep::MysqlPort,
            ConfigStep::MysqlPort => ConfigStep::MysqlUsername,
            ConfigStep::MysqlUsername => ConfigStep::MysqlPassword,
            ConfigStep::MysqlPassword => ConfigStep::MysqlDatabase,
            ConfigStep::MysqlDatabase => ConfigStep::Done,
            ConfigStep::SqlitePath => ConfigStep::Done,
            ConfigStep::Done => ConfigStep::Done,
        };
    }

    /// Takes one line of input as the answer to the current question; gives the error
    /// text to print when the answer is refused.
    pub fn answer(&mut self, line: &str) -> (err: Option<String>)
        ensures
            ({
                let (s, m, e) = answer_effect(old(self).step, old(self).config@, line@);
                &&& final(self).step == s
                &&& final(self).config@ == m
                &&& match err {
                    Some(x) => e == Some(x@),
                    None => e is None,
                }
            }),
    {
        if self.step == ConfigStep::Done {
            return None;
        }
        let v = chars_of(line);
        let (a, b) = trim_bounds(&v);
        proof {
            assert(v@ == line@);
        }
        if a == b {
            self.advance();
            return None;
        }
        match self.step {
            ConfigStep::BindIp => match parse_ipv4_at(&v, a, b) {
                Some(ip) => {
                    self.config.universe.bind_ip = ip;
                    self.advance();
                    None
                },
                None => Some("Invalid IP address. Please try again.".to_owned()),
            },
            ConfigStep::LicenseIp => match parse_ipv4_at(&v, a, b) {
                Some(ip) => {
                    self.config.universe.license_ip = ip;
                    self.advance();
                    None
                },
                None => Some("Invalid IP address. Please try again.".to_owned()),
            },
            ConfigStep::Port => match parse_u16_at(&v, a, b) {
                Some(p) => {
                    self.config.universe.port = p;
                    self.advance();
                    None
                },
                None => Some("Invalid port number. Please try again.".to_owned()),
            },
            ConfigStep::MysqlPort => match parse_u16_at(&v, a, b) {
                Some(p) => {
                    self.config.sql.mysql_config.port = p;
                    self.advance();
                    None
                },
                None => Some("Invalid port number. Please try again.".to_owned()),
            },
            ConfigStep::DatabaseType => {
                if word_at(&v, a, b, "internal") {
                    self.config.sql.database_type = DatabaseType::Internal;
                    self.advance();
                    None
                } else if word_at(&v, a, b, "external") {
                    self.config.sql.database_type = DatabaseType::External;
                    self.advance();
                    None
                } else {
                    Some("Invalid database type. Choose internal or external.".to_owned())
                }
            },
            ConfigStep::MysqlHostname => {
                self.config.sql.mysql_config.hostname = string_of_range(&v, a, b);
                self.advance();
                None
            },
            ConfigStep::MysqlUsername => {
                self.config.sql.mysql_config.username = string_of_range(&v, a, b);
                self.advance();
                None
            },
            ConfigStep::MysqlPassword => {
                self.config.sql.mysql_config.password = string_of_range(&v, a, b);
                self.advance();
                None
            },
            ConfigStep::MysqlDatabase => {
                self.config.sql.mysql_config.database = string_of_range(&v, a, b);
                self.advance();
                None
            },
            _ => {
                self.config.sql.sqlite_config.path = string_of_range(&v, a, b);
                self.advance();
                None
            },
        }
    }
}

/// A refused answer changes no setting and asks the same question again; an empty
/// answer keeps every setting and moves on; once every question was answered,
/// nothing changes any more.
pub proof fn law_answers_keep_settings(step: ConfigStep, m: ConfigModel, line: Seq<char>)
    ensures
        answer_effect(step, m, line).2 is Some ==> answer_effect(step, m, line).1 == m
            && answer_effect(step, m, line).0 == step,
        trimmed(line).len() == 0 ==> answer_effect(step, m, line).1 == m && answer_effect(
            step,
            m,
            line,
        ).0 == next_step(step, m.database_type) && answer_effect(step, m, line).2 is None,
        step == ConfigStep::Done ==> answer_effect(step, m, line) == (step, m, None::<Seq<char>>),
{
}

/// A port printed as a default reads back as the same port.
pub proof fn law_port_roundtrip(p: u16)
    ensures
        parse_u16_text(digits_of(p as nat)) == Some(p),
{
    lemma_digits_of_canonical(p as nat);
    let t = digits_of(p as nat);
    assert(is_digit(t[0]));
}

proof fn lemma_octet_text(n: u8)
    ensures
        octet_text(digits_of(n as nat)),
        digits_value(digits_of(n as nat)) == n,
        forall|i: int| 0 <= i < digits_of(n as nat).len() ==> digits_of(n as nat)[i] != '.',
{
    lemma_digits_of_canonical(n as nat);
    let t = digits_of(n as nat);
    assert forall|i: int| 0 <= i < t.len() implies t[i] != '.' by {
        assert(is_digit(t[i]));
    }
}

proof fn lemma_split_dot(x: Seq<char>, y: Seq<char>)
    requires
        forall|i: int| 0 <= i < x.len() ==> x[i] != '.',
    ensures
        split_char(x + seq!['.'] + y, '.') == seq![x] + split_char(y, '.'),
{
    let s = x + seq!['.'] + y;
    assert(s[x.len() as int] == '.');
    assert forall|i: int| 0 <= i < x.len() implies s[i] != '.' by {
        assert(s[i] == x[i]);
    }
    lemma_split_at_first(s, '.', x.len() as int);
    assert(s.take(x.len() as int) =~= x);
    assert(s.skip(x.len() as int + 1) =~= y);
}

/// An address printed as a default reads back as the same address.
pub proof fn law_ipv4_roundtrip(ip: [u8; 4])
    ensures
        valid_ipv4_text(ipv4_text(ip@)),
        ipv4_of_text(ipv4_text(ip@)) == ip@,
{
    let a = digits_of(ip[0] as nat);
    let b = digits_of(ip[1] as nat);
    let c = digits_of(ip[2] as nat);
    let d = digits_of(ip[3] as nat);
    lemma_octet_text(ip[0]);
    lemma_octet_text(ip[1]);
    lemma_octet_text(ip[2]);
    lemma_octet_text(ip[3]);
    let dd = d;
    let cd = c + seq!['.'] + dd;
    let bcd = b + seq!['.'] + cd;
    let t = a + seq!['.'] + bcd;
    assert(t =~= ipv4_text(ip@));
    lemma_split_without_separator(dd, '.');
    lemma_split_dot(c, dd);
    lemma_split_dot(b, cd);
    lemma_split_dot(a, bcd);
    let f = split_char(t, '.');
    assert(f =~= seq![a, b, c, d]);
    assert(ipv4_of_text(t) =~= ip@);
}

/// Every accepted, non-empty answer is stored in the setting its question asks for,
/// trimmed of white space, and the configuration moves on to the next question; no
/// other setting changes. An address or port that does not read is refused and the
/// question is asked again; the database type is chosen by the words "internal" or
/// "external" in any case.
pub proof fn law_answer_stores_setting(step: ConfigStep, m: ConfigModel, line: Seq<char>)
    ensures
        ({
            let t = trimmed(line);
            let r = answer_effect(step, m, line);
            &&& step == ConfigStep::BindIp && t.len() > 0 && valid_ipv4_text(t) ==> r == (
                ConfigStep::LicenseIp,
                ConfigModel { bind_ip: ipv4_of_text(t), ..m },
                None::<Seq<char>>,
            )
            &&& step == ConfigStep::LicenseIp && t.len() > 0 && valid_ipv4_text(t) ==> r == (
                ConfigStep::Port,
                ConfigModel { license_ip: ipv4_of_text(t), ..m },
                None::<Seq<char>>,
            )
            &&& (step == ConfigStep::BindIp || step == ConfigStep::LicenseIp) && t.len() > 0
                && !valid_ipv4_text(t) ==> r == (step, m, Some(ip_error()))
            &&& step == ConfigStep::Port && t.len() > 0 && parse_u16_text(t) is Some ==> r == (
                ConfigStep::DatabaseType,
                ConfigModel { port: parse_u16_text(t)->0, ..m },
                None::<Seq<char>>,
            )
            &&& step == ConfigStep::MysqlPort && t.len() > 0 && parse_u16_text(t) is Some ==> r
                == (
                ConfigStep::MysqlUsername,
                ConfigModel { mysql_port: parse_u16_text(t)->0, ..m },
                None::<Seq<char>>,
            )
            &&& (step == ConfigStep::Port || step == ConfigStep::MysqlPort) && t.len() > 0
                && parse_u16_text(t) is None ==> r == (step, m, Some(port_error()))
            &&& step == ConfigStep::DatabaseType && t.len() > 0 && is_word_ignoring_case(
                t,
                "internal"@,
            ) ==> r == (
                ConfigStep::SqlitePath,
                ConfigModel { database_type: DatabaseType::Internal, ..m },
                None::<Seq<char>>,
            )
            &&& step == ConfigStep::DatabaseType && t.len() > 0 && is_word_ignoring_case(
                t,
                "external"@,
            ) ==> r == (
                ConfigStep::MysqlHostname,
                ConfigModel { database_type: DatabaseType::External, ..m },
                None::<Seq<char>>,
            )
            &&& step == ConfigStep::MysqlHostname && t.len() > 0 ==> r == (
                ConfigStep::MysqlPort,
                ConfigModel { mysql_hostname: t, ..m },
                None::<Seq<char>>,
            )
            &&& step == ConfigStep::MysqlUsername && t.len() > 0 ==> r == (
                ConfigStep::MysqlPassword,
                ConfigModel { mysql_username: t, ..m },
                None::<Seq<char>>,
            )
            &&& step == ConfigStep::MysqlPassword && t.len() > 0 ==> r == (
                ConfigStep::MysqlDatabase,
                ConfigModel { mysql_password: t, ..m },
                None::<Seq<char>>,
            )
            &&& step == ConfigStep::MysqlDatabase && t.len() > 0 ==> r == (
                ConfigStep::Done,
                ConfigModel { mysql_database: t, ..m },
                None::<Seq<char>>,
            )
            &&& step == ConfigStep::SqlitePath && t.len() > 0 ==> r == (
                ConfigStep::Done,
                ConfigModel { sqlite_path: t, ..m },
                None::<Seq<char>>,
            )
        }),
{
    let t = trimmed(line);
    if is_word_ignoring_case(t, "external"@) && t.len() > 0 {
        reveal_strlit("internal");
        reveal_strlit("external");
        assert(ascii_lower(t[0]) == "external"@[0]);
        assert(!is_word_ignoring_case(t, "internal"@));
    }
}

/// How far a step is from the end of the configuration.
pub open spec fn step_rank(step: ConfigStep) -> nat {
    match step {
        ConfigStep::BindIp => 10,
        ConfigStep::LicenseIp => 9,
        ConfigStep::Port => 8,
        ConfigStep::DatabaseType => 7,
        ConfigStep::MysqlHostname => 6,
        ConfigStep::MysqlPort => 5,
        ConfigStep::MysqlUsername => 4,
        ConfigStep::MysqlPassword => 3,
        ConfigStep::MysqlDatabase => 2,
        ConfigStep::SqlitePath => 1,
        ConfigStep::Done => 0,
    }
}

/// The configuration always comes to an end: every accepted answer moves to a step
/// closer to the end, so at most ten answers are accepted before every question was
/// answered.
pub proof fn law_configuration_ends(step: ConfigStep, m: ConfigModel, line: Seq<char>)
    ensures
        step != ConfigStep::Done && answer_effect(step, m, line).2 is None ==> step_rank(
            answer_effect(step, m, line).0,
        ) < step_rank(step),
        step_rank(step) <= 10,
{
}

/// Where the configuration stands, and its settings, after `lines` were answered one
/// by one from `step` with the settings `m`.
pub open spec fn run_answers(step: ConfigStep, m: ConfigModel, lines: Seq<Seq<char>>) -> (
    ConfigStep,
    ConfigModel,
)
    decreases lines.len(),
{
    if lines.len() == 0 {
        (step, m)
    } else {
        let (s, m2, _e) = answer_effect(step, m, lines[0]);
        run_answers(s, m2, lines.drop_first())
    }
}

/// `m` has the MySQL settings of `m0`.
pub open spec fn mysql_kept(m: ConfigModel, m0: ConfigModel) -> bool {
    &&& m.mysql_hostname == m0.mysql_hostname
    &&& m.mysql_port == m0.mysql_port
    &&& m.mysql_username == m0.mysql_username
    &&& m.mysql_password == m0.mysql_password
    &&& m.mysql_database == m0.mysql_database
}

/// `m` has the settings of `m0` that no question asks about.
pub open spec fn unasked_kept(m: ConfigModel, m0: ConfigModel) -> bool {
    &&& m.user_list == m0.user_list
    &&& m.allow_citizen_changes == m0.allow_citizen_changes
    &&& m.allow_immigration == m0.allow_immigration
}

/// What holds at each step of a configuration that started from `m0`: the settings
/// of the kind of database that was not chosen are those of `m0`.
spec fn run_invariant(step: ConfigStep, m: ConfigModel, m0: ConfigModel) -> bool {
    &&& unasked_kept(m, m0)
    &&& match step {
        ConfigStep::BindIp | ConfigStep::LicenseIp | ConfigStep::Port
        | ConfigStep::DatabaseType => mysql_kept(m, m0) && m.sqlite_path == m0.sqlite_path,
        ConfigStep::MysqlHostname | ConfigStep::MysqlPort | ConfigStep::MysqlUsername
        | ConfigStep::MysqlPassword | ConfigStep::MysqlDatabase => m.database_type
            == DatabaseType::External && m.sqlite_path == m0.sqlite_path,
        ConfigStep::SqlitePath => m.database_type == DatabaseType::Internal && mysql_kept(m, m0),
        ConfigStep::Done => (m.database_type == DatabaseType::External && m.sqlite_path
            == m0.sqlite_path) || (m.database_type == DatabaseType::Internal && mysql_kept(m, m0)),
    }
}

proof fn lemma_answer_keeps_invariant(step: ConfigStep, m: ConfigModel, m0: ConfigModel, line: Seq<char>)
    requires
        run_invariant(step, m, m0),
    ensures
        run_invariant(answer_effect(step, m, line).0, answer_effect(step, m, line).1, m0),
{
}

proof fn lemma_run_keeps_invariant(step: ConfigStep, m: ConfigModel, m0: ConfigModel, lines: Seq<Seq<char>>)
    requires
        run_invariant(step, m, m0),
    ensures
        run_invariant(run_answers(step, m, lines).0, run_answers(step, m, lines).1, m0),
    decreases lines.len(),
{
    if lines.len() > 0 {
        lemma_answer_keeps_invariant(step, m, m0, lines[0]);
        let (s, m2, _e) = answer_effect(step, m, lines[0]);
        lemma_run_keeps_invariant(s, m2, m0, lines.drop_first());
    }
}

/// Whatever is answered, a configuration that starts from the defaults `m0` only
/// sets up the kind of database that was chosen: with an internal database the MySQL
/// settings stay those of `m0`, with an external one the SQLite path does; and the
/// settings that no question asks about stay those of `m0`.
pub proof fn law_run_sets_up_chosen_database(m0: ConfigModel, lines: Seq<Seq<char>>)
    ensures
        unasked_kept(run_answers(ConfigStep::BindIp, m0, lines).1, m0),
        run_answers(ConfigStep::BindIp, m0, lines).1.database_type == DatabaseType::Internal
            ==> mysql_kept(run_answers(ConfigStep::BindIp, m0, lines).1, m0),
        run_answers(ConfigStep::BindIp, m0, lines).1.database_type == DatabaseType::External
            ==> run_answers(ConfigStep::BindIp, m0, lines).1.sqlite_path == m0.sqlite_path,
{
    lemma_run_keeps_invariant(ConfigStep::BindIp, m0, m0, lines);
}

/// What the debugging allocator reports about one allocation.
#[derive(Clone, Copy, Debug, PartialEq, Eq, Structural)]
pub struct AllocationCheck {
    /// The total in use has grown beyond a billion bytes: the program stops.
    pub over_limit: bool,
    /// The allocation itself is larger than a million bytes: a warning is printed.
    pub large: bool,
}

/// Checks an allocation of `size` bytes that brings the total in use to `used`.
pub fn allocation_check(used: usize, size: usize) -> (c: AllocationCheck)
    ensures
        c.over_limit == (used > 1_000_000_000),
        c.large == (size > 1_000_000),
{
    AllocationCheck { over_limit: used > 1_000_000_000, large: size > 1_000_000 }
}

} // verus!
