use vstd::prelude::*;

use crate::client::{citizen_id_of, player_info_of, ClientInfo};
use crate::db::{row_text, row_u32, DatabaseResult, Row, RowModel};
use crate::license::client_is_admin;
use crate::reason::ReasonCode;
use crate::text::chars_of;
use crate::timestamp::unix_epoch_timestamp_u32;

verus! {

/// An ejection (ban) of an address, as the ejection table stores it.
#[derive(Debug)]
pub struct EjectionQuery {
    pub address: u32,
    pub expiration: u32,
    pub creation: u32,
    pub comment: String,
}

/// Every column that an ejection needs is present and in range.
pub open spec fn ejection_row_complete(r: RowModel) -> bool {
    &&& row_u32(r, "Address"@) is Some
    &&& row_u32(r, "Creation"@) is Some
    &&& row_u32(r, "Expiration"@) is Some
    &&& row_text(r, "Comment"@) is Some
}

/// `e` holds exactly the values of the row.
pub open spec fn ejection_matches_row(e: EjectionQuery, r: RowModel) -> bool {
    &&& row_u32(r, "Address"@) == Some(e.address)
    &&& row_u32(r, "Creation"@) == Some(e.creation)
    &&& row_u32(r, "Expiration"@) == Some(e.expiration)
    &&& row_text(r, "Comment"@) == Some(e.comment@)
}

/// Reads an ejection from a row of the ejection table.
pub fn fetch_ejection(row: &Row) -> (r: DatabaseResult<EjectionQuery>)
    ensures
        r is Success <==> ejection_row_complete(row@),
        r matches DatabaseResult::Success(e) ==> ejection_matches_row(e, row@),
{
    let address = match row.fetch_u32("Address") {
        Some(x) => x,
        None => return DatabaseResult::DatabaseError,
    };
    let creation = match row.fetch_u32("Creation") {
        Some(x) => x,
        None => return DatabaseResult::DatabaseError,
    };
    let expiration = match row.fetch_u32("Expiration") {
        Some(x) => x,
        None => return DatabaseResult::DatabaseError,
    };
    let comment = match row.fetch_string("Comment") {
        Some(x) => x,
        None => return DatabaseResult::DatabaseError,
    };
    DatabaseResult::Success(EjectionQuery { address, expiration, creation, comment })
}

/// The ejection that a lookup (exact, next or previous address) finds: the first row,
/// none without rows, a database error for an unreadable row.
pub fn ejection_from_rows(rows: &Vec<Row>) -> (r: DatabaseResult<Option<EjectionQuery>>)
    ensures
        rows@.len() == 0 ==> r matches DatabaseResult::Success(None),
        rows@.len() > 0 ==> (r is Success <==> ejection_row_complete(rows@[0]@)),
        rows@.len() > 0 ==> (r matches DatabaseResult::Success(found) ==> found matches Some(e)
            && ejection_matches_row(e, rows@[0]@)),
{
    if rows.len() == 0 {
        return DatabaseResult::Success(None);
    }
    match fetch_ejection(&rows[0]) {
        DatabaseResult::Success(e) => DatabaseResult::Success(Some(e)),
        DatabaseResult::DatabaseError => DatabaseResult::DatabaseError,
    }
}

/// Whether an ejection has expired at time `now`.
pub fn is_ejection_expired_at(now: u32, ejection: &EjectionQuery) -> (b: bool)
    ensures
        b == (now > ejection.expiration),
{
    now > ejection.expiration
}

/// Whether an ejection has expired by the current time. An ejection that expires at
/// the largest timestamp never has.
pub fn is_ejection_expired(ejection: &EjectionQuery) -> (b: bool)
    ensures
        ejection.expiration == u32::MAX ==> !b,
{
    is_ejection_expired_at(unix_epoch_timestamp_u32(), ejection)
}

/// A hexadecimal digit, in either case.
pub open spec fn is_hex_digit(c: char) -> bool {
    ('0' <= c <= '9') || ('a' <= c <= 'f') || ('A' <= c <= 'F')
}

/// The value of a hexadecimal digit.
pub open spec fn hex_digit_value(c: char) -> int {
    if '0' <= c <= '9' {
        c as int - '0' as int
    } else if 'a' <= c <= 'f' {
        c as int - 'a' as int + 10
    } else {
        c as int - 'A' as int + 10
    }
}

/// The number that a string of hexadecimal digits writes.
pub open spec fn hex_value(t: Seq<char>) -> int
    decreases t.len(),
{
    if t.len() == 0 {
        0
    } else {
        hex_value(t.drop_last()) * 16 + hex_digit_value(t.last())
    }
}

/// The value of one or more hexadecimal digits, if it fits in 32 bits.
pub open spec fn parse_hex_digits(d: Seq<char>) -> Option<u32> {
    if d.len() > 0 && (forall|i: int| 0 <= i < d.len() ==> is_hex_digit(#[trigger] d[i]))
        && hex_value(d) <= u32::MAX {
        Some(hex_value(d) as u32)
    } else {
        None
    }
}

/// What `u32::from_str_radix(t, 16)` gives: an optional `+`, then one or more
/// hexadecimal digits whose value fits in 32 bits.
pub open spec fn parse_hex_u32(t: Seq<char>) -> Option<u32> {
    if t.len() > 0 && t[0] == '+' {
        parse_hex_digits(t.drop_first())
    } else {
        parse_hex_digits(t)
    }
}

/// The prefix that marks an ejection by serial number.
pub open spec fn serial_prefix() -> Seq<char> {
    seq!['s', 'e', 'r', 'i', 'a', 'l', '=', '0', 'x']
}

/// The serial number that an ejection comment "serial=0x<hex>" names.
pub open spec fn comment_serial(comment: Seq<char>) -> Option<u32> {
    if comment.len() >= 9 && comment.take(9) == serial_prefix() {
        parse_hex_u32(comment.skip(9))
    } else {
        None
    }
}

proof fn lemma_hex_value_prefix(t: Seq<char>, k: int)
    requires
        forall|i: int| 0 <= i < t.len() ==> is_hex_digit(#[trigger] t[i]),
        0 <= k <= t.len(),
    ensures
        0 <= hex_value(t.take(k)) <= hex_value(t),
    decreases t.len() - k,
{
    if k < t.len() {
        lemma_hex_value_prefix(t, k + 1);
        assert(t.take(k + 1).drop_last() =~= t.take(k));
        assert(t.take(k + 1).last() == t[k]);
        lemma_hex_value_nonneg(t.take(k));
    } else {
        assert(t.take(k) =~= t);
        lemma_hex_value_nonneg(t);
    }
}

proof fn lemma_hex_value_nonneg(t: Seq<char>)
    requires
        forall|i: int| 0 <= i < t.len() ==> is_hex_digit(#[trigger] t[i]),
    ensures
        hex_value(t) >= 0,
    decreases t.len(),
{
    if t.len() > 0 {
        assert(is_hex_digit(t[t.len() - 1]));
        lemma_hex_value_nonneg(t.drop_last());
    }
}

/// Reads the serial number out of an ejection comment of the form "serial=0x<hex>".
pub fn serial_from_comment(comment: &str) -> (r: Option<u32>)
    ensures
        r == comment_serial(comment@),
{
    let v = chars_of(comment);
    let n = v.len();
    if n < 9 {
        return None;
    }
    let ghost c = v@;
    assert(c == comment@);
    if !(v[0] == 's' && v[1] == 'e' && v[2] == 'r' && v[3] == 'i' && v[4] == 'a' && v[5] == 'l'
        && v[6] == '=' && v[7] == '0' && v[8] == 'x') {
        assert(c.take(9) != serial_prefix()) by {
            if c.take(9) == serial_prefix() {
                assert(c.take(9)[0] == c[0] && c.take(9)[1] == c[1] && c.take(9)[2] == c[2]);
                assert(c.take(9)[3] == c[3] && c.take(9)[4] == c[4] && c.take(9)[5] == c[5]);
                assert(c.take(9)[6] == c[6] && c.take(9)[7] == c[7] && c.take(9)[8] == c[8]);
            }
        }
        return None;
    }
    assert(c.take(9) =~= serial_prefix());
    let ghost t = c.skip(9);
    let mut start: usize = 9;
    if n > 9 && v[9] == '+' {
        start = 10;
    }
    let ghost d = c.subrange(start as int, n as int);
    assert(t.len() > 0 && t[0] == '+' ==> d =~= t.drop_first());
    assert(!(t.len() > 0 && t[0] == '+') ==> d =~= t);
    if start == n {
        return None;
    }
    let mut val: u64 = 0;
    let mut i = start;
    while i < n
        invariant
            9 <= start <= i <= n,
            n == v@.len(),
            c == v@,
            c == comment@,
            d == c.subrange(start as int, n as int),
            forall|j: int| 0 <= j < i - start ==> is_hex_digit(#[trigger] d[j]),
            val == hex_value(d.take(i - start)),
            val <= u32::MAX,
            t == c.skip(9),
            c.take(9) == serial_prefix(),
            t.len() > 0 && t[0] == '+' ==> d == t.drop_first(),
            !(t.len() > 0 && t[0] == '+') ==> d == t,
            d.len() > 0,
        decreases n - i,
    {
        let ch = v[i];
        let ghost k = i - start;
        assert(d[k] == ch);
        let digit: u64 = if '0' <= ch && ch <= '9' {
            (ch as u32 - 48) as u64
        } else if 'a' <= ch && ch <= 'f' {
            (ch as u32 - 87) as u64
        } else if 'A' <= ch && ch <= 'F' {
            (ch as u32 - 55) as u64
        } else {
            assert(!is_hex_digit(d[k]));
            assert(comment@.len() >= 9 && comment@.take(9) == serial_prefix());
            assert(comment@.skip(9) == t);
            proof {
                let dd = if t.len() > 0 && t[0] == '+' {
                    t.drop_first()
                } else {
                    t
                };
                assert(dd == d);
                assert(0 <= k < dd.len());
                assert(!is_hex_digit(dd[k]));
                assert(!(forall|j: int| 0 <= j < dd.len() ==> is_hex_digit(#[trigger] dd[j])));
                assert(!(dd.len() > 0 && (forall|j: int| 0 <= j < dd.len() ==> is_hex_digit(#[trigger] dd[j]))
                    && hex_value(dd) <= u32::MAX));
            }
            assert(parse_hex_u32(t) is None);
            return None;
        };
        assert(d.take(k + 1).drop_last() =~= d.take(k));
        assert(d.take(k + 1).last() == ch);
        val = val * 16 + digit;
        i = i + 1;
        if val > 0xffff_ffff {
            proof {
                assert forall|j: int| 0 <= j < k + 1 implies is_hex_digit(#[trigger] d.take(k + 1)[j]) by {
                    assert(d.take(k + 1)[j] == d[j]);
                }
                if forall|j: int| 0 <= j < d.len() ==> is_hex_digit(#[trigger] d[j]) {
                    lemma_hex_value_prefix(d, k + 1);
                }
            }
            return None;
        }
    }
    assert(d.take(d.len() as int) =~= d);
    Some(val as u32)
}

/// The serial number of a connected client's program, if it is a player that sent one.
pub open spec fn client_serial(client: Option<ClientInfo>) -> Option<u32> {
    match client {
        Some(c) => match player_info_of(c) {
            Some(g) => g.serial,
            None => None,
        },
        None => None,
    }
}

/// Where a scan of the ejection table stands: finished with its verdict (`None` when
/// the database failed), or to go on with the first ejection above an address.
#[derive(Debug, PartialEq, Eq, Structural)]
pub enum EjectionScan {
    Finished(Option<bool>),
    NextAfter(u32),
}

/// How a scan for ejections of a connection starts; see `ejection_scan_start`.
pub open spec fn scan_start(is_ipv4: bool, client: Option<ClientInfo>) -> EjectionScan {
    if !is_ipv4 || (client matches Some(c) && citizen_id_of(c) == Some(1u32)) {
        EjectionScan::Finished(Some(false))
    } else {
        EjectionScan::NextAfter(0)
    }
}

/// How a scan for ejections of a connection starts: connections without an IPv4
/// address are never ejected, nor is the administrator (citizen 1); every other scan
/// starts above address 0.
pub fn ejection_scan_start(is_ipv4: bool, client: Option<&ClientInfo>) -> (s: EjectionScan)
    ensures
        !is_ipv4 ==> s == EjectionScan::Finished(Some(false)),
        is_ipv4 && (client matches Some(c) && citizen_id_of(*c) == Some(1u32)) ==> s
            == EjectionScan::Finished(Some(false)),
        is_ipv4 && !(client matches Some(c) && citizen_id_of(*c) == Some(1u32)) ==> s
            == EjectionScan::NextAfter(0),
        s == scan_start(
            is_ipv4,
            match client {
                Some(c) => Some(*c),
                None => None,
            },
        ),
{
    if !is_ipv4 {
        return EjectionScan::Finished(Some(false));
    }
    if let Some(c) = client {
        if let Some(user_id) = c.citizen_id() {
            if user_id == 1 {
                return EjectionScan::Finished(Some(false));
            }
        }
    }
    EjectionScan::NextAfter(0)
}

/// The next state of an ejection scan; see `ejection_scan_step`.
pub open spec fn scan_step(
    now: u32,
    ip: u32,
    conn_serial: Option<u32>,
    next: DatabaseResult<Option<EjectionQuery>>,
) -> EjectionScan {
    match next {
        DatabaseResult::DatabaseError => EjectionScan::Finished(None),
        DatabaseResult::Success(None) => EjectionScan::Finished(Some(false)),
        DatabaseResult::Success(Some(e)) => if now > e.expiration {
            EjectionScan::NextAfter(e.address)
        } else if e.address == ip {
            EjectionScan::Finished(Some(true))
        } else {
            match comment_serial(e.comment@) {
                Some(serial) => if conn_serial == Some(serial) {
                    EjectionScan::Finished(Some(true))
                } else {
                    EjectionScan::NextAfter(e.address)
                },
                None => EjectionScan::NextAfter(e.address),
            }
        },
    }
}

/// One step of the scan, given the next ejection (by increasing address) that the
/// database returned. An expired ejection is skipped; an ejection of the connection's
/// address, or of the serial number that its comment names when that is the
/// connection's serial, ejects it; the end of the table means not ejected.
pub fn ejection_scan_step(
    now: u32,
    ip: u32,
    conn_serial: Option<u32>,
    next: &DatabaseResult<Option<EjectionQuery>>,
) -> (s: EjectionScan)
    ensures
        s == scan_step(now, ip, conn_serial, *next),
{
    match next {
        DatabaseResult::Success(Some(ejection)) => {
            // Don't enforce expired ejections
            if is_ejection_expired_at(now, ejection) {
                return EjectionScan::NextAfter(ejection.address);
            }
            if ejection.address == ip {
                return EjectionScan::Finished(Some(true));
            }
            let comment_serial = match serial_from_comment(ejection.comment.as_str()) {
                Some(s) => s,
                None => return EjectionScan::NextAfter(ejection.address),
            };
            if let Some(serial) = conn_serial {
                if serial == comment_serial {
                    return EjectionScan::Finished(Some(true));
                }
            }
            EjectionScan::NextAfter(ejection.address)
        },
        DatabaseResult::Success(None) => EjectionScan::Finished(Some(false)),
        DatabaseResult::DatabaseError => EjectionScan::Finished(None),
    }
}

/// The serial number of a connected client, as the scan compares it.
pub fn connection_serial(client: Option<&ClientInfo>) -> (r: Option<u32>)
    ensures
        r == client_serial(match client {
            Some(c) => Some(*c),
            None => None,
        }),
{
    match client {
        Some(c) => match c.player_info() {
            Some(p) => p.serial,
            None => None,
        },
        None => None,
    }
}

/// An ejection that has expired ejects no one: the scan passes over it to the next
/// address, whatever address or serial number it names.
pub proof fn law_expired_ejection_is_skipped(
    now: u32,
    ip: u32,
    conn_serial: Option<u32>,
    e: EjectionQuery,
)
    requires
        now > e.expiration,
    ensures
        scan_step(now, ip, conn_serial, DatabaseResult::Success(Some(e)))
            == EjectionScan::NextAfter(e.address),
{
}

/// A live ejection of the connection's own address always ejects it.
pub proof fn law_address_match_ejects(ip: u32, now: u32, conn_serial: Option<u32>, e: EjectionQuery)
    requires
        now <= e.expiration,
        e.address == ip,
    ensures
        scan_step(now, ip, conn_serial, DatabaseResult::Success(Some(e)))
            == EjectionScan::Finished(Some(true)),
{
}

/// Which ejection a lookup asks for, relative to an address.
#[derive(Clone, Copy, Debug, PartialEq, Eq, Structural)]
pub enum EjectionLookupMethod {
    Previous,
    Exact,
    Next,
}

/// The address an administrator's ejection request is about; `None` (nothing is
/// done) for other clients or without an address.
pub fn eject_lookup(client: &Option<ClientInfo>, address: Option<u32>) -> (r: Option<u32>)
    ensures
        r == (if client_is_admin(*client) {
            address
        } else {
            None
        }),
{
    let admin = match client {
        Some(c) => c.has_admin_permissions(),
        None => false,
    };
    if !admin {
        return None;
    }
    address
}

/// The answer to an ejection lookup: the ejection found, or why there is none.
pub fn eject_lookup_by_method(found: DatabaseResult<Option<EjectionQuery>>) -> (r: (
    ReasonCode,
    Option<EjectionQuery>,
))
    ensures
        found matches DatabaseResult::Success(Some(e)) ==> r == (ReasonCode::Success, Some(e)),
        found matches DatabaseResult::Success(None) ==> r == (
            ReasonCode::NoSuchEjection,
            None::<EjectionQuery>,
        ),
        found is DatabaseError ==> r == (ReasonCode::DatabaseError, None::<EjectionQuery>),
{
    match found {
        DatabaseResult::Success(Some(ejection)) => (ReasonCode::Success, Some(ejection)),
        DatabaseResult::Success(None) => (ReasonCode::NoSuchEjection, None),
        DatabaseResult::DatabaseError => (ReasonCode::DatabaseError, None),
    }
}

/// The answer to an ejection removal.
pub fn eject_delete(deleted: &DatabaseResult<()>) -> (rc: ReasonCode)
    ensures
        deleted is Success ==> rc == ReasonCode::Success,
        deleted is DatabaseError ==> rc == ReasonCode::DatabaseError,
{
    match deleted {
        DatabaseResult::Success(_) => ReasonCode::Success,
        DatabaseResult::DatabaseError => ReasonCode::DatabaseError,
    }
}

/// The ejection table sorted by address, each address once.
pub open spec fn sorted_by_address(t: Seq<EjectionQuery>) -> bool {
    forall|i: int, j: int| 0 <= i < j < t.len() ==> #[trigger] t[i].address < #[trigger] t[j].address
}

/// What the database answers when asked for the first ejection above address `a`:
/// the first one of the table, in its order, whose address is above `a`.
pub open spec fn next_after(t: Seq<EjectionQuery>, a: u32) -> Option<EjectionQuery>
    decreases t.len(),
{
    if t.len() == 0 {
        None
    } else if t[0].address > a {
        Some(t[0])
    } else {
        next_after(t.drop_first(), a)
    }
}

/// An ejection ejects the connection: it has not expired at `now`, and it names the
/// connection's address, or its comment names the connection's serial number.
pub open spec fn ejects(e: EjectionQuery, now: u32, ip: u32, conn_serial: Option<u32>) -> bool {
    &&& now <= e.expiration
    &&& (e.address == ip || (comment_serial(e.comment@) matches Some(s) && conn_serial == Some(s)))
}

/// Some ejection of the table above address `a` ejects the connection.
pub open spec fn ejected_above(t: Seq<EjectionQuery>, now: u32, ip: u32, conn_serial: Option<u32>, a: u32) -> bool {
    exists|i: int| 0 <= i < t.len() && t[i].address > a && #[trigger] ejects(t[i], now, ip, conn_serial)
}

/// Where a scan stands after at most `fuel` steps from `NextAfter(a)`, when each
/// question is answered from the table `t`.
pub open spec fn run_scan(
    t: Seq<EjectionQuery>,
    now: u32,
    ip: u32,
    conn_serial: Option<u32>,
    a: u32,
    fuel: nat,
) -> EjectionScan
    decreases fuel,
{
    if fuel == 0 {
        EjectionScan::NextAfter(a)
    } else {
        match scan_step(now, ip, conn_serial, DatabaseResult::Success(next_after(t, a))) {
            EjectionScan::NextAfter(b) => run_scan(t, now, ip, conn_serial, b, (fuel - 1) as nat),
            s => s,
        }
    }
}

proof fn lemma_next_after_above(t: Seq<EjectionQuery>, a: u32)
    ensures
        next_after(t, a) matches Some(e) ==> e.address > a,
    decreases t.len(),
{
    if t.len() > 0 && t[0].address <= a {
        lemma_next_after_above(t.drop_first(), a);
    }
}

proof fn lemma_run_drop(t: Seq<EjectionQuery>, now: u32, ip: u32, conn_serial: Option<u32>, a: u32, fuel: nat)
    requires
        t.len() > 0,
        t[0].address <= a,
    ensures
        run_scan(t, now, ip, conn_serial, a, fuel) == run_scan(
            t.drop_first(),
            now,
            ip,
            conn_serial,
            a,
            fuel,
        ),
    decreases fuel,
{
    assert(next_after(t, a) == next_after(t.drop_first(), a));
    if fuel > 0 {
        lemma_next_after_above(t.drop_first(), a);
        match scan_step(now, ip, conn_serial, DatabaseResult::Success(next_after(t, a))) {
            EjectionScan::NextAfter(b) => {
                assert(b > a);
                lemma_run_drop(t, now, ip, conn_serial, b, (fuel - 1) as nat);
            },
            _ => {},
        }
    }
}

/// The whole ejection scan: started above address `a` and answered from a table
/// sorted by address, it ends (within one step more than the table has ejections)
/// with the verdict "ejected" exactly when some ejection above `a` has not expired
/// and names the connection's address or serial number.
pub proof fn law_scan_over_table(
    t: Seq<EjectionQuery>,
    now: u32,
    ip: u32,
    conn_serial: Option<u32>,
    a: u32,
    fuel: nat,
)
    requires
        sorted_by_address(t),
        fuel >= t.len() + 1,
    ensures
        run_scan(t, now, ip, conn_serial, a, fuel) == EjectionScan::Finished(
            Some(ejected_above(t, now, ip, conn_serial, a)),
        ),
    decreases t.len(),
{
    let d = t.drop_first();
    if t.len() == 0 {
        assert(!ejected_above(t, now, ip, conn_serial, a));
    } else {
        assert(sorted_by_address(d)) by {
            assert forall|i: int, j: int| 0 <= i < j < d.len() implies #[trigger] d[i].address
                < #[trigger] d[j].address by {
                assert(d[i] == t[i + 1] && d[j] == t[j + 1]);
            }
        }
        if t[0].address <= a {
            lemma_run_drop(t, now, ip, conn_serial, a, fuel);
            law_scan_over_table(d, now, ip, conn_serial, a, fuel);
            if ejected_above(t, now, ip, conn_serial, a) {
                let i = choose|i: int|
                    0 <= i < t.len() && t[i].address > a && #[trigger] ejects(t[i], now, ip, conn_serial);
                assert(d[i - 1] == t[i]);
            }
            if ejected_above(d, now, ip, conn_serial, a) {
                let i = choose|i: int|
                    0 <= i < d.len() && d[i].address > a && #[trigger] ejects(d[i], now, ip, conn_serial);
                assert(t[i + 1] == d[i]);
            }
        } else {
            let e = t[0];
            assert(next_after(t, a) == Some(e));
            if ejects(e, now, ip, conn_serial) {
                assert(run_scan(t, now, ip, conn_serial, a, fuel) == EjectionScan::Finished(Some(true)));
                assert(ejected_above(t, now, ip, conn_serial, a));
            } else {
                assert(scan_step(now, ip, conn_serial, DatabaseResult::Success(Some(e)))
                    == EjectionScan::NextAfter(e.address));
                lemma_run_drop(t, now, ip, conn_serial, e.address, (fuel - 1) as nat);
                law_scan_over_table(d, now, ip, conn_serial, e.address, (fuel - 1) as nat);
                if ejected_above(t, now, ip, conn_serial, a) {
                    let i = choose|i: int|
                        0 <= i < t.len() && t[i].address > a && #[trigger] ejects(t[i], now, ip, conn_serial);
                    assert(i != 0);
                    assert(t[0].address < t[i].address);
                    assert(d[i - 1] == t[i]);
                }
                if ejected_above(d, now, ip, conn_serial, e.address) {
                    let i = choose|i: int|
                        0 <= i < d.len() && d[i].address > e.address && #[trigger] ejects(
                            d[i],
                            now,
                            ip,
                            conn_serial,
                        );
                    assert(t[i + 1] == d[i]);
                }
            }
        }
    }
}


/// The verdict of a whole scan for a connection: started by `ejection_scan_start`
/// and stepped by `ejection_scan_step` at most `fuel` times, each step answered from
/// the table `t`; `None` when it has not finished by then.
pub open spec fn connection_scan(
    is_ipv4: bool,
    client: Option<ClientInfo>,
    t: Seq<EjectionQuery>,
    now: u32,
    ip: u32,
    fuel: nat,
) -> Option<bool> {
    match scan_start(is_ipv4, client) {
        EjectionScan::Finished(v) => v,
        EjectionScan::NextAfter(a) => match run_scan(t, now, ip, client_serial(client), a, fuel) {
            EjectionScan::Finished(v) => v,
            EjectionScan::NextAfter(_) => None,
        },
    }
}

/// Whether a connection is ejected, over a whole ejection table sorted by address
/// (address 0 stands for no address and is never looked at): a connection with an
/// IPv4 address whose client is not the administrator (citizen 1) is ejected exactly
/// when some ejection of the table has not expired at `now` and names the
/// connection's address, or its comment names the connection's serial number; any
/// other connection is never ejected. The scan finishes within one step more than the
/// table has ejections.
pub proof fn law_connection_ejected(
    is_ipv4: bool,
    client: Option<ClientInfo>,
    t: Seq<EjectionQuery>,
    now: u32,
    ip: u32,
    fuel: nat,
)
    requires
        sorted_by_address(t),
        fuel >= t.len() + 1,
    ensures
        connection_scan(is_ipv4, client, t, now, ip, fuel) == Some(
            is_ipv4 && !(client matches Some(c) && citizen_id_of(c) == Some(1u32)) && exists|i: int|
                0 <= i < t.len() && t[i].address > 0 && #[trigger] ejects(
                    t[i],
                    now,
                    ip,
                    client_serial(client),
                ),
        ),
{
    if is_ipv4 && !(client matches Some(c) && citizen_id_of(c) == Some(1u32)) {
        law_scan_over_table(t, now, ip, client_serial(client), 0, fuel);
    }
}

} // verus!
