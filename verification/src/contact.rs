use vstd::prelude::*;

use crate::db::{row_u32, Row, RowModel};
use crate::reason::ReasonCode;


verus! {

/// The flag bits of `ContactOptions`.
pub const STATUS_ALLOWED: u32 = 0x0001;
pub const STATUS_BLOCKED: u32 = 0x0002;
pub const LOCATION_ALLOWED: u32 = 0x0004;
pub const LOCATION_BLOCKED: u32 = 0x0008;
pub const TELEGRAMS_ALLOWED: u32 = 0x0010;
pub const TELEGRAMS_BLOCKED: u32 = 0x0020;
pub const FILE_TRANSFER_ALLOWED: u32 = 0x0100;
pub const FILE_TRANSFER_BLOCKED: u32 = 0x0200;
pub const JOIN_ALLOWED: u32 = 0x0040;
pub const JOIN_BLOCKED: u32 = 0x0080;
pub const CHAT_ALLOWED: u32 = 0x0400;
pub const CHAT_BLOCKED: u32 = 0x0800;
pub const FRIEND_REQUEST_ALLOWED: u32 = 0x1000;
pub const FRIEND_REQUEST_BLOCKED: u32 = 0x2000;
pub const ALL_ALLOWED: u32 = 0x4000;
pub const ALL_BLOCKED: u32 = 0x8000;

/// Every flag bit that `ContactOptions` knows.
pub const CONTACT_OPTIONS_ALL: u32 = 0xffff;

/// A citizen's privacy options towards one contact, as a set of flag bits. Each kind
/// of permission has an "allowed" and a "blocked" bit; `ALL_ALLOWED` / `ALL_BLOCKED`
/// speak for every kind at once.
#[derive(Clone, Copy, Debug, PartialEq, Eq)]
pub struct ContactOptions {
    pub bits: u32,
}

/// Both bits of the permission pair that `mask` selects are touched by `changes`
/// when `changes` holds either of them.
pub open spec fn touched_pair(changes: u32, mask: u32) -> u32 {
    if changes & mask != 0 {
        mask
    } else {
        0
    }
}

/// The permission pairs (status, location, telegrams, joins, file transfers, chat,
/// friend requests, and the pair that speaks for all of them) that `changes` says
/// anything about.
pub open spec fn touched_mask(changes: u32) -> u32 {
    touched_pair(changes, 0x0003) | touched_pair(changes, 0x000c) | touched_pair(changes, 0x0030)
        | touched_pair(changes, 0x0300) | touched_pair(changes, 0x00c0) | touched_pair(
        changes,
        0x0c00,
    ) | touched_pair(changes, 0x3000) | touched_pair(changes, 0xc000)
}

/// The options after applying `changes` to `old`: every pair that `changes` touches
/// takes its two bits from `changes`, every other bit keeps its old value.
pub open spec fn applied_options(old: u32, changes: u32) -> u32 {
    (old & !touched_mask(changes)) | (changes & touched_mask(changes))
}

/// `allowed` and `blocked` are the two flags of one permission pair.
pub open spec fn pair_flags(allowed: u32, blocked: u32) -> bool {
    ||| allowed == 0x0001 && blocked == 0x0002
    ||| allowed == 0x0004 && blocked == 0x0008
    ||| allowed == 0x0010 && blocked == 0x0020
    ||| allowed == 0x0040 && blocked == 0x0080
    ||| allowed == 0x0100 && blocked == 0x0200
    ||| allowed == 0x0400 && blocked == 0x0800
    ||| allowed == 0x1000 && blocked == 0x2000
    ||| allowed == 0x4000 && blocked == 0x8000
}

/// Whether all the bits of `flag` are set in `bits`.
pub open spec fn has_flags(bits: u32, flag: u32) -> bool {
    bits & flag == flag
}

proof fn lemma_set_pair(cur: u32, changes: u32, a: u32, b: u32, mid: u32, out: u32)
    by (bit_vector)
    requires
        pair_flags(a, b),
        mid == if changes & a == a {
            cur | a
        } else {
            cur & !a
        },
        out == if changes & b == b {
            mid | b
        } else {
            mid & !b
        },
    ensures
        out == (cur & !(a | b)) | (changes & (a | b)),
        (changes & a == a || changes & b == b) == (changes & (a | b) != 0),
{
}

impl ContactOptions {
    /// The flag bits.
    pub open spec fn view(self) -> u32 {
        self.bits
    }

    /// Only known flags are ever set.
    pub open spec fn wf(self) -> bool {
        self.bits & !CONTACT_OPTIONS_ALL == 0
    }

    /// No flag set.
    pub fn empty() -> (o: ContactOptions)
        ensures
            o@ == 0,
    {
        ContactOptions { bits: 0 }
    }

    /// The raw flag bits.
    pub fn bits(&self) -> (b: u32)
        ensures
            b == self@,
    {
        self.bits
    }

    /// The options with exactly the bits of `bits`, or `None` if it holds a bit that
    /// no flag names.
    pub fn from_bits(bits: u32) -> (o: Option<ContactOptions>)
        ensures
            o is Some <==> bits & !CONTACT_OPTIONS_ALL == 0,
            o matches Some(x) ==> x@ == bits,
    {
        if bits & !CONTACT_OPTIONS_ALL == 0 {
            Some(ContactOptions { bits })
        } else {
            None
        }
    }

    /// The options with the known bits of `bits`; unknown bits are dropped.
    pub fn from_bits_truncate(bits: u32) -> (o: ContactOptions)
        ensures
            o@ == bits & CONTACT_OPTIONS_ALL,
            o.wf(),
    {
        let b = bits & CONTACT_OPTIONS_ALL;
        assert(b & !CONTACT_OPTIONS_ALL == 0) by (bit_vector)
            requires
                b == bits & CONTACT_OPTIONS_ALL,
        ;
        ContactOptions { bits: b }
    }

    /// Whether every flag of `other` is set here.
    pub fn contains(&self, flags: u32) -> (b: bool)
        ensures
            b == has_flags(self@, flags),
    {
        self.bits & flags == flags
    }

    /// Sets the flags of `other`.
    pub fn insert(&mut self, flags: u32)
        ensures
            final(self)@ == old(self)@ | flags,
    {
        self.bits = self.bits | flags;
    }

    /// Clears the flags of `other`.
    pub fn remove(&mut self, flags: u32)
        ensures
            final(self)@ == old(self)@ & !flags,
    {
        self.bits = self.bits & !flags;
    }

    /// Sets the flags of `other` when `value` holds, clears them otherwise.
    pub fn set(&mut self, flags: u32, value: bool)
        ensures
            final(self)@ == if value {
                old(self)@ | flags
            } else {
                old(self)@ & !flags
            },
    {
        if value {
            self.insert(flags);
        } else {
            self.remove(flags);
        }
    }

    /// Applies one permission pair of `other` to `self`.
    fn apply_pair(&mut self, other: ContactOptions, allowed: u32, blocked: u32)
        requires
            pair_flags(allowed, blocked),
        ensures
            final(self)@ == (old(self)@ & !touched_pair(other@, allowed | blocked)) | (other@
                & touched_pair(other@, allowed | blocked)),
    {
        let ghost cur = self@;
        if other.contains(allowed) || other.contains(blocked) {
            self.set(allowed, other.contains(allowed));
            let ghost mid = self@;
            self.set(blocked, other.contains(blocked));
            proof {
                lemma_set_pair(cur, other@, allowed, blocked, mid, self@);
            }
        } else {
            proof {
                lemma_set_pair(
                    cur,
                    other@,
                    allowed,
                    blocked,
                    if other@ & allowed == allowed {
                        cur | allowed
                    } else {
                        cur & !allowed
                    },
                    if other@ & blocked == blocked {
                        (if other@ & allowed == allowed {
                            cur | allowed
                        } else {
                            cur & !allowed
                        }) | blocked
                    } else {
                        (if other@ & allowed == allowed {
                            cur | allowed
                        } else {
                            cur & !allowed
                        }) & !blocked
                    },
                );
                assert((cur & !0u32) | (other@ & 0u32) == cur) by (bit_vector);
            }
        }
    }

    /// Returns new options, keeping the old options where the applied options are
    /// neither allowed nor blocked: every pair (status, location, telegrams, file
    /// transfers, joins, chat, friend requests, and `ALL_ALLOWED` / `ALL_BLOCKED`) for
    /// which `other` sets its "allowed" or its "blocked" bit takes both bits from
    /// `other`; every other pair keeps its bits from `self`.
    pub fn apply_changes(&self, other: ContactOptions) -> (new_options: ContactOptions)
        ensures
            new_options@ == applied_options(self@, other@),
    {
        let mut new_options = *self;
        let ghost o = other@;
        let ghost x0 = self@;
        assert(0x0001u32 | 0x0002u32 == 0x0003u32) by (bit_vector);
        assert(0x0004u32 | 0x0008u32 == 0x000cu32) by (bit_vector);
        assert(0x0010u32 | 0x0020u32 == 0x0030u32) by (bit_vector);
        assert(0x0100u32 | 0x0200u32 == 0x0300u32) by (bit_vector);
        assert(0x0040u32 | 0x0080u32 == 0x00c0u32) by (bit_vector);
        assert(0x0400u32 | 0x0800u32 == 0x0c00u32) by (bit_vector);
        assert(0x1000u32 | 0x2000u32 == 0x3000u32) by (bit_vector);
        assert(0x4000u32 | 0x8000u32 == 0xc000u32) by (bit_vector);
        new_options.apply_pair(other, STATUS_ALLOWED, STATUS_BLOCKED);
        let ghost x1 = new_options@;
        new_options.apply_pair(other, LOCATION_ALLOWED, LOCATION_BLOCKED);
        let ghost x2 = new_options@;
        new_options.apply_pair(other, TELEGRAMS_ALLOWED, TELEGRAMS_BLOCKED);
        let ghost x3 = new_options@;
        new_options.apply_pair(other, FILE_TRANSFER_ALLOWED, FILE_TRANSFER_BLOCKED);
        let ghost x4 = new_options@;
        new_options.apply_pair(other, JOIN_ALLOWED, JOIN_BLOCKED);
        let ghost x5 = new_options@;
        new_options.apply_pair(other, CHAT_ALLOWED, CHAT_BLOCKED);
        let ghost x6 = new_options@;
        new_options.apply_pair(other, FRIEND_REQUEST_ALLOWED, FRIEND_REQUEST_BLOCKED);
        let ghost x7 = new_options@;
        new_options.apply_pair(other, ALL_ALLOWED, ALL_BLOCKED);
        let ghost x8 = new_options@;
        assert(x8 == applied_options(x0, o)) by (bit_vector)
            requires
                x1 == (x0 & !touched_pair(o, 0x0003)) | (o & touched_pair(o, 0x0003)),
                x2 == (x1 & !touched_pair(o, 0x000c)) | (o & touched_pair(o, 0x000c)),
                x3 == (x2 & !touched_pair(o, 0x0030)) | (o & touched_pair(o, 0x0030)),
                x4 == (x3 & !touched_pair(o, 0x0300)) | (o & touched_pair(o, 0x0300)),
                x5 == (x4 & !touched_pair(o, 0x00c0)) | (o & touched_pair(o, 0x00c0)),
                x6 == (x5 & !touched_pair(o, 0x0c00)) | (o & touched_pair(o, 0x0c00)),
                x7 == (x6 & !touched_pair(o, 0x3000)) | (o & touched_pair(o, 0x3000)),
                x8 == (x7 & !touched_pair(o, 0xc000)) | (o & touched_pair(o, 0xc000)),
        ;
        new_options
    }
}


impl ContactOptions {
    /// The contact is blocked altogether.
    pub fn is_blocked(&self) -> (b: bool)
        ensures
            b == has_flags(self@, 0x8000),
    {
        self.contains(ALL_BLOCKED)
    }

    /// Friend requests are answered when nothing is blocked altogether and the
    /// `FRIEND_REQUEST_ALLOWED` bit is not set.
    pub fn is_friend_request_allowed(&self) -> (b: bool)
        ensures
            b == (!has_flags(self@, 0x8000) && !has_flags(self@, 0x1000)),
    {
        if self.contains(ALL_BLOCKED) {
            return false;
        }
        if self.contains(FRIEND_REQUEST_ALLOWED) {
            return false;
        }
        true
    }

    /// File transfers are allowed unless blocked altogether or blocked by their own bit.
    pub fn is_file_transfer_allowed(&self) -> (b: bool)
        ensures
            b == (!has_flags(self@, 0x8000) && !has_flags(self@, 0x0200)),
    {
        if self.contains(ALL_BLOCKED) {
            return false;
        }
        if self.contains(FILE_TRANSFER_BLOCKED) {
            return false;
        }
        true
    }

    /// Invites are allowed unless blocked altogether or joins are blocked.
    pub fn is_invite_allowed(&self) -> (b: bool)
        ensures
            b == (!has_flags(self@, 0x8000) && !has_flags(self@, 0x0080)),
    {
        if self.contains(ALL_BLOCKED) {
            return false;
        }
        if self.contains(JOIN_BLOCKED) {
            return false;
        }
        true
    }

    /// Joins are allowed unless blocked altogether or blocked by their own bit.
    pub fn is_join_allowed(&self) -> (b: bool)
        ensures
            b == (!has_flags(self@, 0x8000) && !has_flags(self@, 0x0080)),
    {
        if self.contains(ALL_BLOCKED) {
            return false;
        }
        if self.contains(JOIN_BLOCKED) {
            return false;
        }
        true
    }

    /// The location is shown unless blocked altogether or blocked by its own bit.
    pub fn is_location_allowed(&self) -> (b: bool)
        ensures
            b == (!has_flags(self@, 0x8000) && !has_flags(self@, 0x0008)),
    {
        if self.contains(ALL_BLOCKED) {
            return false;
        }
        if self.contains(LOCATION_BLOCKED) {
            return false;
        }
        true
    }

    /// The online status is shown unless blocked altogether or blocked by its own bit.
    pub fn is_status_allowed(&self) -> (b: bool)
        ensures
            b == (!has_flags(self@, 0x8000) && !has_flags(self@, 0x0002)),
    {
        if self.contains(ALL_BLOCKED) {
            return false;
        }
        if self.contains(STATUS_BLOCKED) {
            return false;
        }
        true
    }

    /// Telegrams are allowed unless blocked altogether or blocked by their own bit.
    pub fn is_telegram_allowed(&self) -> (b: bool)
        ensures
            b == (!has_flags(self@, 0x8000) && !has_flags(self@, 0x0020)),
    {
        if self.contains(ALL_BLOCKED) {
            return false;
        }
        if self.contains(TELEGRAMS_BLOCKED) {
            return false;
        }
        true
    }
}

impl Default for ContactOptions {
    fn default() -> (o: ContactOptions)
        ensures
            o@ == 0,
    {
        ContactOptions::empty()
    }
}

/// One of the eight pairs: an "allowed" bit and the "blocked" bit above it.
pub open spec fn is_permission_pair(m: u32) -> bool {
    m == 0x0003 || m == 0x000c || m == 0x0030 || m == 0x00c0 || m == 0x0300 || m == 0x0c00
        || m == 0x3000 || m == 0xc000
}

/// Applying no changes leaves the options as they were.
pub proof fn law_apply_no_changes(x: u32)
    ensures
        applied_options(x, 0) == x,
{
    assert(applied_options(x, 0) == x) by (bit_vector);
}

/// Applying the same changes twice gives what applying them once gives.
pub proof fn law_apply_idempotent(x: u32, c: u32)
    ensures
        applied_options(applied_options(x, c), c) == applied_options(x, c),
{
    assert(applied_options(applied_options(x, c), c) == applied_options(x, c)) by (bit_vector);
}

/// A permission pair that the changes mention takes its two bits from the changes;
/// one they do not mention keeps its old bits.
pub proof fn law_apply_pair(x: u32, c: u32, m: u32)
    requires
        is_permission_pair(m),
    ensures
        c & m != 0 ==> applied_options(x, c) & m == c & m,
        c & m == 0 ==> applied_options(x, c) & m == x & m,
{
    assert(c & m != 0 ==> applied_options(x, c) & m == c & m) by (bit_vector)
        requires
            is_permission_pair(m),
    ;
    assert(c & m == 0 ==> applied_options(x, c) & m == x & m) by (bit_vector)
        requires
            is_permission_pair(m),
    ;
}

/// The bits outside the eight pairs (bits that name no flag) are never changed by
/// applying changes, and the pairs do not depend on them.
pub proof fn law_apply_keeps_other_bits(x: u32, c: u32)
    ensures
        applied_options(x, c) & !0xffffu32 == x & !0xffffu32,
        applied_options(x, c) & 0xffff == applied_options(x & 0xffff, c) & 0xffff,
{
    assert(applied_options(x, c) & !0xffffu32 == x & !0xffffu32) by (bit_vector);
    assert(applied_options(x, c) & 0xffff == applied_options(x & 0xffff, c) & 0xffff) by (bit_vector);
}

/// Blocking a contact altogether stores the block: changes that set `ALL_BLOCKED`
/// and not `ALL_ALLOWED` give options that are blocked and not all allowed.
pub proof fn law_apply_all_blocked(x: u32, c: u32)
    ensures
        has_flags(c, 0x8000) && !has_flags(c, 0x4000) ==> has_flags(applied_options(x, c), 0x8000)
            && !has_flags(applied_options(x, c), 0x4000),
{
    assert(c & 0x8000 == 0x8000 && c & 0x4000 != 0x4000 ==> applied_options(x, c) & 0x8000
        == 0x8000 && applied_options(x, c) & 0x4000 != 0x4000) by (bit_vector);
}

/// A citizen's options towards one contact.
#[derive(Clone, Copy, Debug)]
pub struct ContactQuery {
    pub citizen: u32,
    pub contact: u32,
    pub options: ContactOptions,
}

/// The contact a row describes, or `None` if a column is missing or out of range.
pub open spec fn contact_of_row(row: RowModel) -> Option<ContactQuery> {
    match (row_u32(row, "Citizen"@), row_u32(row, "Contact"@), row_u32(row, "Options"@)) {
        (Some(citizen), Some(contact), Some(options)) => Some(
            ContactQuery {
                citizen,
                contact,
                options: ContactOptions { bits: options & CONTACT_OPTIONS_ALL },
            },
        ),
        _ => None,
    }
}

/// Reads a contact from a row of the contact table; unknown option bits are dropped.
pub fn fetch_contact(row: &Row) -> (r: Result<ContactQuery, ReasonCode>)
    ensures
        r is Ok <==> contact_of_row(row@) is Some,
        r matches Ok(c) ==> contact_of_row(row@) == Some(c),
        r matches Err(e) ==> e == ReasonCode::DatabaseError,
{
    let citizen = match row.fetch_u32("Citizen") {
        Some(x) => x,
        None => return Err(ReasonCode::DatabaseError),
    };
    let contact = match row.fetch_u32("Contact") {
        Some(x) => x,
        None => return Err(ReasonCode::DatabaseError),
    };
    let options = match row.fetch_u32("Options") {
        Some(x) => x,
        None => return Err(ReasonCode::DatabaseError),
    };
    Ok(ContactQuery { citizen, contact, options: ContactOptions::from_bits_truncate(options) })
}

/// The contact that a lookup of one (citizen, contact) pair returns: the first row, or
/// a database error when there is no row.
pub fn contact_get(rows: &Vec<Row>) -> (r: Result<ContactQuery, ReasonCode>)
    ensures
        rows@.len() == 0 ==> r == Err::<ContactQuery, ReasonCode>(ReasonCode::DatabaseError),
        rows@.len() > 0 ==> (r is Ok <==> contact_of_row(rows@[0]@) is Some),
        rows@.len() > 0 ==> (r matches Ok(c) ==> contact_of_row(rows@[0]@) == Some(c)),
        r matches Err(e) ==> e == ReasonCode::DatabaseError,
{
    if rows.len() == 0 {
        Err(ReasonCode::DatabaseError)
    } else {
        fetch_contact(&rows[0])
    }
}

/// The contacts among `rows` that can be read, in order; unreadable rows are skipped.
pub open spec fn readable_contacts(rows: Seq<RowModel>) -> Seq<ContactQuery>
    decreases rows.len(),
{
    if rows.len() == 0 {
        Seq::empty()
    } else {
        let front = readable_contacts(rows.drop_last());
        match contact_of_row(rows.last()) {
            Some(c) => front.push(c),
            None => front,
        }
    }
}

/// All readable contacts of a citizen, in the order of the rows.
pub fn contact_get_all(rows: &Vec<Row>) -> (r: Vec<ContactQuery>)
    ensures
        r@ == readable_contacts(rows@.map_values(|row: Row| row@)),
{
    let ghost models = rows@.map_values(|row: Row| row@);
    let mut result: Vec<ContactQuery> = Vec::new();
    let mut i: usize = 0;
    while i < rows.len()
        invariant
            0 <= i <= rows@.len(),
            models == rows@.map_values(|row: Row| row@),
            result@ == readable_contacts(models.take(i as int)),
        decreases rows@.len() - i,
    {
        assert(models.take(i + 1).drop_last() =~= models.take(i as int));
        assert(models.take(i + 1).last() == rows@[i as int]@);
        if let Ok(contact) = fetch_contact(&rows[i]) {
            result.push(contact);
        }
        i = i + 1;
    }
    assert(models.take(rows@.len() as int) =~= models);
    result
}

/// Whether a contact lookup found the contact blocked altogether; a failed lookup
/// counts as not blocked.
pub fn contact_blocked(lookup: &Result<ContactQuery, ReasonCode>) -> (b: bool)
    ensures
        b == (lookup matches Ok(c) && has_flags(c.options@, 0x8000)),
{
    match lookup {
        Ok(contact) => contact.options.contains(ALL_BLOCKED),
        Err(_) => false,
    }
}

/// Whether a contact request is still pending confirmation: the contact exists and
/// is blocked altogether or has friend requests blocked.
pub fn contact_confirm_add(lookup: &Result<ContactQuery, ReasonCode>) -> (b: bool)
    ensures
        b == (lookup matches Ok(c) && (has_flags(c.options@, 0x8000) || has_flags(
            c.options@,
            0x2000,
        ))),
{
    let contact = match lookup {
        Ok(x) => x,
        Err(_) => return false,
    };
    if contact.options.contains(ALL_BLOCKED) {
        return true;
    }
    if contact.options.contains(FRIEND_REQUEST_BLOCKED) {
        return true;
    }
    false
}

/// A citizen's default options (the entry for contact 0), or empty options when the
/// citizen has none.
pub fn contact_default(citizen_id: u32, lookup: &Result<ContactQuery, ReasonCode>) -> (c: ContactQuery)
    ensures
        lookup matches Ok(found) ==> c == found,
        lookup is Err ==> c.citizen == citizen_id && c.contact == 0 && c.options@ == 0,
{
    match lookup {
        Ok(contact) => *contact,
        Err(_) => ContactQuery { citizen: citizen_id, contact: 0, options: ContactOptions::default() },
    }
}

/// The options that apply between a citizen and a contact: those of the pair if the
/// lookup found them, else the citizen's default options.
pub open spec fn effective_options(
    citizen_id: u32,
    lookup: Result<ContactQuery, ReasonCode>,
    default_lookup: Result<ContactQuery, ReasonCode>,
) -> u32 {
    match lookup {
        Ok(c) => c.options@,
        Err(_) => match default_lookup {
            Ok(d) => d.options@,
            Err(_) => 0,
        },
    }
}

/// Whether file transfers are allowed, by the pair's options or else the defaults.
pub fn contact_file_transfers_allowed(
    citizen_id: u32,
    lookup: &Result<ContactQuery, ReasonCode>,
    default_lookup: &Result<ContactQuery, ReasonCode>,
) -> (b: bool)
    ensures
        b == (!has_flags(effective_options(citizen_id, *lookup, *default_lookup), 0x8000)
            && !has_flags(effective_options(citizen_id, *lookup, *default_lookup), 0x0200)),
{
    let contact = match lookup {
        Ok(c) => *c,
        Err(_) => contact_default(citizen_id, default_lookup),
    };
    if contact.options.contains(ALL_BLOCKED) {
        return false;
    }
    if contact.options.contains(FILE_TRANSFER_BLOCKED) {
        return false;
    }
    true
}

/// Whether telegrams are allowed, by the pair's options or else the defaults.
pub fn contact_telegrams_allowed(
    citizen_id: u32,
    lookup: &Result<ContactQuery, ReasonCode>,
    default_lookup: &Result<ContactQuery, ReasonCode>,
) -> (b: bool)
    ensures
        b == (!has_flags(effective_options(citizen_id, *lookup, *default_lookup), 0x8000)
            && !has_flags(effective_options(citizen_id, *lookup, *default_lookup), 0x0020)),
{
    let contact = match lookup {
        Ok(c) => *c,
        Err(_) => contact_default(citizen_id, default_lookup),
    };
    if contact.options.contains(ALL_BLOCKED) {
        return false;
    }
    if contact.options.contains(TELEGRAMS_BLOCKED) {
        return false;
    }
    true
}

/// Whether friend requests are allowed; a failed lookup allows them.
pub fn contact_friend_requests_allowed(lookup: &Result<ContactQuery, ReasonCode>) -> (b: bool)
    ensures
        b == match lookup {
            Ok(c) => !has_flags(c.options@, 0x8000) && !has_flags(c.options@, 0x2000),
            Err(_) => true,
        },
{
    let contact = match lookup {
        Ok(x) => x,
        Err(_) => return true,
    };
    if contact.options.contains(ALL_BLOCKED) {
        return false;
    }
    if contact.options.contains(FRIEND_REQUEST_BLOCKED) {
        return false;
    }
    true
}

/// Whether the online status may be shown; a failed lookup allows it.
pub fn contact_status_allowed(lookup: &Result<ContactQuery, ReasonCode>) -> (b: bool)
    ensures
        b == match lookup {
            Ok(c) => !has_flags(c.options@, 0x8000) && !has_flags(c.options@, 0x0002),
            Err(_) => true,
        },
{
    let contact = match lookup {
        Ok(x) => x,
        Err(_) => return true,
    };
    if contact.options.contains(ALL_BLOCKED) {
        return false;
    }
    if contact.options.contains(STATUS_BLOCKED) {
        return false;
    }
    true
}

/// Whether joins are allowed; a failed lookup allows them.
pub fn contact_joins_allowed(lookup: &Result<ContactQuery, ReasonCode>) -> (b: bool)
    ensures
        b == match lookup {
            Ok(c) => !has_flags(c.options@, 0x8000) && !has_flags(c.options@, 0x0080),
            Err(_) => true,
        },
{
    match lookup {
        Ok(contact) => contact.options.is_join_allowed(),
        Err(_) => true,
    }
}

/// Whether invites are allowed; a failed lookup allows them.
pub fn contact_invites_allowed(lookup: &Result<ContactQuery, ReasonCode>) -> (b: bool)
    ensures
        b == match lookup {
            Ok(c) => !has_flags(c.options@, 0x8000) && !has_flags(c.options@, 0x0080),
            Err(_) => true,
        },
{
    match lookup {
        Ok(contact) => contact.options.is_invite_allowed(),
        Err(_) => true,
    }
}

/// Applying changes keeps options well formed: no unknown bit appears.
pub proof fn law_apply_keeps_wf(x: u32, c: u32)
    ensures
        (x & !0xffffu32 == 0 && c & !0xffffu32 == 0) ==> applied_options(x, c) & !0xffffu32 == 0,
{
    assert((x & !0xffffu32 == 0 && c & !0xffffu32 == 0) ==> applied_options(x, c) & !0xffffu32
        == 0) by (bit_vector);
}

} // verus!
