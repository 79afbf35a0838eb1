use vstd::prelude::*;

use crate::config::UniverseConfig;
use crate::db::{row_int, row_text, DatabaseResult, Row, RowModel};
use vstd::string::StrSliceExecFns;

verus! {

/// A universe attribute, by its number in the attribute table and in packets.
#[derive(Clone, Copy, Debug, PartialEq, Eq, Hash, Structural)]
pub enum Attribute {
    AllowTourists,
    UnknownBilling1,
    BetaBrowser,
    MinimumBrowser,
    LatestBrowser,
    UniverseBuild,
    CitizenChanges,
    UnknownBilling7,
    BillingMethod,
    BillingUnknown9,
    SearchTabURL,
    Timestamp,
    WelcomeMessage,
    BetaWorld,
    MinimumWorld,
    LatestWorld,
    DefaultStartWorld,
    Userlist,
    NotepadTabURL,
    MailTemplate,
    MailFile,
    MailCommand,
    PAVObjectPath,
    TextureAndSeqObjectPath,
    ObjectRefresh,
    PAVObjectPasswordObfuscated,
}

/// How many attributes there are; their numbers are `0..ATTRIBUTE_COUNT`.
pub const ATTRIBUTE_COUNT: usize = 26;

/// The number of an attribute.
pub open spec fn attribute_number(a: Attribute) -> int {
    match a {
        Attribute::AllowTourists => 0,
        Attribute::UnknownBilling1 => 1,
        Attribute::BetaBrowser => 2,
        Attribute::MinimumBrowser => 3,
        Attribute::LatestBrowser => 4,
        Attribute::UniverseBuild => 5,
        Attribute::CitizenChanges => 6,
        Attribute::UnknownBilling7 => 7,
        Attribute::BillingMethod => 8,
        Attribute::BillingUnknown9 => 9,
        Attribute::SearchTabURL => 10,
        Attribute::Timestamp => 11,
        Attribute::WelcomeMessage => 12,
        Attribute::BetaWorld => 13,
        Attribute::MinimumWorld => 14,
        Attribute::LatestWorld => 15,
        Attribute::DefaultStartWorld => 16,
        Attribute::Userlist => 17,
        Attribute::NotepadTabURL => 18,
        Attribute::MailTemplate => 19,
        Attribute::MailFile => 20,
        Attribute::MailCommand => 21,
        Attribute::PAVObjectPath => 22,
        Attribute::TextureAndSeqObjectPath => 23,
        Attribute::ObjectRefresh => 24,
        Attribute::PAVObjectPasswordObfuscated => 25,
    }
}

impl Attribute {
    /// The attribute's number.
    pub fn id(&self) -> (n: u32)
        ensures
            n == attribute_number(*self),
    {
        match self {
            Attribute::AllowTourists => 0,
            Attribute::UnknownBilling1 => 1,
            Attribute::BetaBrowser => 2,
            Attribute::MinimumBrowser => 3,
            Attribute::LatestBrowser => 4,
            Attribute::UniverseBuild => 5,
            Attribute::CitizenChanges => 6,
            Attribute::UnknownBilling7 => 7,
            Attribute::BillingMethod => 8,
            Attribute::BillingUnknown9 => 9,
            Attribute::SearchTabURL => 10,
            Attribute::Timestamp => 11,
            Attribute::WelcomeMessage => 12,
            Attribute::BetaWorld => 13,
            Attribute::MinimumWorld => 14,
            Attribute::LatestWorld => 15,
            Attribute::DefaultStartWorld => 16,
            Attribute::Userlist => 17,
            Attribute::NotepadTabURL => 18,
            Attribute::MailTemplate => 19,
            Attribute::MailFile => 20,
            Attribute::MailCommand => 21,
            Attribute::PAVObjectPath => 22,
            Attribute::TextureAndSeqObjectPath => 23,
            Attribute::ObjectRefresh => 24,
            Attribute::PAVObjectPasswordObfuscated => 25,
        }
    }

    /// The attribute with number `id`, if there is one.
    pub fn from_i64(id: i64) -> (a: Option<Attribute>)
        ensures
            a is Some <==> 0 <= id < 26,
            a matches Some(x) ==> attribute_number(x) == id,
    {
        match id {
            0 => Some(Attribute::AllowTourists),
            1 => Some(Attribute::UnknownBilling1),
            2 => Some(Attribute::BetaBrowser),
            3 => Some(Attribute::MinimumBrowser),
            4 => Some(Attribute::LatestBrowser),
            5 => Some(Attribute::UniverseBuild),
            6 => Some(Attribute::CitizenChanges),
            7 => Some(Attribute::UnknownBilling7),
            8 => Some(Attribute::BillingMethod),
            9 => Some(Attribute::BillingUnknown9),
            10 => Some(Attribute::SearchTabURL),
            11 => Some(Attribute::Timestamp),
            12 => Some(Attribute::WelcomeMessage),
            13 => Some(Attribute::BetaWorld),
            14 => Some(Attribute::MinimumWorld),
            15 => Some(Attribute::LatestWorld),
            16 => Some(Attribute::DefaultStartWorld),
            17 => Some(Attribute::Userlist),
            18 => Some(Attribute::NotepadTabURL),
            19 => Some(Attribute::MailTemplate),
            20 => Some(Attribute::MailFile),
            21 => Some(Attribute::MailCommand),
            22 => Some(Attribute::PAVObjectPath),
            23 => Some(Attribute::TextureAndSeqObjectPath),
            24 => Some(Attribute::ObjectRefresh),
            25 => Some(Attribute::PAVObjectPasswordObfuscated),
            _ => None,
        }
    }

    /// The attribute with number `id`, if there is one.
    pub fn from_u64(id: u64) -> (a: Option<Attribute>)
        ensures
            a is Some <==> id < 26,
            a matches Some(x) ==> attribute_number(x) == id,
    {
        if id < 26 {
            Attribute::from_i64(id as i64)
        } else {
            None
        }
    }
}

/// Two attributes are the same exactly when their numbers are.
pub proof fn law_attribute_numbers_distinct(a: Attribute, b: Attribute)
    ensures
        0 <= attribute_number(a) < 26,
        attribute_number(a) == attribute_number(b) <==> a == b,
{
}

/// The value of each universe attribute that has one.
#[derive(Debug)]
pub struct AttributeTable {
    values: Vec<Option<String>>,
}

impl View for AttributeTable {
    type V = Seq<Option<Seq<char>>>;

    closed spec fn view(&self) -> Seq<Option<Seq<char>>> {
        self.values@.map_values(|v: Option<String>| match v {
            Some(s) => Some(s@),
            None => None,
        })
    }
}

impl AttributeTable {
    #[verifier::type_invariant]
    spec fn inv(self) -> bool {
        self.values@.len() == 26
    }

    /// A table where no attribute has a value.
    pub fn new() -> (t: AttributeTable)
        ensures
            t@ == Seq::new(26, |i: int| None::<Seq<char>>),
    {
        let mut values: Vec<Option<String>> = Vec::new();
        let mut i: usize = 0;
        while i < ATTRIBUTE_COUNT
            invariant
                0 <= i <= 26,
                values@.len() == i,
                forall|j: int| 0 <= j < i ==> values@[j] is None,
            decreases 26 - i,
        {
            values.push(None);
            i = i + 1;
        }
        let t = AttributeTable { values };
        assert(t@ =~= Seq::new(26, |i: int| None::<Seq<char>>));
        t
    }

    /// The value of attribute `a`.
    pub fn get(&self, a: Attribute) -> (v: Option<&String>)
        ensures
            self@.len() == 26,
            v is Some <==> self@[attribute_number(a)] is Some,
            v matches Some(s) ==> self@[attribute_number(a)] == Some(s@),
    {
        proof {
            use_type_invariant(self);
        }
        let i = a.id() as usize;
        match &self.values[i] {
            Some(s) => Some(s),
            None => None,
        }
    }

    /// Sets the value of attribute `a`, replacing any earlier value.
    pub fn insert(&mut self, a: Attribute, value: String)
        ensures
            final(self)@ == old(self)@.update(attribute_number(a), Some(value@)),
    {
        proof {
            use_type_invariant(&*self);
        }
        let i = a.id() as usize;
        let mut current = AttributeTable::new();
        std::mem::swap(self, &mut current);
        proof {
            use_type_invariant(&current);
        }
        let AttributeTable { mut values } = current;
        values.set(i, Some(value));
        *self = AttributeTable { values };
        assert(self@ =~= old(self)@.update(attribute_number(a), Some(value@)));
    }
}

/// The table after reading the rows of the attribute table in order, or `None` if a
/// row lacks its number or its value. Rows with an unknown number are passed over;
/// a later row replaces an earlier value.
pub open spec fn attributes_of_rows(rows: Seq<RowModel>) -> Option<Seq<Option<Seq<char>>>>
    decreases rows.len(),
{
    if rows.len() == 0 {
        Some(Seq::new(26, |i: int| None::<Seq<char>>))
    } else {
        match attributes_of_rows(rows.drop_last()) {
            None => None,
            Some(t) => {
                let r = rows.last();
                match (row_int(r, "ID"@), row_text(r, "Value"@)) {
                    (Some(id), Some(v)) => if 0 <= id < 26 {
                        Some(t.update(id as int, Some(v)))
                    } else {
                        Some(t)
                    },
                    _ => None,
                }
            },
        }
    }
}

proof fn lemma_attributes_failure_persists(rows: Seq<RowModel>, k: int)
    requires
        0 <= k <= rows.len(),
        attributes_of_rows(rows.take(k)) is None,
    ensures
        attributes_of_rows(rows) is None,
    decreases rows.len() - k,
{
    if k < rows.len() {
        assert(rows.take(k + 1).drop_last() =~= rows.take(k));
        lemma_attributes_failure_persists(rows, k + 1);
    } else {
        assert(rows.take(k) =~= rows);
    }
}

/// The attributes stored in the rows of the attribute table.
pub fn attributes_from_rows(rows: &Vec<Row>) -> (r: DatabaseResult<AttributeTable>)
    ensures
        r is Success <==> attributes_of_rows(rows@.map_values(|row: Row| row@)) is Some,
        r matches DatabaseResult::Success(t) ==> attributes_of_rows(
            rows@.map_values(|row: Row| row@),
        ) == Some(t@),
{
    let ghost models = rows@.map_values(|row: Row| row@);
    let mut result = AttributeTable::new();
    let mut i: usize = 0;
    assert(models.take(0) =~= Seq::<RowModel>::empty());
    while i < rows.len()
        invariant
            0 <= i <= rows@.len(),
            models == rows@.map_values(|row: Row| row@),
            attributes_of_rows(models.take(i as int)) == Some(result@),
        decreases rows@.len() - i,
    {
        let row = &rows[i];
        assert(models.take(i + 1).drop_last() =~= models.take(i as int));
        assert(models.take(i + 1).last() == row@);
        let id = match row.fetch_int("ID") {
            Some(value) => value,
            None => {
                proof {
                    lemma_attributes_failure_persists(models, i + 1);
                }
                return DatabaseResult::DatabaseError;
            },
        };
        let value = match row.fetch_string("Value") {
            Some(value) => value,
            None => {
                proof {
                    lemma_attributes_failure_persists(models, i + 1);
                }
                return DatabaseResult::DatabaseError;
            },
        };
        if let Some(attribute) = Attribute::from_i64(id) {
            result.insert(attribute, value);
        }
        i = i + 1;
    }
    assert(models.take(rows@.len() as int) =~= models);
    DatabaseResult::Success(result)
}


/// The order in which the universe sends its attributes to a client.
pub open spec fn attribute_packet_order() -> Seq<Attribute> {
    seq![
        Attribute::AllowTourists,
        Attribute::BetaBrowser,
        Attribute::UniverseBuild,
        Attribute::CitizenChanges,
        Attribute::SearchTabURL,
        Attribute::Timestamp,
        Attribute::WelcomeMessage,
        Attribute::BetaWorld,
        Attribute::MinimumWorld,
        Attribute::LatestWorld,
        Attribute::DefaultStartWorld,
        Attribute::Userlist,
        Attribute::NotepadTabURL,
        Attribute::MinimumBrowser,
        Attribute::LatestBrowser,
        Attribute::UnknownBilling7,
        Attribute::BillingMethod,
        Attribute::BillingUnknown9,
        Attribute::PAVObjectPath,
        Attribute::PAVObjectPasswordObfuscated,
        Attribute::TextureAndSeqObjectPath,
        Attribute::ObjectRefresh,
    ]
}

/// The value of an attribute, or the empty string when it has none.
pub open spec fn value_or_empty(t: Seq<Option<Seq<char>>>, a: Attribute) -> Seq<char> {
    match t[attribute_number(a)] {
        Some(v) => v,
        None => Seq::empty(),
    }
}

/// How an attribute value travels in a packet.
#[derive(Debug)]
pub enum AttributeValue {
    Text(String),
    Data(Vec<u8>),
}

/// One attribute of the packet that tells a client the universe attributes.
#[derive(Debug)]
pub struct AttributeEntry {
    pub attribute: Attribute,
    pub value: AttributeValue,
}

/// The entry that the attribute packet holds for `a`: the billing method is always
/// empty; the obfuscated object password travels as the UTF-8 bytes of its text;
/// every other attribute travels as text. Missing values are empty.
pub open spec fn entry_matches(e: AttributeEntry, a: Attribute, t: Seq<Option<Seq<char>>>) -> bool {
    &&& e.attribute == a
    &&& match e.value {
        AttributeValue::Text(s) => a != Attribute::PAVObjectPasswordObfuscated && s@ == if a
            == Attribute::BillingMethod {
            Seq::<char>::empty()
        } else {
            value_or_empty(t, a)
        },
        AttributeValue::Data(b) => a == Attribute::PAVObjectPasswordObfuscated && b@
            == vstd::utf8::encode_utf8(value_or_empty(t, a)),
    }
}

fn attribute_entry(table: &AttributeTable, a: Attribute) -> (e: AttributeEntry)
    ensures
        entry_matches(e, a, table@),
{
    let value = match table.get(a) {
        Some(v) => v.clone(),
        None => String::new(),
    };
    if a == Attribute::BillingMethod {
        return AttributeEntry { attribute: a, value: AttributeValue::Text(String::new()) };
    }
    if a == Attribute::PAVObjectPasswordObfuscated {
        let bytes = value.as_str().as_bytes_vec();
        return AttributeEntry { attribute: a, value: AttributeValue::Data(bytes) };
    }
    AttributeEntry { attribute: a, value: AttributeValue::Text(value) }
}

/// The attributes that the universe sends to a client, in the order it sends them.
pub fn attribute_packet_entries(table: &AttributeTable) -> (entries: Vec<AttributeEntry>)
    ensures
        entries@.len() == attribute_packet_order().len(),
        forall|i: int|
            0 <= i < entries@.len() ==> entry_matches(
                #[trigger] entries@[i],
                attribute_packet_order()[i],
                table@,
            ),
{
    let mut entries: Vec<AttributeEntry> = Vec::new();
    entries.push(attribute_entry(table, Attribute::AllowTourists));
    entries.push(attribute_entry(table, Attribute::BetaBrowser));
    entries.push(attribute_entry(table, Attribute::UniverseBuild));
    entries.push(attribute_entry(table, Attribute::CitizenChanges));
    entries.push(attribute_entry(table, Attribute::SearchTabURL));
    entries.push(attribute_entry(table, Attribute::Timestamp));
    entries.push(attribute_entry(table, Attribute::WelcomeMessage));
    entries.push(attribute_entry(table, Attribute::BetaWorld));
    entries.push(attribute_entry(table, Attribute::MinimumWorld));
    entries.push(attribute_entry(table, Attribute::LatestWorld));
    entries.push(attribute_entry(table, Attribute::DefaultStartWorld));
    entries.push(attribute_entry(table, Attribute::Userlist));
    entries.push(attribute_entry(table, Attribute::NotepadTabURL));
    entries.push(attribute_entry(table, Attribute::MinimumBrowser));
    entries.push(attribute_entry(table, Attribute::LatestBrowser));
    entries.push(attribute_entry(table, Attribute::UnknownBilling7));
    entries.push(attribute_entry(table, Attribute::BillingMethod));
    entries.push(attribute_entry(table, Attribute::BillingUnknown9));
    entries.push(attribute_entry(table, Attribute::PAVObjectPath));
    entries.push(attribute_entry(table, Attribute::PAVObjectPasswordObfuscated));
    entries.push(attribute_entry(table, Attribute::TextureAndSeqObjectPath));
    entries.push(attribute_entry(table, Attribute::ObjectRefresh));
    let ghost order = attribute_packet_order();
    assert forall|i: int| 0 <= i < entries@.len() implies entry_matches(
        #[trigger] entries@[i],
        order[i],
        table@,
    ) by {
        // One case per position, so that each unfolds `order[i]` to a literal.
        if i == 0 {
        } else if i == 1 {
        } else if i == 2 {
        } else if i == 3 {
        } else if i == 4 {
        } else if i == 5 {
        } else if i == 6 {
        } else if i == 7 {
        } else if i == 8 {
        } else if i == 9 {
        } else if i == 10 {
        } else if i == 11 {
        } else if i == 12 {
        } else if i == 13 {
        } else if i == 14 {
        } else if i == 15 {
        } else if i == 16 {
        } else if i == 17 {
        } else if i == 18 {
        } else if i == 19 {
        } else if i == 20 {
        } else {
        }
    }
    entries
}

/// The attributes that a client is sent: those stored (none when the database
/// failed), with the universe build set to "120" and the timestamp to `timestamp`.
pub fn get_attributes(stored: DatabaseResult<AttributeTable>, timestamp: String) -> (t: AttributeTable)
    ensures
        t@ == (match stored {
            DatabaseResult::Success(s) => s@,
            DatabaseResult::DatabaseError => Seq::new(26, |i: int| None::<Seq<char>>),
        }).update(5, Some("120"@)).update(11, Some(timestamp@)),
{
    let mut result = match stored {
        DatabaseResult::Success(attribs) => attribs,
        DatabaseResult::DatabaseError => AttributeTable::new(),
    };
    result.insert(Attribute::UniverseBuild, "120".to_string());
    result.insert(Attribute::Timestamp, timestamp);
    result
}

/// Whether a client may store a value for an attribute: the universe build and the
/// timestamp are always computed, never stored.
pub fn is_settable_attribute(id: Attribute) -> (b: bool)
    ensures
        b == (id != Attribute::Timestamp && id != Attribute::UniverseBuild),
{
    match id {
        Attribute::Timestamp | Attribute::UniverseBuild => false,
        _ => true,
    }
}

/// Renders a boolean universe attribute the way the attribute table stores it.
pub fn bool_attrib(value: bool) -> (s: &'static str)
    ensures
        s@ == (if value {
            "Y"@
        } else {
            "N"@
        }),
{
    if value {
        "Y"
    } else {
        "N"
    }
}

/// Every variable of a change names an attribute.
pub open spec fn all_known(v: Seq<(u64, Seq<char>)>) -> bool {
    forall|i: int| 0 <= i < v.len() ==> (#[trigger] v[i]).0 < 26
}

/// The values an administrator's change stores, in order: the variables are taken
/// in order up to the first one that names no attribute; the universe build (5) and
/// the timestamp (11) are never stored.
pub open spec fn planned_sets(v: Seq<(u64, Seq<char>)>) -> Seq<(u64, Seq<char>)>
    decreases v.len(),
{
    if v.len() == 0 {
        Seq::empty()
    } else {
        let front = planned_sets(v.drop_last());
        if !all_known(v.drop_last()) || v.last().0 >= 26 || v.last().0 == 5 || v.last().0 == 11 {
            front
        } else {
            front.push(v.last())
        }
    }
}

proof fn lemma_plan_stops(v: Seq<(u64, Seq<char>)>, j: int)
    requires
        0 <= j < v.len(),
        v[j].0 >= 26,
    ensures
        planned_sets(v) == planned_sets(v.take(j)),
    decreases v.len(),
{
    if v.len() == j + 1 {
        assert(v.drop_last() =~= v.take(j));
    } else {
        let d = v.drop_last();
        lemma_plan_stops(d, j);
        assert(d.take(j) =~= v.take(j));
        assert(d[j] == v[j]);
        assert(!all_known(d));
    }
}

/// The pairs of attribute number and text of the string variables of a packet.
pub open spec fn string_vars(v: Seq<(u64, String)>) -> Seq<(u64, Seq<char>)> {
    v.map_values(|p: (u64, String)| (p.0, p.1@))
}

/// What an attribute change does.
#[derive(Debug)]
pub struct AttributeChange {
    /// The values to store, in order.
    pub sets: Vec<(Attribute, String)>,
    /// The change went through every variable: everyone is sent the new attributes and
    /// the administrator a success answer.
    pub complete: bool,
}

/// Plans an attribute change from the string variables of a packet: only an
/// administrator may change attributes (`None` otherwise); a variable that names no
/// attribute stops the change there.
#[verifier::loop_isolation(false)]
pub fn attribute_change(is_admin: bool, vars: &Vec<(u64, String)>) -> (r: Option<AttributeChange>)
    ensures
        !is_admin ==> r is None,
        is_admin ==> (r matches Some(c) && c.complete == all_known(string_vars(vars@))
            && c.sets@.len() == planned_sets(string_vars(vars@)).len() && forall|i: int|
            0 <= i < c.sets@.len() ==> attribute_number((#[trigger] c.sets@[i]).0)
                == planned_sets(string_vars(vars@))[i].0 && c.sets@[i].1@ == planned_sets(
                string_vars(vars@),
            )[i].1),
{
    if !is_admin {
        return None;
    }
    let ghost v = string_vars(vars@);
    let mut sets: Vec<(Attribute, String)> = Vec::new();
    let mut i: usize = 0;
    while i < vars.len()
        invariant
            0 <= i <= vars@.len(),
            v == string_vars(vars@),
            all_known(v.take(i as int)),
            sets@.len() == planned_sets(v.take(i as int)).len(),
            forall|k: int|
                0 <= k < sets@.len() ==> attribute_number((#[trigger] sets@[k]).0) == planned_sets(
                    v.take(i as int),
                )[k].0 && sets@[k].1@ == planned_sets(v.take(i as int))[k].1,
        decreases vars@.len() - i,
    {
        let id = vars[i].0;
        assert(v.take(i + 1).drop_last() =~= v.take(i as int));
        assert(v.take(i + 1).last() == v[i as int]);
        assert(v[i as int] == (vars@[i as int].0, vars@[i as int].1@));
        let a = match Attribute::from_u64(id) {
            Some(a) => a,
            None => {
                proof {
                    lemma_plan_stops(v, i as int);
                    assert(!all_known(v));
                }
                return Some(AttributeChange { sets, complete: false });
            },
        };
        if is_settable_attribute(a) {
            sets.push((a, vars[i].1.clone()));
        }
        i = i + 1;
        assert(all_known(v.take(i as int))) by {
            assert forall|k: int| 0 <= k < i implies (#[trigger] v.take(i as int)[k]).0 < 26 by {
                if k < i - 1 {
                    assert(v.take(i as int)[k] == v.take(i - 1)[k]);
                }
            }
        }
    }
    assert(v.take(vars@.len() as int) =~= v);
    Some(AttributeChange { sets, complete: true })
}

/// An attribute change only ever stores attributes that exist, and never the
/// universe build or the timestamp, which are computed when they are sent.
pub proof fn law_change_stores_only_settable(v: Seq<(u64, Seq<char>)>)
    ensures
        forall|i: int|
            0 <= i < planned_sets(v).len() ==> (#[trigger] planned_sets(v)[i]).0 < 26
                && planned_sets(v)[i].0 != 5 && planned_sets(v)[i].0 != 11,
    decreases v.len(),
{
    if v.len() > 0 {
        law_change_stores_only_settable(v.drop_last());
        let front = planned_sets(v.drop_last());
        assert forall|i: int| 0 <= i < planned_sets(v).len() implies (#[trigger] planned_sets(
            v,
        )[i]).0 < 26 && planned_sets(v)[i].0 != 5 && planned_sets(v)[i].0 != 11 by {
            if i < front.len() {
                assert(planned_sets(v)[i] == front[i]);
            }
        }
    }
}

/// The attributes that setting up the attribute table stores from the universe
/// settings, in order: whether the user list is shown, then whether citizens may
/// change their accounts, each as "Y" or "N".
pub fn initial_attributes(config: &UniverseConfig) -> (r: Vec<(Attribute, &'static str)>)
    ensures
        r@.len() == 2,
        r@[0].0 == Attribute::Userlist,
        r@[0].1@ == (if config.user_list {
            "Y"@
        } else {
            "N"@
        }),
        r@[1].0 == Attribute::CitizenChanges,
        r@[1].1@ == (if config.allow_citizen_changes {
            "Y"@
        } else {
            "N"@
        }),
{
    let mut r: Vec<(Attribute, &'static str)> = Vec::new();
    r.push((Attribute::Userlist, bool_attrib(config.user_list)));
    r.push((Attribute::CitizenChanges, bool_attrib(config.allow_citizen_changes)));
    r
}

} // verus!
