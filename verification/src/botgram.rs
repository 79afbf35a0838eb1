use vstd::prelude::*;

use crate::client::{base_of, citizen_id_of, player_info_of, ClientInfo, ConnectedClient, Player};
use crate::db::DatabaseResult;
use crate::reason::ReasonCode;
use crate::uri::{is_valid_uri, is_valid_uri_text};

verus! {

/// The two kinds of botgram: a message to the bots of a citizen, or an invitation.
#[derive(Clone, Copy, Debug, PartialEq, Eq, Structural)]
pub enum BotgramType {
    Botgram,
    Invite,
}

impl BotgramType {
    /// The number that stands for the kind in packets.
    pub open spec fn number(self) -> u32 {
        match self {
            BotgramType::Botgram => 0,
            BotgramType::Invite => 1,
        }
    }

    /// The kind a packet number stands for, if any.
    pub fn from_u32(n: u32) -> (r: Option<BotgramType>)
        ensures
            n <= 1 ==> (r matches Some(t) && t.number() == n),
            n > 1 ==> r is None,
    {
        if n == 0 {
            Some(BotgramType::Botgram)
        } else if n == 1 {
            Some(BotgramType::Invite)
        } else {
            None
        }
    }

    /// The number of the kind in packets.
    pub fn to_u32(self) -> (n: u32)
        ensures
            n == self.number(),
    {
        match self {
            BotgramType::Botgram => 0,
            BotgramType::Invite => 1,
        }
    }
}

/// What a botgram request carries.
#[derive(Debug)]
pub struct BotgramParams {
    pub citizen_number: u32,
    pub botgram_type: BotgramType,
    pub message: String,
}

impl BotgramParams {
    /// The request built from the packet's variables, if all of them are there and the
    /// kind is known.
    pub fn from_packet(
        citizen_number: Option<u32>,
        botgram_type: Option<u32>,
        message: Option<String>,
    ) -> (r: Option<BotgramParams>)
        ensures
            r is Some <==> (citizen_number is Some && (botgram_type matches Some(t) && t <= 1)
                && message is Some),
            r matches Some(p) ==> Some(p.citizen_number) == citizen_number && Some(
                p.botgram_type.number(),
            ) == botgram_type && Some(p.message) == message,
    {
        let citizen_number = match citizen_number {
            Some(n) => n,
            None => return None,
        };
        let botgram_type = match botgram_type {
            Some(t) => match BotgramType::from_u32(t) {
                Some(k) => k,
                None => return None,
            },
            None => return None,
        };
        let message = match message {
            Some(m) => m,
            None => return None,
        };
        Some(BotgramParams { citizen_number, botgram_type, message })
    }
}

/// The number a sender is known by: its citizen number, or else its privilege number.
pub open spec fn source_id_of(client: Option<ClientInfo>) -> Option<u32> {
    match client {
        Some(c) => match citizen_id_of(c) {
            Some(id) => Some(id),
            None => match player_info_of(c) {
                Some(g) => g.privilege_id,
                None => None,
            },
        },
        None => None,
    }
}

/// The name of a sender that is a player.
pub open spec fn source_name_of(client: Option<ClientInfo>) -> Option<String> {
    match client {
        Some(ClientInfo::Player(p)) => Some(base_of(p).username),
        _ => None,
    }
}

/// Whether a connection is a bot acting with the privileges of citizen `id`.
pub open spec fn is_bot_of(c: ConnectedClient, id: u32) -> bool {
    c.client matches Some(ClientInfo::Player(Player::Bot(b))) && b.base_player.privilege_id
        == Some(id)
}

/// The connections, in order, of the bots acting for citizen `id`.
pub open spec fn bots_of(conns: Seq<ConnectedClient>, id: u32) -> Seq<u64>
    decreases conns.len(),
{
    if conns.len() == 0 {
        Seq::empty()
    } else {
        let front = bots_of(conns.drop_last(), id);
        if is_bot_of(conns.last(), id) {
            front.push(conns.last().cid)
        } else {
            front
        }
    }
}

/// The first connection logged in as citizen `id`, if any.
pub open spec fn citizen_conn(conns: Seq<ConnectedClient>, id: u32) -> Option<u64>
    decreases conns.len(),
{
    if conns.len() == 0 {
        None
    } else {
        match citizen_conn(conns.drop_last(), id) {
            Some(cid) => Some(cid),
            None => if conns.last().client matches Some(c) && citizen_id_of(c) == Some(id) {
                Some(conns.last().cid)
            } else {
                None
            },
        }
    }
}

/// The sender of a botgram as the forwarded message names it.
#[derive(Debug)]
pub struct BotgramSource {
    pub id: u32,
    pub username: String,
}

/// The first step of a botgram: whom to ask about, or the answer already.
#[derive(Debug)]
pub enum BotgramStep {
    /// Answer the sender with this code and stop.
    Reply(ReasonCode),
    /// Drop the request without an answer.
    Ignore,
    /// Ask the contact options of `target` towards `source.id`, then finish.
    AskContact { target: u32, source: BotgramSource },
}

/// Decides the first step of a botgram: the sender must be a player, and an
/// invitation must carry a well-formed location.
pub fn botgram_start(client: &Option<ClientInfo>, params: &BotgramParams) -> (r: BotgramStep)
    ensures
        source_name_of(*client) is None ==> r == BotgramStep::Reply(ReasonCode::NotLoggedIn),
        source_name_of(*client) is Some && params.botgram_type == BotgramType::Invite
            && !is_valid_uri_text(params.message@) ==> r is Ignore,
        source_name_of(*client) is Some && (params.botgram_type == BotgramType::Botgram
            || is_valid_uri_text(params.message@)) ==> (r matches BotgramStep::AskContact {
            target,
            source,
        } && target == params.citizen_number && Some(source.username) == source_name_of(
            *client,
        ) && source.id == (match source_id_of(*client) {
            Some(id) => id,
            None => 0,
        })),
{
    let username = match client {
        Some(ClientInfo::Player(p)) => p.base_player().username.clone(),
        _ => return BotgramStep::Reply(ReasonCode::NotLoggedIn),
    };
    if params.botgram_type == BotgramType::Invite && !is_valid_uri(params.message.as_str()) {
        return BotgramStep::Ignore;
    }
    let id = match client {
        Some(c) => match c.citizen_id() {
            Some(id) => id,
            None => match c.player_info() {
                Some(g) => match g.privilege_id {
                    Some(p) => p,
                    None => 0,
                },
                None => 0,
            },
        },
        None => 0,
    };
    BotgramStep::AskContact {
        target: params.citizen_number,
        source: BotgramSource { id, username },
    }
}

fn is_bot_for(c: &ConnectedClient, id: u32) -> (b: bool)
    ensures
        b == is_bot_of(*c, id),
{
    match &c.client {
        Some(ClientInfo::Player(Player::Bot(bot))) => match bot.base_player.privilege_id {
            Some(p) => p == id,
            None => false,
        },
        _ => false,
    }
}

/// The connections, in order, of the bots acting for citizen `id`.
pub fn bot_connections(conns: &Vec<ConnectedClient>, id: u32) -> (r: Vec<u64>)
    ensures
        r@ == bots_of(conns@, id),
{
    let mut result: Vec<u64> = Vec::new();
    let mut i: usize = 0;
    while i < conns.len()
        invariant
            0 <= i <= conns@.len(),
            result@ == bots_of(conns@.take(i as int), id),
        decreases conns@.len() - i,
    {
        assert(conns@.take(i + 1).drop_last() =~= conns@.take(i as int));
        assert(conns@.take(i + 1).last() == conns@[i as int]);
        if is_bot_for(&conns[i], id) {
            result.push(conns[i].cid);
        }
        i = i + 1;
    }
    assert(conns@.take(conns@.len() as int) =~= conns@);
    result
}

/// The first connection logged in as citizen `id`, if any.
pub fn citizen_connection(conns: &Vec<ConnectedClient>, id: u32) -> (r: Option<u64>)
    ensures
        r == citizen_conn(conns@, id),
{
    let mut found: Option<u64> = None;
    let mut i: usize = 0;
    while i < conns.len()
        invariant
            0 <= i <= conns@.len(),
            found == citizen_conn(conns@.take(i as int), id),
        decreases conns@.len() - i,
    {
        assert(conns@.take(i + 1).drop_last() =~= conns@.take(i as int));
        assert(conns@.take(i + 1).last() == conns@[i as int]);
        if found.is_none() {
            if let Some(c) = &conns[i].client {
                if c.citizen_id() == Some(id) {
                    found = Some(conns[i].cid);
                }
            }
        }
        i = i + 1;
    }
    assert(conns@.take(conns@.len() as int) =~= conns@);
    found
}

/// Who receives an invitation for citizen `id`: the citizen's own connection, then
/// the bots acting for it.
pub open spec fn invite_targets(conns: Seq<ConnectedClient>, id: u32) -> Seq<u64> {
    match citizen_conn(conns, id) {
        Some(cid) => seq![cid] + bots_of(conns, id),
        None => bots_of(conns, id),
    }
}

/// The botgram as it is forwarded to its receivers.
#[derive(Debug)]
pub struct BotgramForward {
    pub citizen_number: u32,
    pub message: String,
    pub botgram_type: BotgramType,
    pub from_citizen: u32,
    pub from_username: String,
}

/// How a botgram ends.
#[derive(Debug)]
pub enum BotgramOutcome {
    /// Answer the sender with this code.
    Reply(ReasonCode),
    /// Send nothing.
    Ignore,
    /// Send `packet` to each of `targets` in order, then answer the sender with success.
    Forward { targets: Vec<u64>, packet: BotgramForward },
}

/// The forwarded form of a botgram from `source`.
pub open spec fn forwarded(p: BotgramForward, params: BotgramParams, source: BotgramSource) -> bool {
    &&& p.citizen_number == params.citizen_number
    &&& p.message == params.message
    &&& p.botgram_type == params.botgram_type
    &&& p.from_citizen == source.id
    &&& p.from_username == source.username
}

/// Finishes an invitation, given whether the invited citizen accepts invitations
/// from the sender: it goes to the citizen and to its bots.
pub fn invite(
    params: BotgramParams,
    source: BotgramSource,
    invites_allowed: DatabaseResult<bool>,
    conns: &Vec<ConnectedClient>,
) -> (r: BotgramOutcome)
    ensures
        invites_allowed is DatabaseError ==> r is Ignore,
        invites_allowed matches DatabaseResult::Success(false) ==> r == BotgramOutcome::Reply(
            ReasonCode::JoinRefused,
        ),
        invites_allowed matches DatabaseResult::Success(true) ==> (r matches BotgramOutcome::Forward {
            targets,
            packet,
        } && targets@ == invite_targets(conns@, params.citizen_number) && forwarded(
            packet,
            params,
            source,
        )),
{
    match invites_allowed {
        DatabaseResult::DatabaseError => BotgramOutcome::Ignore,
        DatabaseResult::Success(false) => BotgramOutcome::Reply(ReasonCode::JoinRefused),
        DatabaseResult::Success(true) => {
            let bots = bot_connections(conns, params.citizen_number);
            let mut targets: Vec<u64> = Vec::new();
            if let Some(cid) = citizen_connection(conns, params.citizen_number) {
                targets.push(cid);
            }
            let mut i: usize = 0;
            let ghost start = targets@;
            while i < bots.len()
                invariant
                    0 <= i <= bots@.len(),
                    targets@ == start + bots@.take(i as int),
                decreases bots@.len() - i,
            {
                assert(bots@.take(i + 1) =~= bots@.take(i as int).push(bots@[i as int]));
                targets.push(bots[i]);
                i = i + 1;
            }
            assert(bots@.take(bots@.len() as int) =~= bots@);
            assert(targets@ =~= invite_targets(conns@, params.citizen_number));
            let packet = BotgramForward {
                citizen_number: params.citizen_number,
                message: params.message,
                botgram_type: params.botgram_type,
                from_citizen: source.id,
                from_username: source.username,
            };
            BotgramOutcome::Forward { targets, packet }
        },
    }
}

/// Finishes a botgram, given whether the citizen accepts telegrams from the sender:
/// it goes to the bots acting for the citizen.
pub fn bot_botgram(
    params: BotgramParams,
    source: BotgramSource,
    telegrams_allowed: DatabaseResult<bool>,
    conns: &Vec<ConnectedClient>,
) -> (r: BotgramOutcome)
    ensures
        telegrams_allowed is DatabaseError ==> r is Ignore,
        telegrams_allowed matches DatabaseResult::Success(false) ==> r == BotgramOutcome::Reply(
            ReasonCode::TelegramBlocked,
        ),
        telegrams_allowed matches DatabaseResult::Success(true) ==> (r matches BotgramOutcome::Forward {
            targets,
            packet,
        } && targets@ == bots_of(conns@, params.citizen_number) && forwarded(
            packet,
            params,
            source,
        )),
{
    match telegrams_allowed {
        DatabaseResult::DatabaseError => BotgramOutcome::Ignore,
        DatabaseResult::Success(false) => BotgramOutcome::Reply(ReasonCode::TelegramBlocked),
        DatabaseResult::Success(true) => {
            let targets = bot_connections(conns, params.citizen_number);
            let packet = BotgramForward {
                citizen_number: params.citizen_number,
                message: params.message,
                botgram_type: params.botgram_type,
                from_citizen: source.id,
                from_username: source.username,
            };
            BotgramOutcome::Forward { targets, packet }
        },
    }
}

/// Some connection with number `cid` is a bot acting for citizen `id`.
pub open spec fn is_bot_connection(conns: Seq<ConnectedClient>, id: u32, cid: u64) -> bool {
    exists|j: int| 0 <= j < conns.len() && conns[j].cid == cid && #[trigger] is_bot_of(conns[j], id)
}

/// A botgram for citizen `id` only ever goes to connections of bots acting for it,
/// and to no more connections than there are.
pub proof fn law_botgram_reaches_only_bots(conns: Seq<ConnectedClient>, id: u32)
    ensures
        forall|i: int|
            0 <= i < bots_of(conns, id).len() ==> is_bot_connection(
                conns,
                id,
                #[trigger] bots_of(conns, id)[i],
            ),
        bots_of(conns, id).len() <= conns.len(),
    decreases conns.len(),
{
    if conns.len() > 0 {
        let d = conns.drop_last();
        law_botgram_reaches_only_bots(d, id);
        let front = bots_of(d, id);
        assert forall|i: int| 0 <= i < bots_of(conns, id).len() implies is_bot_connection(
            conns,
            id,
            #[trigger] bots_of(conns, id)[i],
        ) by {
            if i < front.len() {
                assert(bots_of(conns, id)[i] == front[i]);
                assert(is_bot_connection(d, id, front[i]));
                let j = choose|j: int|
                    0 <= j < d.len() && d[j].cid == front[i] && #[trigger] is_bot_of(d[j], id);
                assert(conns[j] == d[j]);
                assert(is_bot_of(conns[j], id));
            } else {
                let j = conns.len() - 1;
                assert(conns[j] == conns.last());
                assert(is_bot_of(conns[j], id));
            }
        }
    }
}

/// An invitation goes first to the invited citizen's own connection, when it is
/// online, and otherwise only to bots acting for it.
pub proof fn law_invite_targets(conns: Seq<ConnectedClient>, id: u32)
    ensures
        citizen_conn(conns, id) matches Some(c) ==> invite_targets(conns, id).len() > 0
            && invite_targets(conns, id)[0] == c,
        citizen_conn(conns, id) is None ==> invite_targets(conns, id) == bots_of(conns, id),
{
}

} // verus!
