use vstd::prelude::*;

use rand::RngCore;

use crate::client::{base_of, player_info_of, with_base, ClientInfo, GenericPlayer, Player};
use crate::reason::ReasonCode;

verus! {

/// A world server as the universe lists it.
#[derive(Debug)]
pub struct WorldEntry {
    pub name: String,
    /// The world's address when it is an IPv4 address.
    pub ipv4: Option<[u8; 4]>,
    pub port: u16,
    pub max_users: u32,
    pub world_size: u32,
}

/// The number that stands for an address in packets: the four bytes of an IPv4
/// address read little-endian (first byte lowest), 0 for any other address.
pub open spec fn ip_number(ipv4: Option<[u8; 4]>) -> int {
    match ipv4 {
        Some(o) => o[0] + 256 * o[1] + 65536 * o[2] + 16777216 * o[3],
        None => 0,
    }
}

/// The number that stands for an address in packets.
pub fn ip_to_num(ipv4: Option<[u8; 4]>) -> (n: u32)
    ensures
        n == ip_number(ipv4),
{
    let mut res: u32 = 0;
    if let Some(octets) = ipv4 {
        let mut i: usize = 4;
        while i > 0
            invariant
                0 <= i <= 4,
                res == (if i == 4 {
                    0
                } else if i == 3 {
                    octets[3] as int
                } else if i == 2 {
                    octets[2] + 256 * octets[3]
                } else if i == 1 {
                    octets[1] + 256 * octets[2] + 65536 * octets[3]
                } else {
                    octets[0] + 256 * octets[1] + 65536 * octets[2] + 16777216 * octets[3]
                }),
            decreases i,
        {
            i = i - 1;
            res = res * 256 + octets[i] as u32;
        }
    }
    res
}

/// Fills a buffer of 256 bytes from the operating system's generator through `rand`
/// (`OsRng.try_fill_bytes`, which reports a failing generator as an error instead of
/// panicking). The bytes are random: nothing is claimed of them but their number, and
/// `None` means the generator failed.
#[verifier::external_body]
fn random_bytes() -> (b: Option<Vec<u8>>)
    ensures
        b matches Some(v) ==> v@.len() == 256,
{
    let mut rand_bytes = [0u8; 256];
    match rand::rngs::OsRng.try_fill_bytes(&mut rand_bytes) {
        Ok(()) => Some(rand_bytes.to_vec()),
        Err(_) => None,
    }
}

/// The nonce a player is given for entering a world: the first 255 of the random bytes.
pub fn nonce_from_random(random: &Vec<u8>) -> (nonce: Vec<u8>)
    requires
        random@.len() >= 255,
    ensures
        nonce@ == random@.take(255),
{
    let mut nonce: Vec<u8> = Vec::new();
    let mut i: usize = 0;
    while i < 255
        invariant
            0 <= i <= 255,
            random@.len() >= 255,
            nonce@ == random@.take(i as int),
        decreases 255 - i,
    {
        nonce.push(random[i]);
        i = i + 1;
        assert(nonce@ =~= random@.take(i as int));
    }
    nonce
}

/// What a world lookup answers.
#[derive(Debug)]
pub enum WorldLookupReply {
    /// Where the world is and the nonce the player enters it with.
    Found { address: u32, port: u32, users: u32, range: u32, nonce: Vec<u8> },
    /// The world is online but the client is not a player: only the name is sent back.
    NotPlayer,
    /// No world of that name is online.
    NoSuchWorld,
    /// No random nonce could be made, so the player cannot enter the world now; the
    /// answer says that the world cannot be reached.
    NonceUnavailable,
}

impl WorldLookupReply {
    /// The reason code the answer carries, if any.
    pub fn reason_code(&self) -> (rc: Option<ReasonCode>)
        ensures
            *self is Found ==> rc == Some(ReasonCode::Success),
            *self is NotPlayer ==> rc is None,
            *self is NoSuchWorld ==> rc == Some(ReasonCode::NoSuchWorld),
            *self is NonceUnavailable ==> rc == Some(ReasonCode::NoSuchWorld),
    {
        match self {
            WorldLookupReply::Found { .. } => Some(ReasonCode::Success),
            WorldLookupReply::NotPlayer => None,
            WorldLookupReply::NoSuchWorld => Some(ReasonCode::NoSuchWorld),
            WorldLookupReply::NonceUnavailable => Some(ReasonCode::NoSuchWorld),
        }
    }
}

/// `after` is the player `before` with `nonce` as its nonce, and nothing else changed.
pub open spec fn nonce_given(before: Option<ClientInfo>, after: Option<ClientInfo>, nonce: Seq<u8>) -> bool {
    match before {
        Some(ClientInfo::Player(p)) => match after {
            Some(ClientInfo::Player(q)) => {
                &&& q == with_base(p, GenericPlayer { nonce: base_of(q).nonce, ..base_of(p) })
                &&& base_of(q).nonce matches Some(n)
                &&& n@ == nonce
            },
            _ => false,
        },
        _ => false,
    }
}

/// Looks up a world for a client: a player gets the world's address, port and limits,
/// and a fresh random nonce of 255 bytes, which is also stored as the player's nonce;
/// nothing else of the client changes. When the generator fails, the player is told
/// the world cannot be reached and keeps its old nonce.
pub fn world_lookup(world: Option<&WorldEntry>, client: &mut Option<ClientInfo>) -> (r: WorldLookupReply)
    ensures
        world is None ==> r is NoSuchWorld && *final(client) == *old(client),
        world is Some && (*old(client) is None || player_info_of(old(client)->0) is None) ==> r is NotPlayer
            && *final(client) == *old(client),
        world is Some && *old(client) is Some && player_info_of(old(client)->0) is Some
            ==> (r is NonceUnavailable && *final(client) == *old(client)) || (
        r matches WorldLookupReply::Found { address, port, users, range, nonce }
            && address == ip_number(world->0.ipv4) && port == world->0.port && users
            == world->0.max_users && range == world->0.world_size && nonce@.len() == 255
            && nonce_given(*old(client), *final(client), nonce@)),
{
    let w = match world {
        Some(w) => w,
        None => return WorldLookupReply::NoSuchWorld,
    };
    match client {
        Some(ClientInfo::Player(player)) => {
            let random = match random_bytes() {
                Some(b) => b,
                None => return WorldLookupReply::NonceUnavailable,
            };
            let nonce = nonce_from_random(&random);
            let g = player.base_player_mut();
            g.nonce = Some(nonce.clone());
            WorldLookupReply::Found {
                address: ip_to_num(w.ipv4),
                port: w.port as u32,
                users: w.max_users,
                range: w.world_size,
                nonce,
            }
        },
        _ => WorldLookupReply::NotPlayer,
    }
}

} // verus!
