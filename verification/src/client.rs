use vstd::prelude::*;

verus! {

/// What every logged-in player has, whatever kind of player it is.
#[derive(Debug)]
pub struct GenericPlayer {
    pub username: String,
    pub privilege_id: Option<u32>,
    pub session_id: u16,
    pub build_version: i32,
    pub ip: [u8; 4],
    pub serial: Option<u32>,
    pub afk: bool,
    pub nonce: Option<Vec<u8>>,
}

/// A player logged in with a citizen account.
#[derive(Debug)]
pub struct Citizen {
    pub cit_id: u32,
    pub base_player: GenericPlayer,
}

/// A bot acting for a citizen.
#[derive(Debug)]
pub struct Bot {
    pub base_player: GenericPlayer,
}

/// A human or bot client that has logged in.
#[derive(Debug)]
pub enum Player {
    Citizen(Citizen),
    Tourist(GenericPlayer),
    Bot(Bot),
}

/// A world server connected to the universe.
#[derive(Debug)]
pub struct WorldServer {
    pub build: i32,
}

/// Game-related client state. Describes every client, regardless of whether
/// they are a world server, a citizen, or a tourist.
#[derive(Debug)]
pub enum ClientInfo {
    WorldServer(WorldServer),
    Player(Player),
}

/// The generic part of a player.
pub open spec fn base_of(p: Player) -> GenericPlayer {
    match p {
        Player::Citizen(c) => c.base_player,
        Player::Tourist(g) => g,
        Player::Bot(b) => b.base_player,
    }
}

/// The player's generic part with a new value.
pub open spec fn with_base(p: Player, g: GenericPlayer) -> Player {
    match p {
        Player::Citizen(c) => Player::Citizen(Citizen { cit_id: c.cit_id, base_player: g }),
        Player::Tourist(_) => Player::Tourist(g),
        Player::Bot(_) => Player::Bot(Bot { base_player: g }),
    }
}

/// The citizen number of a client logged in as a citizen.
pub open spec fn citizen_id_of(c: ClientInfo) -> Option<u32> {
    match c {
        ClientInfo::Player(Player::Citizen(cit)) => Some(cit.cit_id),
        _ => None,
    }
}

/// The generic player part of a client that is a player.
pub open spec fn player_info_of(c: ClientInfo) -> Option<GenericPlayer> {
    match c {
        ClientInfo::Player(p) => Some(base_of(p)),
        ClientInfo::WorldServer(_) => None,
    }
}

/// Whether the client may use the administrator functions: the citizen account 1, or
/// a player that is not a citizen acting with privileges of citizen 1.
pub open spec fn is_admin(c: ClientInfo) -> bool {
    match c {
        ClientInfo::Player(Player::Citizen(cit)) => cit.cit_id == 1,
        ClientInfo::Player(p) => base_of(p).privilege_id == Some(1u32),
        ClientInfo::WorldServer(_) => false,
    }
}

/// The citizen number whose rights the client uses: its privilege number if it has a
/// nonzero one, its own citizen number if its privilege number is 0, else 0.
pub open spec fn effective_privilege_of(c: ClientInfo) -> u32 {
    match player_info_of(c) {
        Some(g) => match g.privilege_id {
            Some(p) => if p != 0 {
                p
            } else {
                match citizen_id_of(c) {
                    Some(id) => id,
                    None => 0,
                }
            },
            None => 0,
        },
        None => 0,
    }
}

impl Player {
    /// A newly logged-in tourist: no privileges, not away, no serial or nonce yet.
    pub fn new_tourist(session_id: u16, build_version: i32, username: &str, ip: [u8; 4]) -> (p: Player)
        ensures
            p matches Player::Tourist(g) && g.username@ == username@ && g.privilege_id is None
                && g.session_id == session_id && g.build_version == build_version && g.ip == ip
                && g.serial is None && !g.afk && g.nonce is None,
    {
        Player::Tourist(
            GenericPlayer {
                username: username.to_owned(),
                privilege_id: None,
                session_id,
                build_version,
                ip,
                serial: None,
                afk: false,
                nonce: None,
            },
        )
    }

    /// A newly logged-in citizen acting with the given privileges: not away, no serial
    /// or nonce yet.
    pub fn new_citizen(
        cit_id: u32,
        privilege_id: Option<u32>,
        session_id: u16,
        build_version: i32,
        username: &str,
        ip: [u8; 4],
    ) -> (p: Player)
        ensures
            p matches Player::Citizen(c) && c.cit_id == cit_id && c.base_player.username@
                == username@ && c.base_player.privilege_id == privilege_id
                && c.base_player.session_id == session_id && c.base_player.build_version
                == build_version && c.base_player.ip == ip && c.base_player.serial is None
                && !c.base_player.afk && c.base_player.nonce is None,
    {
        Player::Citizen(
            Citizen {
                cit_id,
                base_player: GenericPlayer {
                    username: username.to_owned(),
                    privilege_id,
                    session_id,
                    build_version,
                    ip,
                    serial: None,
                    afk: false,
                    nonce: None,
                },
            },
        )
    }

    /// The citizen, if this player is logged in as one.
    pub fn citizen(&self) -> (r: Option<&Citizen>)
        ensures
            match *self {
                Player::Citizen(c) => r == Some(&c),
                _ => r is None,
            },
    {
        match self {
            Player::Citizen(c) => Some(c),
            _ => None,
        }
    }

    /// The citizen, for changing it, if this player is logged in as one.
    pub fn citizen_mut(&mut self) -> (r: Option<&mut Citizen>)
        ensures
            match *old(self) {
                Player::Citizen(c) => r matches Some(rc) && *rc == c && *final(self)
                    == Player::Citizen(*final(rc)),
                _ => r is None && *final(self) == *old(self),
            },
    {
        match self {
            Player::Citizen(c) => Some(c),
            _ => None,
        }
    }

    /// The generic player part.
    pub fn base_player(&self) -> (g: &GenericPlayer)
        ensures
            *g == base_of(*self),
    {
        match self {
            Player::Citizen(c) => &c.base_player,
            Player::Tourist(g) => g,
            Player::Bot(b) => &b.base_player,
        }
    }

    /// The generic player part, for changing it.
    pub fn base_player_mut(&mut self) -> (g: &mut GenericPlayer)
        ensures
            *g == base_of(*old(self)),
            *final(self) == with_base(*old(self), *final(g)),
    {
        match self {
            Player::Citizen(c) => &mut c.base_player,
            Player::Tourist(g) => g,
            Player::Bot(b) => &mut b.base_player,
        }
    }

    /// The citizen number, if this player is logged in as a citizen.
    pub fn citizen_id(&self) -> (r: Option<u32>)
        ensures
            r == citizen_id_of(ClientInfo::Player(*self)),
    {
        match self {
            Player::Citizen(c) => Some(c.cit_id),
            _ => None,
        }
    }
}

impl ClientInfo {
    /// The citizen, if the client is a player logged in as one.
    pub fn citizen(&self) -> (r: Option<&Citizen>)
        ensures
            match *self {
                ClientInfo::Player(Player::Citizen(c)) => r == Some(&c),
                _ => r is None,
            },
    {
        match self {
            ClientInfo::Player(player) => player.citizen(),
            _ => None,
        }
    }

    /// The citizen, for changing it, if the client is a player logged in as one.
    pub fn citizen_mut(&mut self) -> (r: Option<&mut Citizen>)
        ensures
            match *old(self) {
                ClientInfo::Player(Player::Citizen(c)) => r matches Some(rc) && *rc == c
                    && *final(self) == ClientInfo::Player(Player::Citizen(*final(rc))),
                _ => r is None && *final(self) == *old(self),
            },
    {
        match self {
            ClientInfo::Player(player) => player.citizen_mut(),
            ClientInfo::WorldServer(_) => None,
        }
    }

    /// The player, if the client is a tourist.
    pub fn tourist(&self) -> (r: Option<&GenericPlayer>)
        ensures
            match *self {
                ClientInfo::Player(Player::Tourist(g)) => r == Some(&g),
                _ => r is None,
            },
    {
        match self {
            ClientInfo::Player(Player::Tourist(info)) => Some(info),
            _ => None,
        }
    }

    /// The player, for changing it, if the client is a tourist.
    pub fn tourist_mut(&mut self) -> (r: Option<&mut GenericPlayer>)
        ensures
            match *old(self) {
                ClientInfo::Player(Player::Tourist(g)) => r matches Some(rg) && *rg == g
                    && *final(self) == ClientInfo::Player(Player::Tourist(*final(rg))),
                _ => r is None && *final(self) == *old(self),
            },
    {
        match self {
            ClientInfo::Player(Player::Tourist(info)) => Some(info),
            _ => None,
        }
    }

    /// The player, if the client is one.
    pub fn player(&self) -> (r: Option<&Player>)
        ensures
            match *self {
                ClientInfo::Player(p) => r == Some(&p),
                ClientInfo::WorldServer(_) => r is None,
            },
    {
        match self {
            ClientInfo::WorldServer(_) => None,
            ClientInfo::Player(player) => Some(player),
        }
    }

    /// The generic player part, if the client is a player.
    pub fn player_info(&self) -> (r: Option<&GenericPlayer>)
        ensures
            r matches Some(g) ==> player_info_of(*self) == Some(*g),
            r is None <==> player_info_of(*self) is None,
    {
        match self {
            ClientInfo::WorldServer(_) => None,
            ClientInfo::Player(player) => Some(player.base_player()),
        }
    }

    /// The generic player part, for changing it, if the client is a player.
    pub fn player_info_mut(&mut self) -> (r: Option<&mut GenericPlayer>)
        ensures
            match *old(self) {
                ClientInfo::Player(p) => r matches Some(rg) && *rg == base_of(p) && *final(self)
                    == ClientInfo::Player(with_base(p, *final(rg))),
                ClientInfo::WorldServer(_) => r is None && *final(self) == *old(self),
            },
    {
        match self {
            ClientInfo::WorldServer(_) => None,
            ClientInfo::Player(player) => Some(player.base_player_mut()),
        }
    }

    /// Whether the client may use the administrator functions. The administrator
    /// account is always citizen number 1.
    pub fn has_admin_permissions(&self) -> (b: bool)
        ensures
            b == is_admin(*self),
    {
        // The admin account is always citizen ID 1
        if let Self::Player(Player::Citizen(citizen)) = self {
            if citizen.cit_id == 1 {
                return true;
            }
        } else if let Some(player_info) = self.player_info() {
            if player_info.privilege_id == Some(1) {
                return true;
            }
        }
        false
    }

    /// The citizen number, if the client is a player logged in as a citizen.
    pub fn citizen_id(&self) -> (r: Option<u32>)
        ensures
            r == citizen_id_of(*self),
    {
        match self {
            Self::Player(Player::Citizen(citizen)) => Some(citizen.cit_id),
            _ => None,
        }
    }

    /// The citizen number whose rights the client acts with.
    pub fn effective_privilege(&self) -> (p: u32)
        ensures
            p == effective_privilege_of(*self),
    {
        match self.player_info() {
            Some(player) => match player.privilege_id {
                Some(priv_id) => if priv_id != 0 {
                    priv_id
                } else {
                    match self.citizen_id() {
                        Some(id) => id,
                        None => 0,
                    }
                },
                None => 0,
            },
            None => 0,
        }
    }

    /// The world server, if the client is one.
    pub fn world_server(&self) -> (r: Option<&WorldServer>)
        ensures
            match *self {
                ClientInfo::WorldServer(w) => r == Some(&w),
                ClientInfo::Player(_) => r is None,
            },
    {
        match self {
            ClientInfo::WorldServer(world_server) => Some(world_server),
            ClientInfo::Player(_) => None,
        }
    }

    /// The world server, for changing it, if the client is one.
    pub fn world_server_mut(&mut self) -> (r: Option<&mut WorldServer>)
        ensures
            match *old(self) {
                ClientInfo::WorldServer(w) => r matches Some(rw) && *rw == w && *final(self)
                    == ClientInfo::WorldServer(*final(rw)),
                ClientInfo::Player(_) => r is None && *final(self) == *old(self),
            },
    {
        match self {
            ClientInfo::WorldServer(world_server) => Some(world_server),
            ClientInfo::Player(_) => None,
        }
    }
}

/// The administrator account, citizen number 1, always has the administrator
/// functions; a world server never has them.
pub proof fn law_admin_account(c: ClientInfo)
    ensures
        citizen_id_of(c) == Some(1u32) ==> is_admin(c),
        c is WorldServer ==> !is_admin(c),
        c is WorldServer ==> effective_privilege_of(c) == 0,
{
}

/// A nonzero privilege number is the one a player acts with; a citizen whose
/// privilege number is 0 acts with its own number.
pub proof fn law_effective_privilege(c: ClientInfo, p: u32)
    ensures
        (player_info_of(c) matches Some(g) && g.privilege_id == Some(p) && p != 0)
            ==> effective_privilege_of(c) == p,
        (player_info_of(c) matches Some(g) && g.privilege_id == Some(0u32) && citizen_id_of(c)
            == Some(p)) ==> effective_privilege_of(c) == p,
{
}

/// A connection of the universe and the client state it carries, if any.
#[derive(Debug)]
pub struct ConnectedClient {
    pub cid: u64,
    pub client: Option<ClientInfo>,
}

} // verus!
