use vstd::prelude::*;

verus! {

/// The packet variables that the citizen functions send.
#[derive(Clone, Copy, Debug, PartialEq, Eq, Structural)]
pub enum VarId {
    CitizenNumber,
    CitizenName,
    CitizenURL,
    TrialUser,
    CAVEnabled,
    CAVTemplate,
    CitizenImmigration,
    CitizenExpiration,
    CitizenLastLogin,
    CitizenTotalTime,
    CitizenBotLimit,
    BetaUser,
    CitizenEnabled,
    CitizenPrivacy,
    CitizenPassword,
    CitizenEmail,
    CitizenPrivilegePassword,
    CitizenComment,
    IdentifyUserIP,
}

/// One typed variable of a packet.
#[derive(Debug)]
pub enum PacketVar {
    Uint(VarId, u32),
    Text(VarId, String),
    Byte(VarId, u8),
}

/// A packet variable in specifications.
pub enum PacketVarModel {
    Uint(VarId, u32),
    Text(VarId, Seq<char>),
    Byte(VarId, u8),
}

impl View for PacketVar {
    type V = PacketVarModel;

    open spec fn view(&self) -> PacketVarModel {
        match self {
            PacketVar::Uint(id, v) => PacketVarModel::Uint(*id, *v),
            PacketVar::Text(id, s) => PacketVarModel::Text(*id, s@),
            PacketVar::Byte(id, b) => PacketVarModel::Byte(*id, *b),
        }
    }
}

/// The variables of a list, in specifications.
pub open spec fn vars_view(v: Seq<PacketVar>) -> Seq<PacketVarModel> {
    v.map_values(|x: PacketVar| x@)
}

} // verus!
