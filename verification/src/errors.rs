//! The engine's error taxonomy and the error replies sent back to a
//! client whose request failed.
//!
//! Every error is scoped to one action: validation runs before mutation,
//! so a rejected action leaves the battle untouched.

use vstd::prelude::*;

use crate::proto::ClientCode;

verus! {

/// Why an action was rejected.
#[derive(Clone, Copy, Debug, PartialEq, Eq, Structural)]
pub enum BattleError {
    /// A character, player, cell or template the action names is missing.
    NotFound,
    /// The chosen targets fail geometric or state validation.
    InvalidTarget,
    /// The action runs against a dead character, a locked cell, or an
    /// already-paired cell.
    StateViolation,
    /// A randomized selection has no legal candidate left.
    Exhausted,
}

/// The error reply for one failed request.
#[derive(Clone, Debug)]
pub struct ErrReply {
    pub cmd: ClientCode,
    pub user_id: u32,
    pub err_mess: String,
    pub is_succ: bool,
}

/// Which client codes answer a request and so carry an error reply; the
/// notice codes answer nothing.
pub open spec fn spec_replies_with_error(cmd: ClientCode) -> bool {
    match cmd {
        ClientCode::Login => true,
        ClientCode::SyncData => true,
        ClientCode::NickNameModify => true,
        ClientCode::Room => true,
        ClientCode::LeaveRoom => true,
        ClientCode::Start => true,
        ClientCode::ChangeTeam => true,
        ClientCode::PrepareCancel => true,
        ClientCode::RoomSetting => true,
        ClientCode::KickMember => true,
        ClientCode::ChooseCharacter => true,
        ClientCode::Emoji => true,
        _ => false,
    }
}

/// The error reply for a failed request, or nothing for a code that
/// answers no request.  A reply carries the failed code, the addressee,
/// the message, and the failure flag.
pub fn err_back(cmd: ClientCode, user_id: u32, error_mess: String) -> (r: Option<ErrReply>)
    ensures
        match r {
            Some(reply) => spec_replies_with_error(cmd) && reply.cmd == cmd && reply.user_id
                == user_id && reply.err_mess@ == error_mess@ && reply.is_succ == false,
            None => !spec_replies_with_error(cmd),
        },
{
    let replies = match cmd {
        ClientCode::Login => true,
        ClientCode::SyncData => true,
        ClientCode::NickNameModify => true,
        ClientCode::Room => true,
        ClientCode::LeaveRoom => true,
        ClientCode::Start => true,
        ClientCode::ChangeTeam => true,
        ClientCode::PrepareCancel => true,
        ClientCode::RoomSetting => true,
        ClientCode::KickMember => true,
        ClientCode::ChooseCharacter => true,
        ClientCode::Emoji => true,
        _ => false,
    };
    if replies {
        Some(ErrReply { cmd, user_id, err_mess: error_mess, is_succ: false })
    } else {
        None
    }
}

} // verus!
