//! Notification records the engine produces for each action.
//!
//! Every action yields an ordered list of action units, each naming the
//! acting character, the action kind, and per-target effect records.  The
//! transport layer outside the engine serializes and sends them; the engine
//! itself only builds them and queues them in the battle's outbox.

use vstd::prelude::*;

use crate::battle_enum::ActionType;

verus! {

/// One applied effect: its kind's wire value and its magnitude.
#[derive(Clone, Copy, Debug, PartialEq, Eq, Structural)]
pub struct EffectPt {
    pub effect_type: u32,
    pub effect_value: u32,
}

impl EffectPt {
    /// A blank effect record.
    pub fn new() -> (r: EffectPt)
        ensures
            r.effect_type == 0,
            r.effect_value == 0,
    {
        EffectPt { effect_type: 0, effect_value: 0 }
    }
}

/// One passively triggered effect, naming the buff that fired.
#[derive(Clone, Copy, Debug, PartialEq, Eq, Structural)]
pub struct TriggerEffectPt {
    pub field_type: u32,
    pub buff_id: u32,
    pub value: u32,
}

impl TriggerEffectPt {
    /// A blank passive-trigger record.
    pub fn new() -> (r: TriggerEffectPt)
        ensures
            r.field_type == 0,
            r.buff_id == 0,
            r.value == 0,
    {
        TriggerEffectPt { field_type: 0, buff_id: 0, value: 0 }
    }
}

/// A buff as shown to a client: its id and remaining counters.
#[derive(Clone, Copy, Debug, PartialEq, Eq, Structural)]
pub struct BuffPt {
    pub buff_id: u32,
    pub trigger_timesed: u32,
    pub keep_times: u32,
}

/// The buffs of one cell as one client may see them.
#[derive(Clone, Debug)]
pub struct CellBuffPt {
    pub index: u32,
    pub buffs: Vec<BuffPt>,
}

/// Everything that happened to one target of an action.
#[derive(Clone, Debug)]
pub struct TargetPt {
    pub target_value: Vec<u32>,
    pub add_buffs: Vec<u32>,
    pub lost_buffs: Vec<u32>,
    pub lost_skills: Vec<u32>,
    pub effects: Vec<EffectPt>,
    pub passive_effects: Vec<TriggerEffectPt>,
    pub new_cter_id: u32,
}

impl TargetPt {
    /// A blank target record.
    pub fn new() -> (r: TargetPt)
        ensures
            r.target_value@.len() == 0,
            r.add_buffs@.len() == 0,
            r.lost_buffs@.len() == 0,
            r.lost_skills@.len() == 0,
            r.effects@.len() == 0,
            r.passive_effects@.len() == 0,
            r.new_cter_id == 0,
    {
        TargetPt {
            target_value: Vec::new(),
            add_buffs: Vec::new(),
            lost_buffs: Vec::new(),
            lost_skills: Vec::new(),
            effects: Vec::new(),
            passive_effects: Vec::new(),
            new_cter_id: 0,
        }
    }
}

/// One action unit: who acted, what kind of action, and its targets.
#[derive(Clone, Debug)]
pub struct ActionUnitPt {
    pub from_cter: u32,
    pub action_type: u32,
    pub action_value: Vec<u32>,
    pub targets: Vec<TargetPt>,
}

impl ActionUnitPt {
    /// A blank action unit.
    pub fn new() -> (r: ActionUnitPt)
        ensures
            r.from_cter == 0,
            r.action_type == 0,
            r.action_value@.len() == 0,
            r.targets@.len() == 0,
    {
        ActionUnitPt { from_cter: 0, action_type: 0, action_value: Vec::new(), targets: Vec::new() }
    }
}

/// An action unit naming the acting character and the action kind, with
/// one optional action value.
pub fn build_action_unit_pt(cter_id: u32, action_type: ActionType, action_value: Option<u32>) -> (r:
    ActionUnitPt)
    ensures
        r.from_cter == cter_id,
        r.action_type == action_type.spec_into_u32(),
        match action_value {
            Some(v) => r.action_value@ == seq![v],
            None => r.action_value@.len() == 0,
        },
        r.targets@.len() == 0,
{
    let mut au = ActionUnitPt::new();
    au.from_cter = cter_id;
    au.action_type = action_type.into_u32();
    if let Some(action_value) = action_value {
        au.action_value.push(action_value);
        proof {
            assert(au.action_value@ =~= seq![action_value]);
        }
    }
    au
}

/// Client message codes the engine and the room layer address.
#[derive(Clone, Copy, Debug, PartialEq, Eq, Structural)]
pub enum ClientCode {
    ActionNotice,
    BattleTurnNotice,
    SummaryNotice,
    Login,
    SyncData,
    NickNameModify,
    Room,
    LeaveRoom,
    Start,
    ChangeTeam,
    PrepareCancel,
    RoomSetting,
    RoomMemberNotice,
    KickMember,
    ChooseCharacter,
    RoomNotice,
    Emoji,
    EmojiNotice,
    MemberLeaveNotice,
}

/// A battle player as shown to a client.
#[derive(Clone, Copy, Debug, PartialEq, Eq, Structural)]
pub struct BattlePlayerPt {
    pub user_id: u32,
    pub major_cter_id: u32,
    pub current_cter_id: u32,
    pub gold: i32,
    pub is_died: bool,
}

/// The turn push sent to one player: whose turn it is, the cycle counter,
/// every player's public state, and the cell buffs this player may see.
#[derive(Clone, Debug)]
pub struct BattleTurnNotice {
    pub cycle_count: u32,
    pub user_id: u32,
    pub battle_players: Vec<BattlePlayerPt>,
    pub cell_buffs: Vec<CellBuffPt>,
}

/// Payload of one queued outbound message.
#[derive(Clone, Debug)]
pub enum NoticePayload {
    Action(Vec<ActionUnitPt>),
    Turn(BattleTurnNotice),
}

/// One message waiting in the battle's outbox for the transport layer.
#[derive(Clone, Debug)]
pub struct OutMessage {
    pub cmd: ClientCode,
    pub user_id: u32,
    pub payload: NoticePayload,
}

} // verus!
