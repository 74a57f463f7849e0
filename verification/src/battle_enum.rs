//! Enumerations and the data-driven function-id table of the battle rules.
//!
//! Buff and skill behaviour families are selected by numeric "function ids"
//! carried in template data.  The engine never matches on raw magic numbers
//! spread through the code: the ids are named here once, and small
//! classification functions say which family an id belongs to.

use vstd::prelude::*;

verus! {

/// Number of turn-order slots a battle holds; empty slots carry user id 0.
pub const MEMBER_MAX: usize = 4;

/// How many map cells every board has.
pub const MAP_CELL_COUNT: usize = 30;

/// Default number of tiles a player may flip per turn.
pub const TURN_DEFAULT_OPEN_CELL_TIMES: u8 = 2;

/// Scope template id that stands for the ring of cells around an origin.
pub const TRIGGER_SCOPE_NEAR_TEMP_ID: u32 = 2;

/// Scope template id that always resolves to every living character.
pub const GLOBAL_SCOPE_TEMP_ID: u32 = 6;

// ---------------------------------------------------------------------------
// Buff function ids (behaviour families decoded from template data).
// ---------------------------------------------------------------------------

/// Reduces attack damage taken by a fixed amount; a stronger amount applies
/// while the holder has the lowest hp on the board.
pub const ATTACKED_SUB_DAMAGE: u32 = 101;
/// Reduces attack damage, but only against adjacent attackers.
pub const NEAR_SUB_ATTACK_DAMAGE: u32 = 102;
/// Negates all attack damage from adjacent attackers.
pub const NEAR_ATTACKED_DAMAGE_ZERO: u32 = 103;
/// Guard: fully negates one computed attack damage, then is consumed.
pub const GD_ATTACK_DAMAGE: u32 = 104;
/// Petrify/stone transform: multiplies damage taken and reverts on hurt.
pub const STONE_BUFF: u32 = 105;
/// Deals the holder's hp as skill damage around it at turn start.
pub const SUICIDE_SKILL_DAMAGE: u32 = 106;
/// Grants attack stacks to the holder and its minions while minions live.
pub const CROW_ALIVE_ADD_ATTACK: u32 = 107;
/// Swaps the holder's skill set during day phase.
pub const DAY_SKILLS: u32 = 108;
/// Swaps the holder's skill set during night phase.
pub const NIGHT_SKILLS: u32 = 109;
/// Trap: grants the walker a buff when it enters the cell.
pub const TRAP_ADD_BUFF: u32 = 110;
/// Trap: deals skill damage to the walker when it enters the cell.
pub const TRAP_SKILL_DAMAGE: u32 = 111;
/// Trap variant suppressible by a fire-protection buff.
pub const FIRE_MAP_CELL: u32 = 112;
/// Grants energy instead of taking fire-trap damage.
pub const FIRE_PROTECT: u32 = 113;
/// The holder cannot be displaced by other characters.
pub const CAN_NOT_MOVED: u32 = 114;
/// Interrupted by taking attack damage; consumed on hit.
pub const CHANGE_SKILL: u32 = 115;
/// Deals skill damage to characters that end a move adjacent to the holder.
pub const DEFENSE_NEAR_MOVE_SKILL_DAMAGE: u32 = 116;
/// The holder cannot use skills while this buff lasts.
pub const LOCK_SKILLS: u32 = 117;
/// Marks a transform; losing the buff reverts the transform.
pub const TRANSFORM_BUFF: u32 = 118;
/// Grants energy whenever the holder is attacked.
pub const ATTACKED_ADD_ENERGY: u32 = 119;
/// Reduces skill cooldowns whenever the holder is attacked.
pub const ATTACKED_SUB_CD: u32 = 120;
/// Reflects attack damage as skill damage to characters in scope.
pub const RETURN_ATTACKED_DAMAGE_TO_SKILL_AOE: u32 = 121;
/// Swaps a skill at each round boundary, keyed by the round number.
pub const ROUND_CHANGE_SKILL: u32 = 122;
/// Summons crow minions at the holder's turn end.
pub const SUMMON_CROW: u32 = 123;
/// Refreshes a skill cooldown when the last crow minion dies.
pub const ALL_CROW_DIE_REFRESH_SKILL_CD: u32 = 124;
/// Clears a skill cooldown when a cell of the matching element is opened.
pub const OPEN_ELEMENT_CELL_CLEAR_CD: u32 = 125;
/// Ends the turn when the holder dies.
pub const DIE_END_TURN: u32 = 126;
/// Leaves a fire trap on cells the holder opened but failed to pair.
pub const END_TURN_FIRE: u32 = 127;

// ---------------------------------------------------------------------------
// Skill function ids.
// ---------------------------------------------------------------------------

/// Skill usable only in a turn where the player paired cells.
pub const SKILL_PAIR_LIMIT_DAMAGE: u32 = 201;
/// Replaced by the skill named in its template after use (water turret).
pub const WATER_TURRET: u32 = 202;
/// Replaced by a charge skill that absorbs damage after use.
pub const CHARGE_SKILL_DAMGE_ABSORPTION: u32 = 203;
/// Replaced by the skill in its third parameter after use.
pub const FULL_MAP_DAMAGE: u32 = 204;

// ---------------------------------------------------------------------------
// Skill judge ids (use conditions looked up in judge templates).
// ---------------------------------------------------------------------------

/// Usable only while the caster's hp is above the judge parameter.
pub const HP_LIMIT_GT: u32 = 1;
/// Usable at most once per turn.
pub const LIMIT_TURN_TIMES: u32 = 2;
/// Usable at most once per round.
pub const LIMIT_ROUND_TIMES: u32 = 3;
/// Usable only in a turn where the player paired cells.
pub const PAIR_LIMIT: u32 = 4;

/// True for ids of buffs that sit on a cell and fire when walked on.
pub fn is_trap(function_id: u32) -> (r: bool)
    ensures
        r == spec_is_trap(function_id),
{
    function_id == TRAP_ADD_BUFF || function_id == TRAP_SKILL_DAMAGE
        || function_id == FIRE_MAP_CELL
}

/// Which function ids count as traps.
pub open spec fn spec_is_trap(function_id: u32) -> bool {
    function_id == TRAP_ADD_BUFF || function_id == TRAP_SKILL_DAMAGE
        || function_id == FIRE_MAP_CELL
}

/// True for trap ids that deal skill damage to the walker.
pub fn is_trap_skill_damage(function_id: u32) -> (r: bool)
    ensures
        r == (function_id == TRAP_SKILL_DAMAGE || function_id == FIRE_MAP_CELL),
{
    function_id == TRAP_SKILL_DAMAGE || function_id == FIRE_MAP_CELL
}

/// True for ids of buffs that reduce incoming attack damage.
pub fn is_sub_damage_buff(function_id: u32) -> (r: bool)
    ensures
        r == spec_is_sub_damage_buff(function_id),
{
    function_id == ATTACKED_SUB_DAMAGE || function_id == NEAR_SUB_ATTACK_DAMAGE
        || function_id == NEAR_ATTACKED_DAMAGE_ZERO
}

/// Which function ids reduce incoming attack damage.
pub open spec fn spec_is_sub_damage_buff(function_id: u32) -> bool {
    function_id == ATTACKED_SUB_DAMAGE || function_id == NEAR_SUB_ATTACK_DAMAGE
        || function_id == NEAR_ATTACKED_DAMAGE_ZERO
}

/// Which function ids mark transforms; losing one reverts the transform.
pub open spec fn spec_is_transform_buff(function_id: u32) -> bool {
    function_id == TRANSFORM_BUFF || function_id == STONE_BUFF
}

/// True for ids of transform buffs.
pub fn is_transform_buff(function_id: u32) -> (r: bool)
    ensures
        r == spec_is_transform_buff(function_id),
{
    function_id == TRANSFORM_BUFF || function_id == STONE_BUFF
}

/// Relative cell offsets of the ring around a cell, for boards whose rows
/// hold five and six cells alternately.
pub fn near_offsets() -> (r: Vec<i64>)
    ensures
        r@ == near_offsets_seq(),
{
    let mut v: Vec<i64> = Vec::new();
    v.push(-6);
    v.push(-5);
    v.push(-1);
    v.push(1);
    v.push(5);
    v.push(6);
    proof {
        assert(v@ =~= near_offsets_seq());
    }
    v
}

/// The six offsets of the adjacent ring.
pub open spec fn near_offsets_seq() -> Seq<i64> {
    seq![-6i64, -5i64, -1i64, 1i64, 5i64, 6i64]
}

// ---------------------------------------------------------------------------
// Enumerations.
// ---------------------------------------------------------------------------

/// Stance operation carried by a player action.
#[derive(Clone, Copy, Debug, PartialEq, Eq, Structural)]
pub enum PosType {
    ChangePos,
    CancelPos,
}

/// Effect kinds reported to the client in notification records.
#[derive(Clone, Copy, Debug, PartialEq, Eq, Structural)]
pub enum EffectType {
    SkillDamage,
    AttackDamage,
    Cure,
    SubDamage,
    SubSkillCd,
    RewardItem,
    AddSkillCd,
    AddEnergy,
    AddSkill,
    RefreshSkillCd,
}

impl EffectType {
    /// Wire value of the effect kind.
    pub fn into_u32(self) -> (r: u32)
        ensures
            r == self.spec_into_u32(),
    {
        match self {
            EffectType::SkillDamage => 1,
            EffectType::AttackDamage => 2,
            EffectType::Cure => 3,
            EffectType::SubDamage => 4,
            EffectType::SubSkillCd => 5,
            EffectType::RewardItem => 6,
            EffectType::AddSkillCd => 7,
            EffectType::AddEnergy => 8,
            EffectType::AddSkill => 9,
            EffectType::RefreshSkillCd => 10,
        }
    }

    /// Wire value of the effect kind.
    pub open spec fn spec_into_u32(self) -> u32 {
        match self {
            EffectType::SkillDamage => 1,
            EffectType::AttackDamage => 2,
            EffectType::Cure => 3,
            EffectType::SubDamage => 4,
            EffectType::SubSkillCd => 5,
            EffectType::RewardItem => 6,
            EffectType::AddSkillCd => 7,
            EffectType::AddEnergy => 8,
            EffectType::AddSkill => 9,
            EffectType::RefreshSkillCd => 10,
        }
    }
}

/// Passive-trigger effect kinds.
#[derive(Clone, Copy, Debug, PartialEq, Eq, Structural)]
pub enum TriggerEffectType {
    Buff,
}

/// What a skill consumes when cast.
#[derive(Clone, Copy, Debug, PartialEq, Eq, Structural)]
pub enum SkillConsumeType {
    Energy,
}

/// Whether a character is alive or has fallen.
#[derive(Clone, Copy, Debug, PartialEq, Eq, Structural)]
pub enum BattleCterState {
    Alive,
    Die,
}

/// Whether a player may still attack this turn.
#[derive(Clone, Copy, Debug, PartialEq, Eq, Structural)]
pub enum AttackState {
    NoneState,
    Able,
    Locked,
}

/// A player's standing in the battle.
#[derive(Clone, Copy, Debug, PartialEq, Eq, Structural)]
pub enum BattlePlayerState {
    Normal,
    Died,
}

/// Day/night phase of the battle.
#[derive(Clone, Copy, Debug, PartialEq, Eq, Structural)]
pub enum DayNight {
    Day,
    Night,
}

/// Kinds of action a turn may carry.
#[derive(Clone, Copy, Debug, PartialEq, Eq, Structural)]
pub enum ActionType {
    NoneAction,
    Attack,
    UseItem,
    Skip,
    Open,
    Skill,
    Buff,
}

impl ActionType {
    /// Wire value of the action kind.
    pub fn into_u32(self) -> (r: u32)
        ensures
            r == self.spec_into_u32(),
    {
        match self {
            ActionType::NoneAction => 0,
            ActionType::Attack => 1,
            ActionType::UseItem => 2,
            ActionType::Skip => 3,
            ActionType::Open => 4,
            ActionType::Skill => 5,
            ActionType::Buff => 6,
        }
    }

    /// Wire value of the action kind.
    pub open spec fn spec_into_u32(self) -> u32 {
        match self {
            ActionType::NoneAction => 0,
            ActionType::Attack => 1,
            ActionType::UseItem => 2,
            ActionType::Skip => 3,
            ActionType::Open => 4,
            ActionType::Skill => 5,
            ActionType::Buff => 6,
        }
    }

    /// Action kind for a wire value; unknown values fall back to `None`.
    pub fn from(action_type: u32) -> (r: ActionType)
        ensures
            r.spec_into_u32() == if 1 <= action_type <= 6 {
                action_type
            } else {
                0
            },
    {
        match action_type {
            1 => ActionType::Attack,
            2 => ActionType::UseItem,
            3 => ActionType::Skip,
            4 => ActionType::Open,
            5 => ActionType::Skill,
            6 => ActionType::Buff,
            _ => ActionType::NoneAction,
        }
    }
}

/// Which cells or characters a skill, buff or judge may aim at.
#[derive(Clone, Copy, Debug, PartialEq, Eq, Structural)]
pub enum TargetType {
    NoneTarget,
    MapCell,
    AnyPlayer,
    PlayerSelf,
    AllPlayer,
    OtherAllPlayer,
    OtherAnyPlayer,
    UnOpenMapCell,
    UnPairMapCell,
    NullMapCell,
    UnPairNullMapCell,
    CellPlayer,
    SelfScopeOthers,
    SelfScopeAnyOthers,
    OpenedMapCell,
    MapCellOtherPlayer,
    UnOpenMapCellAndUnLock,
    UnLockNullMapCell,
    UnOpenNullMapCell,
    AllEnemyCters,
    SelfScopeAllEnemyCters,
    AnyEnemyCter,
    SelfScopeAnyEnemyCters,
    AllTeamCters,
    AnyTeamCter,
    MapCellEnemys,
}

impl TargetType {
    /// Wire value of the target kind.
    pub fn into_u32(self) -> (r: u32)
        ensures
            r == self.spec_into_u32(),
    {
        match self {
            TargetType::NoneTarget => 0,
            TargetType::MapCell => 1,
            TargetType::AnyPlayer => 2,
            TargetType::PlayerSelf => 3,
            TargetType::AllPlayer => 4,
            TargetType::OtherAllPlayer => 5,
            TargetType::OtherAnyPlayer => 6,
            TargetType::UnOpenMapCell => 7,
            TargetType::UnPairMapCell => 8,
            TargetType::NullMapCell => 9,
            TargetType::UnPairNullMapCell => 10,
            TargetType::CellPlayer => 11,
            TargetType::SelfScopeOthers => 12,
            TargetType::SelfScopeAnyOthers => 13,
            TargetType::OpenedMapCell => 14,
            TargetType::MapCellOtherPlayer => 15,
            TargetType::UnOpenMapCellAndUnLock => 16,
            TargetType::UnLockNullMapCell => 17,
            TargetType::UnOpenNullMapCell => 18,
            TargetType::AllEnemyCters => 19,
            TargetType::SelfScopeAllEnemyCters => 20,
            TargetType::AnyEnemyCter => 21,
            TargetType::SelfScopeAnyEnemyCters => 22,
            TargetType::AllTeamCters => 23,
            TargetType::AnyTeamCter => 24,
            TargetType::MapCellEnemys => 25,
        }
    }

    /// Wire value of the target kind.
    pub open spec fn spec_into_u32(self) -> u32 {
        match self {
            TargetType::NoneTarget => 0,
            TargetType::MapCell => 1,
            TargetType::AnyPlayer => 2,
            TargetType::PlayerSelf => 3,
            TargetType::AllPlayer => 4,
            TargetType::OtherAllPlayer => 5,
            TargetType::OtherAnyPlayer => 6,
            TargetType::UnOpenMapCell => 7,
            TargetType::UnPairMapCell => 8,
            TargetType::NullMapCell => 9,
            TargetType::UnPairNullMapCell => 10,
            TargetType::CellPlayer => 11,
            TargetType::SelfScopeOthers => 12,
            TargetType::SelfScopeAnyOthers => 13,
            TargetType::OpenedMapCell => 14,
            TargetType::MapCellOtherPlayer => 15,
            TargetType::UnOpenMapCellAndUnLock => 16,
            TargetType::UnLockNullMapCell => 17,
            TargetType::UnOpenNullMapCell => 18,
            TargetType::AllEnemyCters => 19,
            TargetType::SelfScopeAllEnemyCters => 20,
            TargetType::AnyEnemyCter => 21,
            TargetType::SelfScopeAnyEnemyCters => 22,
            TargetType::AllTeamCters => 23,
            TargetType::AnyTeamCter => 24,
            TargetType::MapCellEnemys => 25,
        }
    }

    /// Target kind for a wire value; unknown values fall back to `None`.
    pub fn from(value: u32) -> (r: TargetType)
        ensures
            r.spec_into_u32() == if value <= 25 {
                value
            } else {
                0
            },
    {
        match value {
            0 => TargetType::NoneTarget,
            1 => TargetType::MapCell,
            2 => TargetType::AnyPlayer,
            3 => TargetType::PlayerSelf,
            4 => TargetType::AllPlayer,
            5 => TargetType::OtherAllPlayer,
            6 => TargetType::OtherAnyPlayer,
            7 => TargetType::UnOpenMapCell,
            8 => TargetType::UnPairMapCell,
            9 => TargetType::NullMapCell,
            10 => TargetType::UnPairNullMapCell,
            11 => TargetType::CellPlayer,
            12 => TargetType::SelfScopeOthers,
            13 => TargetType::SelfScopeAnyOthers,
            14 => TargetType::OpenedMapCell,
            15 => TargetType::MapCellOtherPlayer,
            16 => TargetType::UnOpenMapCellAndUnLock,
            17 => TargetType::UnLockNullMapCell,
            18 => TargetType::UnOpenNullMapCell,
            19 => TargetType::AllEnemyCters,
            20 => TargetType::SelfScopeAllEnemyCters,
            21 => TargetType::AnyEnemyCter,
            22 => TargetType::SelfScopeAnyEnemyCters,
            23 => TargetType::AllTeamCters,
            24 => TargetType::AnyTeamCter,
            25 => TargetType::MapCellEnemys,
            _ => TargetType::NoneTarget,
        }
    }

    /// True for target kinds that exclude the acting character itself.
    pub fn excludes_self(self) -> (r: bool)
        ensures
            r == self.spec_excludes_self(),
    {
        match self {
            TargetType::OtherAllPlayer => true,
            TargetType::SelfScopeOthers => true,
            TargetType::SelfScopeAnyOthers => true,
            TargetType::OtherAnyPlayer => true,
            _ => false,
        }
    }

    /// Which target kinds exclude the acting character itself.
    pub open spec fn spec_excludes_self(self) -> bool {
        self == TargetType::OtherAllPlayer || self == TargetType::SelfScopeOthers
            || self == TargetType::SelfScopeAnyOthers || self == TargetType::OtherAnyPlayer
    }

    /// True for target kinds that accept enemies only.
    pub fn enemys_only(self) -> (r: bool)
        ensures
            r == self.spec_enemys_only(),
    {
        match self {
            TargetType::AllEnemyCters => true,
            TargetType::AnyEnemyCter => true,
            TargetType::SelfScopeAllEnemyCters => true,
            TargetType::SelfScopeAnyEnemyCters => true,
            _ => false,
        }
    }

    /// Which target kinds accept enemies only.
    pub open spec fn spec_enemys_only(self) -> bool {
        self == TargetType::AllEnemyCters || self == TargetType::AnyEnemyCter
            || self == TargetType::SelfScopeAllEnemyCters
            || self == TargetType::SelfScopeAnyEnemyCters
    }

    /// True for target kinds that accept teammates only.
    pub fn team_only(self) -> (r: bool)
        ensures
            r == self.spec_team_only(),
    {
        match self {
            TargetType::AllTeamCters => true,
            TargetType::AnyTeamCter => true,
            _ => false,
        }
    }

    /// Which target kinds accept teammates only.
    pub open spec fn spec_team_only(self) -> bool {
        self == TargetType::AllTeamCters || self == TargetType::AnyTeamCter
    }
}

/// Element tags carried by cells and characters.
#[derive(Clone, Copy, Debug, PartialEq, Eq, Structural)]
pub enum ElementType {
    Nature,
    Earth,
    Water,
    Fire,
}

impl ElementType {
    /// Wire value of the element.
    pub fn into_u8(self) -> (r: u8)
        ensures
            r == (match self {
                ElementType::Nature => 1u8,
                ElementType::Earth => 2u8,
                ElementType::Water => 3u8,
                ElementType::Fire => 4u8,
            }),
    {
        match self {
            ElementType::Nature => 1,
            ElementType::Earth => 2,
            ElementType::Water => 3,
            ElementType::Fire => 4,
        }
    }
}

/// Where damage handed to the pipeline comes from: a basic attack, whose
/// amount is recomputed from the combatants' stats, or a skill, whose fixed
/// amount bypasses defence.
#[derive(Clone, Copy, Debug, PartialEq, Eq, Structural)]
pub enum DamageType {
    Attack(i32),
    Skill(i32),
}

/// What summoned a minion or installed a buff.
#[derive(Clone, Copy, Debug, PartialEq, Eq, Structural)]
pub enum FromType {
    Skill(u32),
    Buff(u32),
}

/// The mission hooks the engine fires for the (external) mission
/// system: what happened, never how missions count it.
#[derive(Clone, Copy, Debug, PartialEq, Eq, Structural)]
pub enum MissionTriggerType {
    OpenCell,
    Pair,
    GetGold,
    UseSkill,
}

/// Kinds of cells a board holds.
#[derive(Clone, Copy, Debug, PartialEq, Eq, Structural)]
pub enum MapCellType {
    InValid,
    UnUse,
    Valid,
    WorldCell,
    MarketCell,
}

/// Battle modes; scoring differs between them.
#[derive(Clone, Copy, Debug, PartialEq, Eq, Structural)]
pub enum RoomType {
    OneVOneVOneVOne,
    Match,
    WorldBoss,
}

impl RoomType {
    /// True in world-boss battles, which defer all scoring.
    pub fn is_boss_type(self) -> (r: bool)
        ensures
            r == (self == RoomType::WorldBoss),
    {
        match self {
            RoomType::WorldBoss => true,
            _ => false,
        }
    }

    /// True in ranked/matched battles, which settle scores and grades.
    pub fn is_match_type(self) -> (r: bool)
        ensures
            r == (self == RoomType::Match),
    {
        match self {
            RoomType::Match => true,
            _ => false,
        }
    }
}

/// An action a player queued, with its wire payload.
#[derive(Clone, Copy, Debug, PartialEq, Eq, Structural)]
pub struct Action {
    pub action_type: u8,
    pub action_value: u32,
}

/// One turn-order slot together with the actions taken in it.
#[derive(Clone, Debug)]
pub struct ActionUnit {
    pub team_id: u32,
    pub user_id: u32,
    pub turn_index: u32,
    pub actions: Vec<Action>,
}

} // verus!
