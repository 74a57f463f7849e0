use battle_core::battle::BattleData;
use battle_core::battle_buff::Buff;
use battle_core::battle_cter::BaseAttr;
use battle_core::battle_cter::BattleBuffs;
use battle_core::battle_cter::BattleCharacter;
use battle_core::battle_enum::ActionType;
use battle_core::battle_enum::AttackState;
use battle_core::battle_enum::BattleCterState;
use battle_core::battle_enum::BattlePlayerState;
use battle_core::battle_enum::DamageType;
use battle_core::battle_enum::FromType;
use battle_core::battle_enum::DayNight;
use battle_core::battle_enum::MapCellType;
use battle_core::battle_enum::RoomType;
use battle_core::battle_enum::TargetType;
use battle_core::battle_cter::IndexData;
use battle_core::battle_player::BattlePlayer;
use battle_core::battle_player::FlowData;
use battle_core::battle_player::League;
use battle_core::battle_player::PlayerStatus;
use battle_core::errors::err_back;
use battle_core::map_data::MapCell;
use battle_core::map_data::TileMap;
use battle_core::parse::parse_i32;
use battle_core::parse::parse_u32;
use battle_core::proto::build_action_unit_pt;
use battle_core::proto::ClientCode;
use battle_core::proto::TargetPt;
use battle_core::battle_skill::Skill;
use battle_core::templates::BuffTemp;
use battle_core::templates::SkillTemp;
use battle_core::templates::ConstantTemp;
use battle_core::team::Member;
use battle_core::team::MemberState;
use battle_core::team::Team;
use battle_core::templates::TemplatesMgr;

fn temp_buff(id: u32, function_id: u32, trigger_times: u32, keep_time: u32) -> BuffTemp {
    BuffTemp {
        id,
        function_id,
        target: 0,
        par1: 0,
        par2: 0,
        par3: 0,
        par4: 0,
        par5: 0,
        scope: 0,
        keep_time,
        trigger_times,
    }
}

fn make_cell(index: usize, id: u32) -> MapCell {
    MapCell {
        id,
        index,
        x: (index % 6) as i64,
        y: (index / 6) as i64,
        cell_type: MapCellType::Valid,
        element: 1,
        cter_id: 0,
        open_cter: 0,
        pair_index: None,
        buffs: Vec::new(),
        passive_buffs: Vec::new(),
    }
}

fn make_board() -> TileMap {
    // a board of 30 cells holding 15 matching pairs
    let mut cells = Vec::new();
    for i in 0..30usize {
        cells.push(make_cell(i, (i / 2) as u32 + 1));
    }
    TileMap { id: 1, map_cells: cells, un_pair_map: vec![true; 30] }
}

fn make_cter(cter_id: u32, user_id: u32, team_id: u8, hp: i32, attack: i32, defence: i32, index: usize, is_major: bool) -> BattleCharacter {
    BattleCharacter {
        base_attr: BaseAttr {
            cter_id,
            cter_temp_id: cter_id,
            user_id,
            team_id,
            hp,
            max_hp: hp,
            attack,
            defence,
            energy: 0,
            max_energy: 0,
            element: 1,
        },
        index_data: IndexData { map_cell_index: Some(index) },
        skills: Vec::new(),
        battle_buffs: BattleBuffs { buffs: Vec::new() },
        minons: Vec::new(),
        owner: None,
        is_major,
        day_night: DayNight::Day,
        state: BattleCterState::Alive,
        self_cter_temp_id: cter_id,
    }
}

fn make_player(user_id: u32, team_id: u8, major: u32) -> BattlePlayer {
    BattlePlayer {
        user_id,
        name: String::new(),
        team_id,
        grade: 1,
        gold: 0,
        major_cter: major,
        current_cter: major,
        cters: vec![major],
        league: League { league_id: 1, score: 0 },
        flow_data: FlowData {
            residue_movement_points: 0,
            open_map_cell_vec: Vec::new(),
            open_map_cell_vec_history: Vec::new(),
            turn_limit_skills: Vec::new(),
            round_limit_skills: Vec::new(),
            pair_usable_skills: Vec::new(),
        },
        status: PlayerStatus {
            battle_state: BattlePlayerState::Normal,
            is_pair: false,
            is_attacked: false,
            attack_state: AttackState::NoneState,
            locked_oper: 0,
            is_can_end_turn: true,
        },
        robot: false,
        is_world_boss: false,
        mission_log: Vec::new(),
    }
}

fn make_battle() -> BattleData {
    // two players, each with one character: 100 hp, 10 attack, 5 defence
    let mut b = BattleData {
        battle_id: 1,
        room_type: RoomType::OneVOneVOneVOne,
        tile_map: make_board(),
        battle_player: vec![make_player(11, 1, 101), make_player(12, 2, 102)],
        cters: vec![
            make_cter(101, 11, 1, 100, 10, 5, 0, true),
            make_cter(102, 12, 2, 100, 10, 5, 1, true),
        ],
        turn_orders: vec![11, 12, 0, 0],
        next_turn_index: 0,
        turn: 1,
        round: 1,
        cycle_count: 0,
        total_turn_times: 0,
        day_night: DayNight::Day,
        turn_limit_time: 0,
        next_cter_id: 1000,
        summary_vec_temp: Vec::new(),
        summary_vec: Vec::new(),
        leave_map: Vec::new(),
        outbox: Vec::new(),
        task_box: Vec::new(),
    };
    b.tile_map.map_cells[0].cter_id = 101;
    b.tile_map.map_cells[1].cter_id = 102;
    b
}

fn empty_temps() -> TemplatesMgr {
    TemplatesMgr::default()
}

#[test]
fn parse_reads_decimal_values() {
    assert_eq!(parse_u32("0"), Some(0));
    assert_eq!(parse_u32("4294967295"), Some(u32::MAX));
    assert_eq!(parse_u32("4294967296"), None);
    assert_eq!(parse_u32(""), None);
    assert_eq!(parse_u32("12a"), None);
    assert_eq!(parse_i32("-50"), Some(-50));
    assert_eq!(parse_i32("-2147483648"), Some(i32::MIN));
    assert_eq!(parse_i32("2147483647"), Some(i32::MAX));
    assert_eq!(parse_i32("-"), None);
}

#[test]
fn constant_store_parses_rewards() {
    let mut temps = empty_temps();
    temps.constant_temp_mgr.init(vec![ConstantTemp {
        id: String::from("reward_gold_open_cell"),
        value: String::from("7"),
    }]);
    assert_eq!(
        temps.constant_temp_mgr.get_value_u32(&String::from("reward_gold_open_cell"), 1),
        7
    );
    assert_eq!(temps.constant_temp_mgr.get_value_u32(&String::from("missing"), 1), 1);
}

#[test]
fn buff_counters_never_go_negative() {
    let t = temp_buff(5, 110, 1, 0);
    let mut b = Buff::new(&t, None, None, None);
    assert_eq!(b.trigger_timesed, 1);
    b.sub_trigger_timesed();
    assert_eq!(b.trigger_timesed, 0);
    b.sub_trigger_timesed();
    assert_eq!(b.trigger_timesed, 0);
    b.sub_keep_times();
    assert_eq!(b.keep_times, 0);
}

#[test]
fn permanent_buff_is_never_consumed() {
    let mut b = make_battle();
    let t = temp_buff(5, 101, 0, 0);
    let buff = Buff::new(&t, None, None, None);
    assert!(buff.permanent);
    b.cters[0].battle_buffs.buffs.push(buff);
    let temps = empty_temps();
    let r = b.consume_buff(&temps, 5, Some(101), None, false);
    assert_eq!(r, None);
    assert_eq!(b.cters[0].battle_buffs.buffs.len(), 1);
    assert_eq!(b.cters[0].battle_buffs.buffs[0].trigger_timesed, 0);
    assert_eq!(b.cters[0].battle_buffs.buffs[0].keep_times, 0);
}

#[test]
fn trigger_limited_buff_expires_exactly_once() {
    let mut b = make_battle();
    let t = temp_buff(5, 110, 2, 0);
    b.cters[0].battle_buffs.buffs.push(Buff::new(&t, None, None, None));
    let temps = empty_temps();
    assert_eq!(b.consume_buff(&temps, 5, Some(101), None, false), None);
    assert_eq!(b.cters[0].battle_buffs.buffs[0].trigger_timesed, 1);
    assert_eq!(b.consume_buff(&temps, 5, Some(101), None, false), Some(5));
    assert_eq!(b.cters[0].battle_buffs.buffs.len(), 0);
}

#[test]
fn cell_trap_consumes_and_expires() {
    let mut b = make_battle();
    let t = temp_buff(9, 111, 1, 0);
    b.tile_map.map_cells[4].buffs.push(Buff::new(&t, None, None, None));
    let temps = empty_temps();
    let r = b.consume_buff(&temps, 9, None, Some(4), false);
    assert_eq!(r, Some(9));
    assert_eq!(b.tile_map.map_cells[4].buffs.len(), 0);
}

#[test]
fn attack_deals_attack_minus_defence() {
    let mut b = make_battle();
    let temps = empty_temps();
    let mut pt = TargetPt::new();
    let r = b.deduct_hp(&temps, 101, 102, DamageType::Attack(0), &mut pt, true);
    // 10 attack against 5 defence: 5 damage, recorded in the notification
    let (amount, cascade) = r.expect("the hit lands");
    assert_eq!(amount, 5);
    assert!(cascade.is_none());
    assert_eq!(b.cters[1].base_attr.hp, 95);
    assert_eq!(pt.effects.len(), 1);
    assert_eq!(pt.effects[0].effect_value, 5);
}

#[test]
fn skill_damage_bypasses_defence() {
    let mut b = make_battle();
    let temps = empty_temps();
    let mut pt = TargetPt::new();
    let r = b.deduct_hp(&temps, 101, 102, DamageType::Skill(7), &mut pt, true);
    let (amount, cascade) = r.expect("the hit lands");
    assert_eq!(amount, 7);
    assert!(cascade.is_none());
    assert_eq!(b.cters[1].base_attr.hp, 93);
    // skill damage is announced under its own label
    assert_eq!(pt.effects.len(), 1);
    assert_eq!(pt.effects[0].effect_type, 1);
}

#[test]
fn damage_amount_is_never_negative() {
    let mut b = make_battle();
    // defender with towering defence takes zero, never negative
    b.cters[1].base_attr.defence = 50;
    let temps = empty_temps();
    let mut pt = TargetPt::new();
    let r = b.deduct_hp(&temps, 101, 102, DamageType::Attack(0), &mut pt, true);
    let (amount, cascade) = r.expect("the hit lands");
    assert_eq!(amount, 0);
    assert!(cascade.is_none());
    assert_eq!(b.cters[1].base_attr.hp, 100);
}

#[test]
fn pairing_is_symmetric_and_exclusive() {
    let mut b = make_battle();
    let temps = empty_temps();
    // cells 4 and 5 carry the same tile id on this board
    assert_eq!(b.tile_map.map_cells[4].id, b.tile_map.map_cells[5].id);
    b.exec_open_map_cell(&temps, 11, 4).unwrap();
    assert!(!b.handler_map_cell_pair(11, 4));
    b.exec_open_map_cell(&temps, 11, 5).unwrap();
    assert!(b.handler_map_cell_pair(11, 5));
    assert_eq!(b.tile_map.map_cells[5].pair_index, Some(4));
    assert_eq!(b.tile_map.map_cells[4].pair_index, Some(5));
    assert!(!b.tile_map.un_pair_map[4]);
    assert!(!b.tile_map.un_pair_map[5]);
    // the default open reward was paid once per flip
    assert_eq!(b.battle_player[0].gold, 2);
}

#[test]
fn death_cascade_is_idempotent() {
    let mut b = make_battle();
    let temps = empty_temps();
    let mut pt = TargetPt::new();
    // a killing blow removes the character and clears its cell
    let r = b.deduct_hp(&temps, 101, 102, DamageType::Skill(100), &mut pt, true);
    let (amount, cascade) = r.expect("the hit lands");
    assert_eq!(amount, 100);
    assert!(cascade.is_none());
    assert_eq!(b.cters.len(), 1);
    assert_eq!(b.tile_map.map_cells[1].cter_id, 0);
    let players_before = b.battle_player.len();
    let cells_before: Vec<u32> = b.tile_map.map_cells.iter().map(|c| c.cter_id).collect();
    // a second cascade on the same id changes nothing
    let again = b.after_cter_died_trigger(102);
    assert!(again.is_none());
    assert_eq!(b.cters.len(), 1);
    assert_eq!(b.battle_player.len(), players_before);
    let cells_after: Vec<u32> = b.tile_map.map_cells.iter().map(|c| c.cter_id).collect();
    assert_eq!(cells_before, cells_after);
}

#[test]
fn dying_player_hands_gold_to_the_killer() {
    let mut b = make_battle();
    b.battle_player[1].gold = 40;
    let temps = empty_temps();
    let mut pt = TargetPt::new();
    let r = b.deduct_hp(&temps, 101, 102, DamageType::Skill(100), &mut pt, true);
    let (amount, cascade) = r.expect("the hit lands");
    assert_eq!(amount, 100);
    assert!(cascade.is_none());
    assert_eq!(b.battle_player[1].status.battle_state, BattlePlayerState::Died);
    assert_eq!(b.battle_player[0].gold, 40);
    // the battle settled exactly once
    assert_eq!(b.summary_vec.len(), 1);
    assert_eq!(b.summary_vec_temp.len(), 0);
}

#[test]
fn self_kill_transfers_no_gold() {
    let mut b = make_battle();
    b.battle_player[0].gold = 25;
    let temps = empty_temps();
    b.after_player_died_trigger(&temps, 11, 11, true);
    assert_eq!(b.battle_player[0].gold, 25);
    assert_eq!(b.battle_player[0].status.battle_state, BattlePlayerState::Died);
}

#[test]
fn scope_ring_finds_the_neighbour() {
    let mut temps = empty_temps();
    temps.skill_scope_temp_mgr.init(vec![battle_core::templates::SkillScopeTemp {
        id: 2,
        scope: vec![battle_core::templates::DirectionTemp { direction: vec![1, -1] }],
        scope2d: vec![battle_core::templates::Direction2dTemp {
            direction2d: vec![
                battle_core::templates::CoordTemp { x: 1, y: 0 },
                battle_core::templates::CoordTemp { x: -1, y: 0 },
            ],
        }],
    }]);
    let b = make_battle();
    let (cells, users) = b.cal_scope(&temps, 101, 0, TargetType::NoneTarget, None, None);
    assert!(cells.contains(&1));
    assert!(users.contains(&102));
}

#[test]
fn reduce_damage_counts_base_defence() {
    let b = make_battle();
    let temps = empty_temps();
    // without the ring template the bare defence stands
    assert_eq!(b.calc_reduce_damage(&temps, 101, 102, 10), 5);
}

#[test]
fn min_hp_prefers_the_weakest() {
    let mut b = make_battle();
    b.cters[1].base_attr.hp = 30;
    assert!(!b.is_min_hp(101));
    assert!(b.is_min_hp(102));
}

#[test]
fn check_choice_index_rejects_bad_cells() {
    let mut b = make_battle();
    assert!(b.check_choice_index(99, false, false, false, false, false, false).is_err());
    assert!(b.check_choice_index(2, false, false, false, false, false, false).is_ok());
    // an occupied cell fails the no-occupant constraint
    assert!(b.check_choice_index(0, false, false, false, false, false, true).is_err());
    b.tile_map.map_cells[2].pair_index = Some(3);
    assert!(b.check_choice_index(2, false, false, true, false, false, false).is_err());
}

#[test]
fn check_user_target_rejects_strangers_and_self() {
    let b = make_battle();
    assert!(b.check_user_target(&[11, 12], None).is_ok());
    assert!(b.check_user_target(&[99], None).is_err());
    assert!(b.check_user_target(&[11], Some(11)).is_err());
}

#[test]
fn refresh_check_needs_exhausted_board() {
    let mut b = make_battle();
    assert!(!b.check_refresh_map());
    for i in 0..28 {
        b.tile_map.un_pair_map[i] = false;
    }
    assert!(b.check_refresh_map());
}

#[test]
fn err_back_answers_requests_only() {
    let r = err_back(ClientCode::Login, 7, String::from("bad"));
    let reply = r.unwrap();
    assert_eq!(reply.user_id, 7);
    assert!(!reply.is_succ);
    assert!(err_back(ClientCode::RoomNotice, 7, String::from("bad")).is_none());
}

#[test]
fn action_unit_carries_actor_and_kind() {
    let au = build_action_unit_pt(101, ActionType::Attack, Some(9));
    assert_eq!(au.from_cter, 101);
    assert_eq!(au.action_type, 1);
    assert_eq!(au.action_value, vec![9]);
}

#[test]
fn team_membership_and_readiness() {
    let mut t = Team::new(1);
    t.add_member(Member { user_id: 5, state: MemberState::NotReady, nick_name: String::new() });
    assert!(t.is_exist_member(&5));
    assert!(!t.check_ready());
    if let Some(m) = t.get_member_mut(&5) {
        m.state = MemberState::Ready;
    }
    assert!(t.check_ready());
    assert_eq!(t.get_member_count(), 1);
    let removed = t.remove_member(&5);
    assert_eq!(removed.unwrap().user_id, 5);
    assert_eq!(t.get_member_count(), 0);
}

#[test]
fn outbox_skips_robots() {
    let mut b = make_battle();
    b.battle_player[1].robot = true;
    b.send_2_all_client(
        ClientCode::ActionNotice,
        battle_core::proto::NoticePayload::Action(Vec::new()),
    );
    assert_eq!(b.outbox.len(), 1);
    assert_eq!(b.outbox[0].user_id, 11);
}

fn temp_buff_pars(id: u32, function_id: u32, par1: u32, par2: u32) -> BuffTemp {
    BuffTemp {
        id,
        function_id,
        target: 0,
        par1,
        par2,
        par3: 0,
        par4: 0,
        par5: 0,
        scope: 0,
        keep_time: 0,
        trigger_times: 0,
    }
}

fn make_skill(id: u32, cd: i32) -> Skill {
    Skill {
        id,
        function_id: 0,
        skill_temp: SkillTemp {
            id,
            function_id: 0,
            skill_judge: 0,
            target: 0,
            cd: 0,
            consume_type: 0,
            consume_value: 0,
            scope: 0,
            par1: 0,
            par2: 0,
            par3: 0,
            buff: 0,
        },
        cd_times: cd,
        is_active: false,
        turn_use_times: 0,
    }
}

#[test]
fn last_minion_death_refreshes_owner_skill() {
    let mut b = make_battle();
    // the owner summons crows of kind 500 and holds the refresh buff
    b.cters[0].battle_buffs.buffs.push(Buff::new(&temp_buff_pars(30, 123, 500, 0), None, None, None));
    b.cters[0].battle_buffs.buffs.push(Buff::new(&temp_buff_pars(31, 124, 70, 71), None, None, None));
    b.cters[0].skills.push(make_skill(70, 4));
    let mut crow = make_cter(501, 11, 1, 20, 1, 0, 6, false);
    crow.base_attr.cter_temp_id = 500;
    crow.owner = Some((101, FromType::Buff(123)));
    b.cters.push(crow);
    b.cters[0].minons.push(501);
    b.tile_map.map_cells[6].cter_id = 501;
    let r = b.after_cter_died_trigger(501);
    // exactly one refresh notification, and the day skill has no cooldown
    let pt = r.expect("the last crow fell, so the refresh fires");
    assert_eq!(pt.passive_effects.len(), 1);
    assert_eq!(pt.passive_effects[0].field_type, 10);
    assert_eq!(pt.passive_effects[0].value, 70);
    assert_eq!(b.cters[0].skills[0].cd_times, 0);
    assert_eq!(b.tile_map.map_cells[6].cter_id, 0);
    assert!(b.find_cter_idx(501).is_none());
    assert_eq!(b.cters[0].minons.len(), 0);
}

#[test]
fn surviving_minion_defers_the_refresh() {
    let mut b = make_battle();
    b.cters[0].battle_buffs.buffs.push(Buff::new(&temp_buff_pars(30, 123, 500, 0), None, None, None));
    b.cters[0].battle_buffs.buffs.push(Buff::new(&temp_buff_pars(31, 124, 70, 71), None, None, None));
    b.cters[0].skills.push(make_skill(70, 4));
    for (cid, cell) in [(501u32, 6usize), (502, 7)] {
        let mut crow = make_cter(cid, 11, 1, 20, 1, 0, cell, false);
        crow.base_attr.cter_temp_id = 500;
        crow.owner = Some((101, FromType::Buff(123)));
        b.cters.push(crow);
        b.cters[0].minons.push(cid);
        b.tile_map.map_cells[cell].cter_id = cid;
    }
    let r = b.after_cter_died_trigger(501);
    // a crow still lives, so nothing is refreshed yet
    assert!(r.is_none());
    assert_eq!(b.cters[0].skills[0].cd_times, 4);
}

#[test]
fn fallen_summoner_takes_its_minions_along() {
    let mut b = make_battle();
    let mut summoner = make_cter(200, 11, 1, 50, 5, 0, 8, false);
    summoner.minons = vec![201, 202];
    b.cters.push(summoner);
    for (cid, cell) in [(201u32, 9usize), (202, 10)] {
        let mut m = make_cter(cid, 11, 1, 10, 1, 0, cell, false);
        m.owner = Some((200, FromType::Skill(60)));
        b.cters.push(m);
        b.tile_map.map_cells[cell].cter_id = cid;
    }
    let r = b.after_cter_died_trigger(200);
    assert!(r.is_none());
    assert!(b.find_cter_idx(200).is_none());
    assert!(b.find_cter_idx(201).is_none());
    assert!(b.find_cter_idx(202).is_none());
}

#[test]
fn turn_advance_names_a_living_player() {
    let mut b = make_battle();
    b.battle_player[1].status.battle_state = BattlePlayerState::Died;
    // slot 1 holds a dead player and slots 2 and 3 are empty: the walk
    // steps past all three and lands back on the living player
    let r = b.add_next_turn();
    assert!(r.is_ok());
    assert_eq!(b.next_turn_index, 0);
    assert_eq!(b.turn_orders[b.next_turn_index], 11);
    assert_eq!(b.turn, 5);
    assert_eq!(b.total_turn_times, 4);
}

#[test]
fn turn_advance_reports_a_dead_board() {
    let mut b = make_battle();
    b.battle_player[0].status.battle_state = BattlePlayerState::Died;
    b.battle_player[1].status.battle_state = BattlePlayerState::Died;
    let r = b.add_next_turn();
    assert!(r.is_err());
}

#[test]
fn healing_stops_at_the_ceiling() {
    let mut b = make_battle();
    let temps = empty_temps();
    let mut pt = TargetPt::new();
    let r = b.deduct_hp(&temps, 101, 102, DamageType::Skill(10), &mut pt, true);
    let (amount, cascade) = r.expect("the hit lands");
    assert_eq!(amount, 10);
    assert!(cascade.is_none());
    assert_eq!(b.cters[1].base_attr.hp, 90);
    let healed = b.add_hp(None, 102, 50, None).expect("the target lives");
    assert_eq!(b.cters[1].base_attr.hp, 100);
    assert_eq!(healed.effects.len(), 1);
    assert_eq!(healed.effects[0].effect_value, 50);
}

#[test]
fn target_array_checks_the_kind_rule() {
    let b = make_battle();
    let none: [u32; 0] = [];
    // an empty selection is a no-op
    assert!(b.check_target_array(11, TargetType::PlayerSelf, &none).is_ok());
    // the chooser's own cell passes the self rule; the enemy's does not
    assert!(b.check_target_array(11, TargetType::PlayerSelf, &[0]).is_ok());
    assert!(b.check_target_array(11, TargetType::PlayerSelf, &[1]).is_err());
    // an empty cell fails the occupant rule but passes the null rule
    assert!(b.check_target_array(11, TargetType::AnyPlayer, &[5]).is_err());
    assert!(b.check_target_array(11, TargetType::NullMapCell, &[5]).is_ok());
    assert!(b.check_target_array(11, TargetType::NullMapCell, &[0]).is_err());
    // the enemy rule wants the other team on every chosen cell
    assert!(b.check_target_array(11, TargetType::AllEnemyCters, &[1]).is_ok());
    assert!(b.check_target_array(11, TargetType::AllEnemyCters, &[0]).is_err());
}

#[test]
fn pairing_answers_only_matching_flips() {
    let mut b = make_battle();
    // the first flip has no twin yet
    assert!(!b.handler_map_cell_pair(11, 4));
    b.battle_player[0].flow_data.residue_movement_points = 3;
    // the twin tile pairs, and the pairing ends the turn's movement
    assert!(b.handler_map_cell_pair(11, 5));
    assert_eq!(b.tile_map.map_cells[4].pair_index, Some(5));
    assert_eq!(b.tile_map.map_cells[5].pair_index, Some(4));
    assert_eq!(b.battle_player[0].flow_data.residue_movement_points, 0);
    assert_eq!(b.battle_player[0].flow_data.open_map_cell_vec.len(), 0);
}

#[test]
fn pairing_pays_the_configured_gold_once() {
    let mut b = make_battle();
    let temps = empty_temps();
    let mut s = make_skill(80, 0);
    s.function_id = 201;
    b.cters[0].skills.push(s);
    let r = b.open_map_cell_trigger(&temps, 101, true);
    assert!(r.is_ok());
    // the catalog holds no row, so the fallback reward of 2 is paid
    assert_eq!(b.battle_player[0].gold, 2);
    assert!(b.battle_player[0].flow_data.pair_usable_skills.contains(&80));
    // a flip without a pair pays nothing
    let r2 = b.open_map_cell_trigger(&temps, 101, false);
    assert!(r2.is_ok());
    assert_eq!(b.battle_player[0].gold, 2);
}
