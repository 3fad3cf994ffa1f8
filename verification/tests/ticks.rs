use kartoffels::{
    create, Action, Batch, BotId, BotInfo, BotStatus, BotUpdate, Clock, Config, DeadBot, Dir,
    Effect, Event, Fate, Flow, Incoming, Policy, Pos, Receive, Reply, Request, Tile, TileBase,
    TileMap, Turn, World, SAVE_INTERVAL, SIM_TICKS,
};

fn world_on(map: TileMap, clock: Clock, auto_respawn: bool) -> World {
    create(
        Config {
            name: "arena".to_string(),
            clock,
            policy: Policy { auto_respawn, max_alive_bots: 16, max_queued_bots: 16 },
            map: Some(map),
            seed: Some([1; 32]),
            path: None,
            events: true,
        },
        [0; 32],
        0,
    )
    .unwrap()
}

fn floor(width: u32, height: u32) -> TileMap {
    TileMap::filled(width, height, Tile::new(TileBase::FLOOR))
}

fn upload(world: &mut World, firmware: Vec<u8>) -> BotId {
    world.create_bot(firmware, None, false).unwrap()
}

fn stay(world: &World, id: BotId) -> Result<BotUpdate, String> {
    let turn = world.turn(id).unwrap();
    Ok(BotUpdate { pos: turn.pos, dir: turn.dir, state: vec![], fate: Fate::Survives })
}

/// Runs one tick in which every bot stays where it is; gives the number of
/// turns that were taken and what the end of the tick asks for.
fn idle_tick(world: &mut World, now: u64) -> (Option<Event>, usize, Vec<Action>) {
    let start = world.begin_tick();
    let mut batch = start.batch;
    let mut turns = 0;
    while let Some(turn) = batch.next_turn(world) {
        let outcome = stay(world, turn.id);
        assert_eq!(world.apply_turn(turn.id, outcome), None);
        turns += 1;
    }
    (start.event, turns, world.end_tick(now))
}

fn infos(world: &mut World) -> Vec<BotInfo> {
    match world.process(Incoming::Request(Request::GetBots)).effects.into_iter().next() {
        Some(Effect::Reply(Reply::Bots(infos))) => infos,
        other => panic!("unexpected effect: {:?}", other),
    }
}

#[test]
fn a_tick_has_a_thousand_and_twenty_four_rounds() {
    assert_eq!(SIM_TICKS, 1024);
}

#[test]
fn a_failing_firmware_kills_its_bot() {
    let mut world = world_on(floor(4, 4), Clock::Manual, true);
    let first = upload(&mut world, vec![1]);
    let second = upload(&mut world, vec![2]);
    let third = upload(&mut world, vec![3]);
    world.spawn_at(Pos::new(0, 0), Dir::Up);
    world.spawn_at(Pos::new(1, 0), Dir::Up);
    world.spawn_at(Pos::new(2, 0), Dir::Up);
    let event = world.apply_turn(second, Err("out of bounds".to_string()));
    assert_eq!(event, Some(Event::BotKilled { id: second }));
    assert_eq!(
        world.bots.dead,
        vec![DeadBot {
            id: second,
            reason: "firmware crashed: out of bounds".to_string(),
            killer: None,
            firmware: vec![2],
            ephemeral: false,
        }]
    );
    assert_eq!(world.bots.alive_ids(), vec![first, third]);
    assert_eq!(world.bots.alive[0].pos, Pos::new(0, 0));
    assert_eq!(world.bots.alive[1].pos, Pos::new(2, 0));
    assert!(world.turn(first).is_some());
    assert!(world.turn(third).is_some());
    assert_eq!(world.turn(second), None);
}

#[test]
fn a_failure_without_a_text_still_gives_a_reason() {
    let mut world = world_on(floor(4, 4), Clock::Manual, true);
    let id = upload(&mut world, vec![1]);
    world.spawn_at(Pos::new(0, 0), Dir::Up);
    assert_eq!(world.apply_turn(id, Err(String::new())), Some(Event::BotKilled { id }));
    assert_eq!(world.bots.dead[0].reason, "firmware crashed: ");
    assert!(!world.bots.dead[0].reason.is_empty());
    assert_eq!(world.bots.dead[0].killer, None);
}

#[test]
fn a_failing_firmware_does_not_end_the_tick() {
    let mut world = world_on(floor(4, 4), Clock::Manual, false);
    let mut ids = Vec::new();
    for n in 0..3u8 {
        ids.push(upload(&mut world, vec![n]));
        world.spawn_at(Pos::new(n as i32, 0), Dir::Up);
    }
    let mut batch = Batch::new(ids.clone());
    let mut taken = Vec::new();
    while let Some(turn) = batch.next_turn(&world) {
        taken.push(turn.id);
        let outcome = if turn.id == ids[0] { Err("trap".to_string()) } else { stay(&world, turn.id) };
        world.apply_turn(turn.id, outcome);
        if taken.len() == 5 {
            break;
        }
    }
    assert_eq!(taken, vec![ids[0], ids[1], ids[2], ids[1], ids[2]]);
    assert_eq!(world.bots.alive_ids(), vec![ids[1], ids[2]]);
    assert_eq!(world.bots.dead_ids(), vec![ids[0]]);
}

#[test]
fn a_turn_moves_the_bot() {
    let mut world = world_on(floor(4, 4), Clock::Manual, true);
    let id = upload(&mut world, vec![1]);
    world.spawn_at(Pos::new(0, 0), Dir::Up);
    assert_eq!(
        world.turn(id),
        Some(Turn { id, slot: 0, pos: Pos::new(0, 0), dir: Dir::Up })
    );
    let update = BotUpdate {
        pos: Pos::new(0, 1),
        dir: Dir::Down,
        state: vec![4, 2],
        fate: Fate::Survives,
    };
    assert_eq!(world.apply_turn(id, Ok(update)), None);
    assert_eq!(world.bots.alive[0].pos, Pos::new(0, 1));
    assert_eq!(world.bots.alive[0].dir, Dir::Down);
    assert_eq!(world.bots.alive[0].state, vec![4, 2]);
    assert_eq!(world.bots.alive[0].firmware, vec![1]);
}

#[test]
fn a_bot_that_runs_into_another_dies() {
    let mut world = world_on(floor(4, 4), Clock::Manual, true);
    let first = upload(&mut world, vec![1]);
    let second = upload(&mut world, vec![2]);
    world.spawn_at(Pos::new(0, 0), Dir::Right);
    world.spawn_at(Pos::new(1, 0), Dir::Up);
    let update = BotUpdate {
        pos: Pos::new(1, 0),
        dir: Dir::Right,
        state: vec![9],
        fate: Fate::Kills { victim: second, reason: "stabbed".to_string() },
    };
    assert_eq!(world.apply_turn(first, Ok(update)), Some(Event::BotKilled { id: first }));
    assert_eq!(world.bots.alive_ids(), vec![second]);
    assert_eq!(world.bots.alive[0].pos, Pos::new(1, 0));
    assert_eq!(
        world.bots.dead,
        vec![DeadBot {
            id: first,
            reason: "collided with another bot".to_string(),
            killer: None,
            firmware: vec![1],
            ephemeral: false,
        }]
    );
}

#[test]
fn a_bot_dies_as_its_turn_says() {
    let mut world = world_on(floor(4, 4), Clock::Manual, true);
    let id = upload(&mut world, vec![1]);
    world.spawn_at(Pos::new(0, 0), Dir::Up);
    let update = BotUpdate {
        pos: Pos::new(0, -1),
        dir: Dir::Up,
        state: vec![],
        fate: Fate::Dies { reason: "fell into the void".to_string() },
    };
    assert_eq!(world.apply_turn(id, Ok(update)), Some(Event::BotKilled { id }));
    assert!(world.bots.alive.is_empty());
    assert_eq!(world.bots.dead[0].reason, "fell into the void");
    assert_eq!(world.bots.dead[0].killer, None);
}

#[test]
fn a_bot_kills_as_its_turn_says() {
    let mut world = world_on(floor(4, 4), Clock::Manual, true);
    let first = upload(&mut world, vec![1]);
    let second = upload(&mut world, vec![2]);
    world.spawn_at(Pos::new(0, 0), Dir::Right);
    world.spawn_at(Pos::new(1, 0), Dir::Up);
    let update = BotUpdate {
        pos: Pos::new(0, 0),
        dir: Dir::Right,
        state: vec![],
        fate: Fate::Kills { victim: second, reason: "stabbed".to_string() },
    };
    assert_eq!(world.apply_turn(first, Ok(update)), Some(Event::BotKilled { id: second }));
    assert_eq!(world.bots.alive_ids(), vec![first]);
    assert_eq!(
        world.bots.dead,
        vec![DeadBot {
            id: second,
            reason: "stabbed".to_string(),
            killer: Some(first),
            firmware: vec![2],
            ephemeral: false,
        }]
    );
    let again = BotUpdate {
        pos: Pos::new(0, 0),
        dir: Dir::Left,
        state: vec![],
        fate: Fate::Kills { victim: second, reason: "stabbed".to_string() },
    };
    assert_eq!(world.apply_turn(first, Ok(again)), None);
    assert_eq!(world.bots.alive[0].dir, Dir::Left);
    assert_eq!(world.bots.dead.len(), 1);
}

#[test]
fn the_turn_of_a_bot_that_is_not_alive_changes_nothing() {
    let mut world = world_on(floor(4, 4), Clock::Manual, true);
    let id = upload(&mut world, vec![1]);
    let before = world.bots.duplicate();
    assert_eq!(world.apply_turn(id, Err("x".to_string())), None);
    assert_eq!(world.apply_turn(BotId(1), Err("x".to_string())), None);
    assert_eq!(world.bots, before);
}

#[test]
fn a_batch_gives_each_bot_a_turn_in_each_round() {
    let mut world = world_on(floor(4, 4), Clock::Manual, true);
    let first = upload(&mut world, vec![1]);
    let second = upload(&mut world, vec![2]);
    world.spawn_at(Pos::new(0, 0), Dir::Up);
    world.spawn_at(Pos::new(1, 0), Dir::Up);
    let mut batch = Batch::new(vec![second, first]);
    let mut turns = Vec::new();
    while let Some(turn) = batch.next_turn(&world) {
        turns.push(turn.id);
    }
    assert_eq!(turns.len(), 2 * 1024);
    assert!(turns.chunks(2).all(|round| round == [second, first]));
    assert_eq!(batch.round, 1024);
    assert_eq!(batch.next_turn(&world), None);
}

#[test]
fn a_batch_passes_over_bots_that_are_not_alive() {
    let mut world = world_on(floor(4, 4), Clock::Manual, true);
    let first = upload(&mut world, vec![1]);
    let second = upload(&mut world, vec![2]);
    world.spawn_at(Pos::new(0, 0), Dir::Up);
    let mut batch = Batch::new(vec![second, BotId(0), first]);
    let turn = batch.next_turn(&world).unwrap();
    assert_eq!(turn, Turn { id: first, slot: 0, pos: Pos::new(0, 0), dir: Dir::Up });
    assert_eq!((batch.round, batch.next), (0, 3));
    assert_eq!(batch.next_turn(&world).map(|turn| turn.id), Some(first));
    assert_eq!((batch.round, batch.next), (1, 3));
    world.apply_turn(first, Err("x".to_string()));
    assert_eq!(batch.next_turn(&world), None);
    assert_eq!(batch.round, 1024);
}

#[test]
fn a_finished_batch_gives_no_turn() {
    let world = world_on(floor(4, 4), Clock::Manual, true);
    let mut batch = Batch::finished();
    assert_eq!(batch.next_turn(&world), None);
    let mut empty = Batch::new(vec![]);
    assert_eq!(empty.next_turn(&world), None);
    assert_eq!(empty.round, 1024);
}

#[test]
fn a_bot_lives_dies_and_comes_back() {
    let mut map = TileMap::new(3, 3);
    map.set(Pos::new(1, 1), Tile::new(TileBase::FLOOR));
    let mut world = world_on(map, Clock::Manual, true);
    let id = upload(&mut world, vec![1, 2, 3]);
    assert_eq!(infos(&mut world), vec![BotInfo { id, status: BotStatus::Queued }]);
    assert!(!world.bots.queued[0].requeued);

    let (event, turns, _) = idle_tick(&mut world, 10);
    assert_eq!(event, Some(Event::BotSpawned { id }));
    assert_eq!(turns, 1024);
    assert_eq!(infos(&mut world), vec![BotInfo { id, status: BotStatus::Alive }]);
    assert_eq!(world.bots.alive[0].pos, Pos::new(1, 1));

    let done = world.process(Incoming::Request(Request::RestartBot { id }));
    assert_eq!(done.effects[1], Effect::Emit(Event::BotKilled { id }));
    assert_eq!(infos(&mut world), vec![BotInfo { id, status: BotStatus::Dead }]);

    let (event, turns, _) = idle_tick(&mut world, 20);
    assert_eq!(event, None);
    assert_eq!(turns, 0);
    assert_eq!(infos(&mut world), vec![BotInfo { id, status: BotStatus::Queued }]);
    assert!(world.bots.queued[0].requeued);
    assert_eq!(world.bots.queued[0].firmware, vec![1, 2, 3]);
    assert_eq!(world.bots.queued[0].pos, None);

    let (event, turns, _) = idle_tick(&mut world, 30);
    assert_eq!(event, Some(Event::BotSpawned { id }));
    assert_eq!(turns, 1024);
    assert_eq!(infos(&mut world), vec![BotInfo { id, status: BotStatus::Alive }]);
    assert_eq!(world.bots.alive[0].pos, Pos::new(1, 1));
}

#[test]
fn a_dead_bot_is_dropped_where_bots_do_not_respawn() {
    let mut world = world_on(floor(2, 2), Clock::Manual, false);
    let id = upload(&mut world, vec![1]);
    idle_tick(&mut world, 10);
    world.process(Incoming::Request(Request::RestartBot { id }));
    assert_eq!(infos(&mut world), vec![BotInfo { id, status: BotStatus::Dead }]);
    idle_tick(&mut world, 20);
    assert_eq!(infos(&mut world), vec![]);
}

#[test]
fn a_manual_clock_stands_still_until_a_step() {
    let mut world = world_on(floor(2, 2), Clock::Manual, true);
    let id = upload(&mut world, vec![1]);
    for _ in 0..50 {
        assert_eq!(world.receive_mode(), Receive::Block);
        let done = world.process(Incoming::Request(Request::GetBots));
        assert_eq!(done.flow, Flow::Continue);
        assert_eq!(
            done.effects,
            vec![Effect::Reply(Reply::Bots(vec![BotInfo { id, status: BotStatus::Queued }]))]
        );
    }
    assert_eq!(world.process(Incoming::Request(Request::Step)).flow, Flow::Continue);
    assert_eq!(world.receive_mode(), Receive::Poll);
    assert_eq!(infos(&mut world), vec![BotInfo { id, status: BotStatus::Queued }]);
    assert_eq!(world.process(Incoming::Empty).flow, Flow::Tick);

    let (event, turns, actions) = idle_tick(&mut world, 10);
    assert_eq!(event, Some(Event::BotSpawned { id }));
    assert_eq!(turns, 1024);
    assert_eq!(actions.len(), 2);
    assert!(matches!(actions[0], Action::Publish(_)));
    assert_eq!(actions[1], Action::AckStep);
    assert!(!world.step_pending);

    for _ in 0..50 {
        assert_eq!(world.receive_mode(), Receive::Block);
        assert_eq!(world.process(Incoming::Empty).flow, Flow::Continue);
        assert_eq!(infos(&mut world), vec![BotInfo { id, status: BotStatus::Alive }]);
    }
}

#[test]
fn a_paused_world_takes_no_turns_but_is_still_shown() {
    let mut world = world_on(floor(2, 2), Clock::Auto { interval: 100 }, true);
    let id = upload(&mut world, vec![1]);
    world.process(Incoming::Request(Request::Pause));
    let start = world.begin_tick();
    assert_eq!(start.event, None);
    assert_eq!(start.batch, Batch::finished());
    let mut batch = start.batch;
    assert_eq!(batch.next_turn(&world), None);
    let actions = world.end_tick(40);
    assert_eq!(actions.len(), 2);
    match &actions[0] {
        Action::Publish(snapshot) => {
            assert!(snapshot.paused);
            assert_eq!(snapshot.bots.queued.len(), 1);
            assert_eq!(snapshot.bots.queued[0].id, id);
        }
        other => panic!("unexpected action: {:?}", other),
    }
    assert_eq!(actions[1], Action::Sleep(60));
    assert_eq!(world.bots.queued.len(), 1);
    world.process(Incoming::Request(Request::Resume));
    assert_eq!(world.begin_tick().event, Some(Event::BotSpawned { id }));
}

#[test]
fn begin_tick_orders_the_alive_bots() {
    let mut world = world_on(floor(4, 4), Clock::Auto { interval: 100 }, true);
    let mut ids = Vec::new();
    for n in 0..6u8 {
        ids.push(upload(&mut world, vec![n]));
    }
    for _ in 0..5 {
        world.spawn_bots();
    }
    let start = world.begin_tick();
    assert_eq!(start.event, Some(Event::BotSpawned { id: ids[5] }));
    assert_eq!((start.batch.round, start.batch.next), (0, 0));
    let mut picked = start.batch.ids.clone();
    picked.sort_by_key(|id| id.0);
    ids.sort_by_key(|id| id.0);
    assert_eq!(picked, ids);
}

#[test]
fn end_tick_publishes_saves_answers_and_sleeps_in_this_order() {
    let mut world = create(
        Config {
            name: "saved".to_string(),
            clock: Clock::Auto { interval: 1_000 },
            policy: Policy { auto_respawn: true, max_alive_bots: 4, max_queued_bots: 4 },
            map: Some(floor(2, 2)),
            seed: None,
            path: Some("world.bin".to_string()),
            events: false,
        },
        [5; 32],
        0,
    )
    .unwrap();
    let id = upload(&mut world, vec![7]);
    world.process(Incoming::Request(Request::Step));
    world.begin_tick();
    let actions = world.end_tick(SAVE_INTERVAL);
    assert_eq!(actions.len(), 3);
    assert!(matches!(actions[0], Action::Publish(_)));
    match &actions[1] {
        Action::Save(saved) => {
            assert_eq!(saved.name, "saved");
            assert_eq!(saved.bots, world.bots);
            assert_eq!(saved.bots.alive_ids(), vec![id]);
            assert_eq!(saved.map, world.map);
            assert_eq!(saved.policy, world.policy);
        }
        other => panic!("unexpected action: {:?}", other),
    }
    assert_eq!(actions[2], Action::AckStep);
    assert_eq!(world.saved_at, SAVE_INTERVAL);
    assert_eq!(world.metronome.due, SAVE_INTERVAL - 1_000);
    assert!(!world.step_pending);

    let actions = world.end_tick(SAVE_INTERVAL + 10);
    assert_eq!(actions.len(), 1);
    assert!(matches!(actions[0], Action::Publish(_)));
    assert_eq!(world.saved_at, SAVE_INTERVAL);
    assert_eq!(world.metronome.due, SAVE_INTERVAL);

    let actions = world.end_tick(SAVE_INTERVAL + 20);
    assert_eq!(actions.len(), 2);
    assert!(matches!(actions[0], Action::Publish(_)));
    assert_eq!(actions[1], Action::Sleep(980));
    assert_eq!(world.metronome.due, SAVE_INTERVAL + 1_000);
}

#[test]
fn end_tick_saves_only_when_the_interval_is_over() {
    let mut world = create(
        Config {
            name: "saved".to_string(),
            clock: Clock::Manual,
            policy: Policy { auto_respawn: true, max_alive_bots: 4, max_queued_bots: 4 },
            map: None,
            seed: None,
            path: Some("world.bin".to_string()),
            events: false,
        },
        [5; 32],
        100,
    )
    .unwrap();
    assert_eq!(SAVE_INTERVAL, 60_000_000_000);
    assert_eq!(world.end_tick(100 + SAVE_INTERVAL - 1).len(), 1);
    assert_eq!(world.end_tick(50).len(), 1);
    assert_eq!(world.saved_at, 100);
    let actions = world.end_tick(100 + SAVE_INTERVAL);
    assert_eq!(actions.len(), 2);
    assert!(matches!(actions[1], Action::Save(_)));
    assert_eq!(world.saved_at, 100 + SAVE_INTERVAL);
}

#[test]
fn a_world_without_a_path_is_never_saved() {
    let mut world = world_on(floor(2, 2), Clock::Manual, true);
    let actions = world.end_tick(10 * SAVE_INTERVAL);
    assert_eq!(actions.len(), 1);
    assert!(matches!(actions[0], Action::Publish(_)));
    assert_eq!(world.shutdown(true), vec![Action::AckShutdown]);
}

#[test]
fn shutdown_saves_before_it_answers() {
    let config = Config {
        name: "saved".to_string(),
        clock: Clock::Manual,
        policy: Policy { auto_respawn: true, max_alive_bots: 4, max_queued_bots: 4 },
        map: Some(floor(1, 1)),
        seed: None,
        path: Some("world.bin".to_string()),
        events: false,
    };
    let mut world = create(config, [5; 32], 100).unwrap();
    let id = upload(&mut world, vec![7]);
    let actions = world.shutdown(true);
    assert_eq!(actions.len(), 2);
    match &actions[0] {
        Action::Save(saved) => assert_eq!(saved.bots.queued_ids(), vec![id]),
        other => panic!("unexpected action: {:?}", other),
    }
    assert_eq!(actions[1], Action::AckShutdown);
}

#[test]
fn shutdown_that_nobody_asked_for_is_not_answered() {
    let config = Config {
        name: "saved".to_string(),
        clock: Clock::Manual,
        policy: Policy { auto_respawn: true, max_alive_bots: 4, max_queued_bots: 4 },
        map: None,
        seed: None,
        path: Some("world.bin".to_string()),
        events: false,
    };
    let actions = create(config, [5; 32], 100).unwrap().shutdown(false);
    assert_eq!(actions.len(), 1);
    assert!(matches!(actions[0], Action::Save(_)));
    let world = world_on(floor(1, 1), Clock::Manual, true);
    assert_eq!(world.shutdown(false), vec![]);
}

#[test]
fn an_ephemeral_bot_does_not_come_back() {
    let mut world = world_on(floor(2, 2), Clock::Manual, true);
    let done = world.process(Incoming::Request(Request::CreateBot {
        firmware: vec![1],
        pos: None,
        ephemeral: true,
    }));
    let id = match &done.effects[0] {
        Effect::Reply(Reply::Created(Ok(id))) => *id,
        other => panic!("unexpected effect: {:?}", other),
    };
    assert!(world.bots.queued[0].ephemeral);
    let other = upload(&mut world, vec![2]);
    idle_tick(&mut world, 10);
    idle_tick(&mut world, 20);
    assert_eq!(world.bots.alive_ids(), vec![id, other]);
    world.process(Incoming::Request(Request::RestartBot { id }));
    world.process(Incoming::Request(Request::RestartBot { id: other }));
    assert_eq!(
        infos(&mut world),
        vec![
            BotInfo { id, status: BotStatus::Dead },
            BotInfo { id: other, status: BotStatus::Dead },
        ]
    );
    idle_tick(&mut world, 30);
    assert_eq!(infos(&mut world), vec![BotInfo { id: other, status: BotStatus::Queued }]);
    idle_tick(&mut world, 40);
    assert_eq!(infos(&mut world), vec![BotInfo { id: other, status: BotStatus::Alive }]);
}
