use udp_server::address::SocketAddress;
use udp_server::bullet::{BasicBullet, Bullet, BulletInfo, TickUpdate, Velocity, DEFAULT_SPEED};
use udp_server::entities::{GameState, Player, STARTING_HEALTH};
use udp_server::game_info::{GameInfo, RoutedEvent};
use udp_server::input_messages::game_event::Event;
use udp_server::input_messages::{GameEvent, Move, Shoot};
use udp_server::geometry::Position;
use udp_server::input_messages::{PlayerJoined, PlayerLeft};
use udp_server::output_messages::update_game_event::UpdateEvent;
use udp_server::output_messages::{
    AddedPlayer, ChangedPlayerPosition, CreateBullet, RemovedPlayer, UpdateBulletPosition,
    UpdateGameEvent,
};

fn v4(port: u16) -> SocketAddress {
    SocketAddress::V4 { ip: 0x7f00_0001, port }
}

fn joined(id: &str, name: &str) -> PlayerJoined {
    PlayerJoined { id: id.to_string(), username: name.to_string() }
}

fn left() -> PlayerLeft {
    PlayerLeft { id: String::new() }
}

fn ids(game: &GameInfo) -> Vec<String> {
    game.players().iter().map(|p| p.id.clone()).collect()
}

#[test]
fn new_player_starts_at_origin_with_full_health() {
    let p = Player::new("a".to_string(), "alice".to_string(), v4(1));
    assert_eq!(p.id, "a");
    assert_eq!(p.username, "alice");
    assert_eq!(p.server_info.addr, v4(1));
    assert_eq!(p.health, 100);
    assert_eq!(STARTING_HEALTH, 100);
    assert_eq!(p.position, Position { x: 0, y: 0, z: 0 });
    let _state = GameState {};
}

#[test]
fn empty_game_has_no_players_or_bullets() {
    let game: GameInfo = GameInfo::default();
    assert!(game.players().is_empty());
    assert!(game.bullets().is_empty());
    assert!(game.get_addresses().is_empty());
}

#[test]
fn add_player_announces_newcomer() {
    let mut game: GameInfo = GameInfo::new();
    let r = game.add_player(joined("a", "alice"), v4(1));
    assert_eq!(
        r,
        Some(UpdateEvent::AddedPlayer(AddedPlayer {
            id: "a".to_string(),
            username: "alice".to_string()
        }))
    );
    assert_eq!(ids(&game), vec!["a".to_string()]);
    assert_eq!(game.players()[0].health, 100);
}

#[test]
fn add_player_twice_from_same_address_is_refused() {
    let mut game: GameInfo = GameInfo::new();
    assert!(game.add_player(joined("a", "alice"), v4(1)).is_some());
    assert_eq!(game.add_player(joined("b", "bob"), v4(1)), None);
    assert_eq!(ids(&game), vec!["a".to_string()]);
    assert_eq!(game.players()[0].username, "alice");
}

#[test]
fn addresses_are_listed_in_roster_order() {
    let mut game: GameInfo = GameInfo::new();
    game.add_player(joined("a", "alice"), v4(1));
    game.add_player(joined("b", "bob"), v4(2));
    game.add_player(joined("c", "carol"), SocketAddress::V6 { ip: 1, port: 2, flowinfo: 0, scope_id: 0 });
    assert_eq!(
        game.get_addresses(),
        vec![v4(1), v4(2), SocketAddress::V6 { ip: 1, port: 2, flowinfo: 0, scope_id: 0 }]
    );
}

#[test]
fn remove_player_moves_last_into_place() {
    let mut game: GameInfo = GameInfo::new();
    game.add_player(joined("a", "alice"), v4(1));
    game.add_player(joined("b", "bob"), v4(2));
    game.add_player(joined("c", "carol"), v4(3));
    let r = game.remove_player(left(), v4(1));
    assert_eq!(r, Some(UpdateEvent::RemovedPlayer(RemovedPlayer { id: "a".to_string() })));
    assert_eq!(ids(&game), vec!["c".to_string(), "b".to_string()]);
}

#[test]
fn remove_unknown_player_does_nothing() {
    let mut game: GameInfo = GameInfo::new();
    game.add_player(joined("a", "alice"), v4(1));
    assert_eq!(game.remove_player(left(), v4(9)), None);
    assert_eq!(ids(&game), vec!["a".to_string()]);
}

#[test]
fn join_then_leave_restores_roster() {
    let mut game: GameInfo = GameInfo::new();
    game.add_player(joined("a", "alice"), v4(1));
    game.add_player(joined("b", "bob"), v4(2));
    let before = ids(&game);
    game.add_player(joined("n", "newcomer"), v4(7));
    let r = game.remove_player(left(), v4(7));
    assert_eq!(r, Some(UpdateEvent::RemovedPlayer(RemovedPlayer { id: "n".to_string() })));
    assert_eq!(ids(&game), before);
    assert!(game.find_player_by_address(v4(7)).is_none());
}

#[test]
fn find_and_place_player() {
    let mut game: GameInfo = GameInfo::new();
    game.add_player(joined("a", "alice"), v4(1));
    game.add_player(joined("b", "bob"), v4(2));
    assert_eq!(game.find_player_by_address(v4(2)).map(|p| p.id.clone()), Some("b".to_string()));
    assert_eq!(game.player_position(v4(2)), Some(Position { x: 0, y: 0, z: 0 }));
    let to = Position { x: 2.0f64.to_bits(), y: 6.5f64.to_bits(), z: 0 };
    let r = game.place_player(v4(2), to);
    assert_eq!(
        r,
        Some(UpdateEvent::ChangedPlayerPosition(ChangedPlayerPosition { x: to.x, y: to.y, z: to.z }))
    );
    assert_eq!(game.player_position(v4(2)), Some(to));
    assert_eq!(game.player_position(v4(1)), Some(Position { x: 0, y: 0, z: 0 }));
    assert_eq!(game.place_player(v4(5), to), None);
    assert_eq!(game.player_position(v4(5)), None);
}

fn at(x: f64, y: f64, z: f64) -> Position {
    Position { x: x.to_bits(), y: y.to_bits(), z: z.to_bits() }
}

fn toward() -> Velocity {
    Velocity { velocity_x: 6.0f64.to_bits(), velocity_y: 6.0f64.to_bits(), velocity_z: 2.0f64.to_bits() }
}

fn bullet_ids(game: &GameInfo) -> Vec<u128> {
    game.bullets().iter().map(|b| match b { Bullet::Basic { bullet } => bullet.bullet_info.id }).collect()
}

#[test]
fn shoot_bullet_fires_from_the_player() {
    let mut game = GameInfo::new();
    assert_eq!(game.shoot_bullet(v4(1), toward()), None);
    assert!(game.bullets().is_empty());
    game.add_player(joined("a", "alice"), v4(1));
    game.place_player(v4(1), at(1.0, 2.0, 0.0));
    let r = game.shoot_bullet(v4(1), toward());
    assert_eq!(game.bullets().len(), 1);
    let Bullet::Basic { bullet } = game.bullets()[0];
    assert_eq!(bullet.bullet_info.position, at(1.0, 2.0, 0.0));
    assert_eq!(bullet.bullet_info.velocity, toward());
    assert_eq!(bullet.speed, DEFAULT_SPEED);
    assert_eq!(DEFAULT_SPEED, 2.0f64.to_bits());
    assert_eq!(bullet.damage, 20);
    assert_eq!((bullet.bullet_info.id >> 76) & 0xf, 4);
    assert_eq!(
        r,
        Some(UpdateEvent::CreateBullet(CreateBullet::new(bullet.bullet_info.id, &at(1.0, 2.0, 0.0))))
    );
}

#[test]
fn game_tick_moves_every_bullet_in_order() {
    let mut game = GameInfo::new();
    game.add_player(joined("a", "alice"), v4(1));
    game.shoot_bullet(v4(1), toward());
    game.shoot_bullet(v4(1), toward());
    let ids = bullet_ids(&game);
    let moved = vec![at(6.0, 6.0, 2.0), at(3.0, 3.0, 1.0)];
    let r = game.game_tick(&moved);
    match r {
        Some(UpdateEvent::UpdateAllBullets(all)) => {
            assert_eq!(all.update_bullet_position.len(), 2);
            for k in 0..2 {
                let u = &all.update_bullet_position[k];
                assert_eq!(u, &UpdateBulletPosition::new(ids[k], &moved[k]));
            }
        }
        other => panic!("unexpected {:?}", other),
    }
    assert_eq!(bullet_ids(&game), ids);
    for k in 0..2 {
        let Bullet::Basic { bullet } = game.bullets()[k];
        assert_eq!(bullet.bullet_info.position, moved[k]);
        assert_eq!(bullet.bullet_info.velocity, toward());
    }
    assert_eq!(game.players().len(), 1);
    let mut empty = GameInfo::new();
    match empty.game_tick(&vec![]) {
        Some(UpdateEvent::UpdateAllBullets(all)) => assert!(all.update_bullet_position.is_empty()),
        other => panic!("unexpected {:?}", other),
    }
}

#[test]
fn bullet_moves_and_reports_itself() {
    let mut b = Bullet::Basic { bullet: BasicBullet::new(at(0.0, 0.0, 0.0), toward()) };
    let id = match b { Bullet::Basic { bullet } => bullet.bullet_info.id };
    let u = b.update_position(at(1.0, 1.0, 0.5));
    assert_eq!(u, UpdateBulletPosition::new(id, &at(1.0, 1.0, 0.5)));
    let Bullet::Basic { bullet } = b;
    assert_eq!(bullet.bullet_info.position, at(1.0, 1.0, 0.5));
    assert_eq!(bullet.bullet_info.id, id);
    let mut info = BulletInfo { id: 7, position: at(0.0, 0.0, 0.0), velocity: toward() };
    let u = info.update_position_in(at(2.0, 0.0, 0.0));
    assert_eq!(u.id, "00000000-0000-0000-0000-000000000007");
    assert_eq!(info.position, at(2.0, 0.0, 0.0));
}

#[test]
fn drop_unreachable_removes_each_failed_address_in_turn() {
    let mut game: GameInfo = GameInfo::new();
    game.add_player(joined("a", "alice"), v4(1));
    game.add_player(joined("b", "bob"), v4(2));
    game.add_player(joined("c", "carol"), v4(3));
    game.add_player(joined("d", "dave"), v4(4));
    game.drop_unreachable(&vec![v4(1), v4(9), v4(3)]);
    assert_eq!(ids(&game), vec!["d".to_string(), "b".to_string()]);
    game.drop_unreachable(&vec![]);
    assert_eq!(ids(&game), vec!["d".to_string(), "b".to_string()]);
}

#[test]
fn broadcast_plan_targets_every_player() {
    let mut game: GameInfo = GameInfo::new();
    game.add_player(joined("a", "alice"), v4(1));
    game.add_player(joined("b", "bob"), v4(2));
    assert_eq!(game.broadcast_plan(None), None);
    let e = UpdateEvent::RemovedPlayer(RemovedPlayer { id: "x".to_string() });
    let (msg, addrs) = game.broadcast_plan(Some(e.clone())).unwrap();
    assert_eq!(msg, UpdateGameEvent { update_event: Some(e) });
    assert_eq!(addrs, vec![v4(1), v4(2)]);
}

#[test]
fn route_event_applies_joins_and_leaves_and_hands_back_the_rest() {
    let mut game: GameInfo = GameInfo::new();
    let join = GameEvent { event: Some(Event::Joined(joined("a", "alice"))) };
    match game.route_event(join, v4(1)) {
        RoutedEvent::Applied(Some(UpdateEvent::AddedPlayer(p))) => assert_eq!(p.id, "a"),
        other => panic!("unexpected {:?}", other),
    }
    let mv = Move { distance_x: 1.0f64.to_bits(), distance_y: 0 };
    match game.route_event(GameEvent { event: Some(Event::Move(mv)) }, v4(1)) {
        RoutedEvent::Move(m) => assert_eq!(m, mv),
        other => panic!("unexpected {:?}", other),
    }
    match game.route_event(GameEvent { event: Some(Event::Shoot(Shoot { direction: None })) }, v4(1)) {
        RoutedEvent::Shoot(s) => assert_eq!(s, Shoot { direction: None }),
        other => panic!("unexpected {:?}", other),
    }
    let leave = GameEvent { event: Some(Event::Left(left())) };
    match game.route_event(leave, v4(1)) {
        RoutedEvent::Applied(Some(UpdateEvent::RemovedPlayer(p))) => assert_eq!(p.id, "a"),
        other => panic!("unexpected {:?}", other),
    }
    assert!(game.players().is_empty());
}
