use udp_server::client::{
    movement_event, shoot_event, ClientSend, GameClient, Report, SimStep, Simulation,
};
use udp_server::input_messages::game_event::Event;
use udp_server::input_messages::{Direction, GameEvent, Move, PlayerJoined, Shoot};

#[test]
fn new_client_is_named_test_with_uuid_id() {
    let c = GameClient::new();
    assert_eq!(c.rate_limit, 0);
    assert_eq!(c.username, "test");
    assert_eq!(c.id.len(), 36);
    assert_eq!(c.id.chars().nth(14), Some('4'));
    assert!(uuid::Uuid::parse_str(&c.id).is_ok());
    assert_ne!(GameClient::new().id, c.id);
}

#[test]
fn configure_and_join() {
    let mut c = GameClient::new();
    let id = c.id.clone();
    c.configure_programmatically(200, "test3".to_string());
    assert_eq!(c.rate_limit, 200);
    assert_eq!(c.username, "test3");
    assert_eq!(
        c.join_event(),
        GameEvent { event: Some(Event::Joined(PlayerJoined { id, username: "test3".to_string() })) }
    );
}

#[test]
fn shot_and_movement_payloads() {
    assert_eq!(
        shoot_event(),
        GameEvent {
            event: Some(Event::Shoot(Shoot {
                direction: Some(Direction {
                    direction_x: 3.0f64.to_bits(),
                    direction_y: 3.0f64.to_bits(),
                    direction_z: 1.0f64.to_bits()
                })
            }))
        }
    );
    assert_eq!(
        movement_event(),
        GameEvent {
            event: Some(Event::Move(Move {
                distance_x: 2.0f64.to_bits(),
                distance_y: 6.123456789f64.to_bits()
            }))
        }
    );
}

#[test]
fn low_draw_sends_movement() {
    let mut s = Simulation::new();
    let r = s.advance(0, 10);
    assert_eq!(r, SimStep { send: Some(ClientSend::Movement), report: None });
    assert_eq!(s.sent_messages, 1);
    assert_eq!(s.batch_messages, 1);
    assert_eq!(s.second_messages, 1);
}

#[test]
fn only_one_shot_is_ever_sent() {
    let mut s = Simulation::new();
    assert_eq!(s.advance(0, 80).send, Some(ClientSend::Shot));
    assert!(s.created_shot);
    let again = s.advance(0, 100);
    assert_eq!(again, SimStep { send: None, report: None });
    assert_eq!(s.sent_messages, 1);
    assert_eq!(s.advance(0, 79).send, Some(ClientSend::Movement));
    assert_eq!(s.sent_messages, 2);
}

#[test]
fn report_every_sixth_second_once() {
    let mut s = Simulation::new();
    for _ in 0..11 {
        assert_eq!(s.advance(1, 0).report, None);
    }
    let r = s.advance(6, 0);
    assert_eq!(
        r.report,
        Some(Report { per_second: 2, total: 12, batch: 12, elapsed: 6 })
    );
    assert_eq!(s.batch_messages, 0);
    assert_eq!(s.advance(6, 0).report, None);
    assert_eq!(s.advance(7, 0).report, None);
    assert_eq!(s.advance(12, 0).report, Some(Report { per_second: 1, total: 15, batch: 3, elapsed: 12 }));
}

#[test]
fn new_second_resets_second_counter() {
    let mut s = Simulation::new();
    s.advance(0, 0);
    s.advance(0, 0);
    assert_eq!(s.second_messages, 2);
    s.advance(1, 0);
    assert_eq!(s.second_messages, 1);
    assert_eq!(s.last_sec, 1);
}

#[test]
fn next_step_draws_and_sends() {
    let mut s = Simulation::new();
    let r = s.next_step(0);
    assert!(r.send.is_some());
    assert_eq!(s.sent_messages, 1);
    assert!(s.can_count());
}
