use udp_server::ids::{id_text, random_id, random_id_text};
use udp_server::ieee754::{bits_are_nan, doubles_equal};
use udp_server::output_messages::{CreateBullet, UpdateBulletPosition};
use udp_server::geometry::Position;
use udp_server::utility::{current_time, micros_since_epoch};

#[test]
fn id_text_is_hyphenated_lower_hex() {
    assert_eq!(
        id_text(0x67e5_5044_10b1_426f_9247_bb68_0e5f_e0c8),
        "67e55044-10b1-426f-9247-bb680e5fe0c8"
    );
    assert_eq!(id_text(0), "00000000-0000-0000-0000-000000000000");
}

#[test]
fn random_ids_are_version_four() {
    let u = random_id();
    assert_eq!((u >> 76) & 0xf, 4);
    assert_eq!((u >> 62) & 0x3, 2);
    let t = random_id_text();
    assert_eq!(t.len(), 36);
    assert_eq!(&t[14..15], "4");
}

#[test]
fn bullet_messages_carry_id_and_position() {
    let p = Position { x: 1.5f64.to_bits(), y: 2.5f64.to_bits(), z: 0 };
    let c = CreateBullet::new(0xa1a2a3a4_b1b2_c1c2_d1d2_d3d4d5d6d7d8, &p);
    assert_eq!(c.id, "a1a2a3a4-b1b2-c1c2-d1d2-d3d4d5d6d7d8");
    assert_eq!((c.x, c.y, c.z), (p.x, p.y, p.z));
    let u = UpdateBulletPosition::new(1, &p);
    assert_eq!(u.id, "00000000-0000-0000-0000-000000000001");
    assert_eq!((u.x, u.y, u.z), (p.x, p.y, p.z));
}

#[test]
fn doubles_compare_as_f64() {
    let one = 1.0f64.to_bits();
    assert!(doubles_equal(one, one));
    assert!(!doubles_equal(one, 2.0f64.to_bits()));
    assert!(doubles_equal(0.0f64.to_bits(), (-0.0f64).to_bits()));
    assert!(!doubles_equal(f64::NAN.to_bits(), f64::NAN.to_bits()));
    assert!(bits_are_nan(f64::NAN.to_bits()));
    assert!(!bits_are_nan(f64::INFINITY.to_bits()));
    assert!(doubles_equal(f64::INFINITY.to_bits(), f64::INFINITY.to_bits()));
}

#[test]
fn clock_reads_after_epoch() {
    let t = current_time().unwrap();
    assert!(t > 1_600_000_000_000_000);
}

#[test]
fn micros_count_whole_microseconds() {
    assert_eq!(micros_since_epoch(2, 3_500), 2_000_003);
    assert_eq!(micros_since_epoch(0, 999_999_999), 999_999);
    assert_eq!(micros_since_epoch(u64::MAX, 0), u64::MAX as u128 * 1_000_000);
}
