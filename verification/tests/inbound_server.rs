use udp_server::inbound_server::{
    clean_datagram, is_ignorable_receive_error, new_receive_buffer, BYTE_MAGIC_NUMBER,
    RECEIVE_BUFFER_LEN,
};

#[test]
fn receive_buffer_is_all_filler() {
    let b = new_receive_buffer();
    assert_eq!(b.len(), 128);
    assert_eq!(RECEIVE_BUFFER_LEN, 128);
    assert!(b.iter().all(|x| *x == 0x2));
    assert_eq!(BYTE_MAGIC_NUMBER, 0x2);
}

#[test]
fn cleaning_strips_trailing_filler() {
    let mut b = new_receive_buffer();
    b[0] = 0x0a;
    b[1] = 0x05;
    b[2] = 0x12;
    assert_eq!(clean_datagram(&b), vec![0x0a, 0x05, 0x12]);
}

#[test]
fn cleaning_strips_filler_inside_the_datagram_too() {
    let b = vec![1, 2, 3, 2, 2, 4];
    assert_eq!(clean_datagram(&b), vec![1, 3, 4]);
    assert_eq!(clean_datagram(&clean_datagram(&b)), vec![1, 3, 4]);
    assert_eq!(clean_datagram(&vec![]), Vec::<u8>::new());
}

#[test]
fn ignorable_receive_errors() {
    assert!(is_ignorable_receive_error(Some(10054), false));
    assert!(is_ignorable_receive_error(None, true));
    assert!(is_ignorable_receive_error(Some(11), true));
    assert!(!is_ignorable_receive_error(Some(11), false));
    assert!(!is_ignorable_receive_error(None, false));
}
