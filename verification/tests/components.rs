use supervisor::packet::{Packet, PACKET_SIZE};
use supervisor::queue::WaitQueue;
use supervisor::random::RandomScheme;

#[test]
fn default_packet_is_all_zero() {
    let packet = Packet::default();
    let mut buf = vec![0xFFu8; PACKET_SIZE];
    assert_eq!(packet.copy_to(&mut buf), PACKET_SIZE);
    assert_eq!(buf, vec![0u8; PACKET_SIZE]);
}

#[test]
fn packet_copies_bytes_exactly() {
    let mut bytes = vec![0u8; PACKET_SIZE];
    for (i, b) in bytes.iter_mut().enumerate() {
        *b = (i * 3) as u8;
    }
    let packet = Packet::from_bytes(&bytes);
    let mut out = vec![0u8; PACKET_SIZE];
    packet.copy_to(&mut out);
    assert_eq!(out, bytes);
}

#[test]
fn queue_is_first_in_first_out() {
    let mut queue = WaitQueue::new();
    assert_eq!(queue.len(), 0);
    queue.send(Packet::from_bytes(&vec![1u8; PACKET_SIZE]));
    queue.send(Packet::from_bytes(&vec![2u8; PACKET_SIZE]));
    assert_eq!(queue.len(), 2);

    let mut buf = vec![0u8; PACKET_SIZE];
    queue.receive().copy_to(&mut buf);
    assert_eq!(buf, vec![1u8; PACKET_SIZE]);
    queue.receive().copy_to(&mut buf);
    assert_eq!(buf, vec![2u8; PACKET_SIZE]);
    assert_eq!(queue.len(), 0);
}

#[test]
fn queue_clear_discards_everything() {
    let mut queue = WaitQueue::new();
    queue.send(Packet::zeroed());
    queue.send(Packet::zeroed());
    queue.clear();
    assert_eq!(queue.len(), 0);
}

#[test]
fn random_scheme_is_named_random() {
    assert_eq!(RandomScheme.scheme(), "random");
}

#[test]
fn random_resource_renders_decimal_digits() {
    let scheme = RandomScheme;
    assert_eq!(scheme.open(0), b"0".to_vec());
    assert_eq!(scheme.open(7), b"7".to_vec());
    assert_eq!(scheme.open(10), b"10".to_vec());
    assert_eq!(scheme.open(12345), b"12345".to_vec());
    assert_eq!(scheme.open(u64::MAX), b"18446744073709551615".to_vec());
}
