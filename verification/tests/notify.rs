use instance_chart::chart::notify::BUFFERED;
use instance_chart::net::{IpAddr, SocketAddr};
use instance_chart::Notify;

const IP: IpAddr = IpAddr::V4(10, 0, 0, 7);

#[test]
fn recv() {
    let n = Notify { id: 7, ip: IP, msg: [1u16, 2, 3] };
    assert_eq!(n.recv(), (7, IP, [1, 2, 3]));
}

#[test]
fn recv_one() {
    let n = Notify { id: 7, ip: IP, msg: ["hi"] };
    assert_eq!(n.recv_one(), (7, IP, "hi"));
}

#[test]
fn recv_nth() {
    let n = Notify { id: 7, ip: IP, msg: ['a', 'b', 'c'] };
    assert_eq!(n.recv_nth::<0>(), (7, IP, 'a'));
    assert_eq!(n.recv_nth::<2>(), (7, IP, 'c'));
}

#[test]
fn recv_addr() {
    let n = Notify { id: 7, ip: IP, msg: [8042u16] };
    assert_eq!(n.recv_addr(), (7, SocketAddr::new(IP, 8042)));
}

#[test]
fn recv_addresses() {
    let n = Notify { id: 7, ip: IP, msg: [8042u16, 9042] };
    assert_eq!(
        n.recv_addresses(),
        (7, [SocketAddr::new(IP, 8042), SocketAddr::new(IP, 9042)])
    );
}

#[test]
fn recv_nth_addr() {
    let n = Notify { id: 7, ip: IP, msg: [8042u16, 9042] };
    assert_eq!(n.recv_nth_addr::<1>(), (7, SocketAddr::new(IP, 9042)));
    assert_eq!(n.recv_nth_addr::<0>(), (7, SocketAddr::new(IP, 8042)));
}

#[test]
fn buffer_size() {
    assert_eq!(BUFFERED, 256);
}
