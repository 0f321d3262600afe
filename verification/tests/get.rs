use instance_chart::chart::{Chart, DiscoveryMsg, Entry};
use instance_chart::net::{IpAddr, SocketAddr};
use instance_chart::{ChartBuilder, Id};

fn test_kv(n: u8) -> (Id, Entry<[u16; 1]>) {
    let ip = IpAddr::V4(n, 0, 0, 1);
    let port = 8000 + n as u16;
    (n as u64, Entry { ip, msg: [port] })
}

fn entry_3ports(n: u8) -> (Id, Entry<[u16; 3]>) {
    let ip = IpAddr::V4(n, 0, 0, 1);
    let port1 = 8000 + n as u16;
    let port2 = 7000 + n as u16;
    let port3 = 6000 + n as u16;
    (n as u64, Entry { ip, msg: [port1, port2, port3] })
}

fn chart_1port() -> Chart<1, u16> {
    let mut chart = ChartBuilder::new()
        .with_id(0)
        .with_header(0)
        .with_service_port(test_kv(0).1.msg[0])
        .finish();
    for n in 1..10 {
        let (id, entry) = test_kv(n);
        let msg = DiscoveryMsg { header: 0, id, msg: entry.msg };
        assert!(chart.process_msg(msg, SocketAddr::new(entry.ip, 8080)));
    }
    chart
}

fn chart_3ports() -> Chart<3, u16> {
    let mut chart = ChartBuilder::new()
        .with_id(0)
        .with_header(0)
        .with_service_ports(entry_3ports(0).1.msg)
        .finish();
    for n in 1..10 {
        let (id, entry) = entry_3ports(n);
        let msg = DiscoveryMsg { header: 0, id, msg: entry.msg };
        assert!(chart.process_msg(msg, SocketAddr::new(entry.ip, 8080)));
    }
    chart
}

#[test]
fn get_addr_list() {
    let chart = chart_1port();
    let iter = chart.get_addr_list(2).unwrap();
    let entry = test_kv(2).1;
    let correct = [SocketAddr::new(entry.ip, entry.msg[0])];

    assert_eq!(iter, correct)
}

#[test]
fn get_nth_addr() {
    let chart = chart_3ports();
    let addr = chart.get_nth_addr::<2>(2).unwrap();
    let entry = entry_3ports(2).1;
    let correct = SocketAddr::new(entry.ip, entry.msg[2]);
    assert_eq!(addr, correct)
}

#[test]
fn get_addr() {
    let chart = chart_1port();
    assert_eq!(chart.get_addr(9), Some(SocketAddr::new(IpAddr::V4(9, 0, 0, 1), 8009)));
    assert_eq!(chart.get_addr(10), None);
}

#[test]
fn get_of_unknown_node() {
    let chart = chart_3ports();
    assert_eq!(chart.get_addr_list(42), None);
    assert_eq!(chart.get_nth_addr::<0>(42), None);
    let list = chart.get_addr_list(4).unwrap();
    let ip = IpAddr::V4(4, 0, 0, 1);
    assert_eq!(
        list,
        [SocketAddr::new(ip, 8004), SocketAddr::new(ip, 7004), SocketAddr::new(ip, 6004)]
    );
}
