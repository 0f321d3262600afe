use instance_chart::chart::{Chart, DiscoveryMsg, Entry};
use instance_chart::net::{IpAddr, SocketAddr};
use instance_chart::{ChartBuilder, Id};
use std::collections::HashSet;

fn test_kv(n: u8) -> (Id, Entry<[u16; 1]>) {
    let ip = IpAddr::V4(n, 0, 0, 1);
    let port = 8000 + n as u16;
    (n as u64, Entry { ip, msg: [port] })
}

fn entry_3ports(n: u8) -> (Id, Entry<[u16; 3]>) {
    let ip = IpAddr::V4(n, 0, 0, 1);
    let port1 = 8000 + n as u16;
    let port2 = 7000 + n as u16;
    let port3 = 6000 + n as u16;
    (n as u64, Entry { ip, msg: [port1, port2, port3] })
}

fn chart_1port() -> Chart<1, u16> {
    let mut chart = ChartBuilder::new()
        .with_id(0)
        .with_header(0)
        .with_service_port(test_kv(0).1.msg[0])
        .finish();
    for n in 1..10 {
        let (id, entry) = test_kv(n);
        let msg = DiscoveryMsg { header: 0, id, msg: entry.msg };
        assert!(chart.process_msg(msg, SocketAddr::new(entry.ip, 8080)));
    }
    chart
}

fn chart_3ports() -> Chart<3, u16> {
    let mut chart = ChartBuilder::new()
        .with_id(0)
        .with_header(0)
        .with_service_ports(entry_3ports(0).1.msg)
        .finish();
    for n in 1..10 {
        let (id, entry) = entry_3ports(n);
        let msg = DiscoveryMsg { header: 0, id, msg: entry.msg };
        assert!(chart.process_msg(msg, SocketAddr::new(entry.ip, 8080)));
    }
    chart
}

#[test]
fn to_vec_iter_ports() {
    let chart = chart_1port();
    let iter: HashSet<_> = chart.addr_vec().into_iter().collect();
    let correct: HashSet<_> = (1..10)
        .map(test_kv)
        .map(|(id, e)| (id, SocketAddr::new(e.ip, e.msg[0])))
        .collect();

    assert_eq!(iter, correct)
}

#[test]
fn to_vec_iter_addr_lists() {
    let chart = chart_3ports();
    let iter: HashSet<_> = chart.addr_lists_vec().into_iter().collect();
    let correct: HashSet<_> = (1..10)
        .map(entry_3ports)
        .map(|(id, e)| {
            let addr = e.msg.map(|p| SocketAddr::new(e.ip, p));
            (id, addr)
        })
        .collect();
    assert_eq!(iter, correct)
}

#[test]
fn to_vec_iter_nth_port() {
    let chart = chart_3ports();
    let iter: HashSet<_> = chart.nth_addr_vec::<1>().into_iter().collect();
    let correct: HashSet<_> = (1..10)
        .map(entry_3ports)
        .map(|(id, e)| (id, SocketAddr::new(e.ip, e.msg[1])))
        .collect();
    assert_eq!(iter, correct)
}

#[test]
fn snapshot_lists_each_node_once() {
    let mut chart = chart_1port();
    assert_eq!(chart.addr_vec().len(), 9);
    assert_eq!(chart.to_vec().len(), 9);
    chart.forget(3);
    let ids: HashSet<_> = chart.to_vec().into_iter().map(|(id, _)| id).collect();
    assert_eq!(ids, HashSet::from([1, 2, 4, 5, 6, 7, 8, 9]));
    assert_eq!(chart.size(), 9);
}

#[test]
fn snapshot_of_an_empty_chart() {
    let chart = ChartBuilder::new().with_id(0).with_service_ports([1, 2]).finish();
    assert!(chart.to_vec().is_empty());
    assert!(chart.addr_lists_vec().is_empty());
    assert!(chart.nth_addr_vec::<1>().is_empty());
    assert_eq!(chart.size(), 1);
}
