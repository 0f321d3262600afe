use instance_chart::chart::{Chart, DiscoveryMsg, Entry};
use instance_chart::net::{IpAddr, SocketAddr};
use instance_chart::{ChartBuilder, Id};
use std::collections::HashSet;

fn test_kv(n: u8) -> (Id, Entry<[u16; 1]>) {
    let ip = IpAddr::V4(n, 0, 0, 1);
    let port = 8000 + n as u16;
    (n as u64, Entry { ip, msg: [port] })
}

fn entry_3ports(n: u8) -> (Id, Entry<[u16; 3]>) {
    let ip = IpAddr::V4(n, 0, 0, 1);
    let port1 = 8000 + n as u16;
    let port2 = 7000 + n as u16;
    let port3 = 6000 + n as u16;
    (n as u64, Entry { ip, msg: [port1, port2, port3] })
}

fn chart_1port() -> Chart<1, u16> {
    let mut chart = ChartBuilder::new()
        .with_id(0)
        .with_header(0)
        .with_service_port(test_kv(0).1.msg[0])
        .finish();
    for n in 1..10 {
        let (id, entry) = test_kv(n);
        let msg = DiscoveryMsg { header: 0, id, msg: entry.msg };
        assert!(chart.process_msg(msg, SocketAddr::new(entry.ip, 8080)));
    }
    chart
}

fn chart_3ports() -> Chart<3, u16> {
    let mut chart = ChartBuilder::new()
        .with_id(0)
        .with_header(0)
        .with_service_ports(entry_3ports(0).1.msg)
        .finish();
    for n in 1..10 {
        let (id, entry) = entry_3ports(n);
        let msg = DiscoveryMsg { header: 0, id, msg: entry.msg };
        assert!(chart.process_msg(msg, SocketAddr::new(entry.ip, 8080)));
    }
    chart
}

#[test]
fn iter_iter_ports() {
    let chart = chart_1port();
    let mut walk = chart.iter_addr();
    let mut iter = HashSet::new();
    while let Some(addr) = walk.next() {
        iter.insert(addr);
    }
    let correct: HashSet<_> = (1..10)
        .map(test_kv)
        .map(|(_, e)| e)
        .map(|e| SocketAddr::new(e.ip, e.msg[0]))
        .collect();

    assert_eq!(iter, correct)
}

#[test]
fn iter_iter_addr_lists() {
    let chart = chart_3ports();
    let mut walk = chart.iter_addr_lists();
    let mut iter = HashSet::new();
    while let Some(list) = walk.next() {
        iter.insert(list);
    }
    let correct: HashSet<_> = (1..10)
        .map(entry_3ports)
        .map(|(_, e)| e)
        .map(|e| e.msg.map(|p| SocketAddr::new(e.ip, p)))
        .collect();
    assert_eq!(iter, correct)
}

#[test]
fn iter_iter_nth_port() {
    let chart = chart_3ports();
    let mut walk = chart.iter_nth_addr::<1>();
    let mut iter = HashSet::new();
    while let Some(addr) = walk.next() {
        iter.insert(addr);
    }
    let correct: HashSet<_> = (1..10)
        .map(entry_3ports)
        .map(|(_, e)| e)
        .map(|e| SocketAddr::new(e.ip, e.msg[1]))
        .collect();
    assert_eq!(iter, correct)
}

#[test]
fn iter_fmt_iter_addr_lists() {
    let chart = chart_3ports();
    let mut iter = chart.iter_addr_lists();
    let item = format!("{:?}", iter.next());
    let debug = format!("{iter:?}");
    assert!(!debug.contains(&item));
}

#[test]
fn visited_items_are_gone() {
    let chart = chart_1port();
    let mut iter = chart.iter_addr();
    let first = iter.next().unwrap();
    let debug = format!("{iter:?}");
    assert!(!debug.contains(&format!("{:?}", first)));
    let mut left = 0;
    while iter.next().is_some() {
        left += 1;
    }
    assert_eq!(left, 8);
    assert_eq!(iter.next(), None);
    assert_eq!(iter.next(), None);
}
