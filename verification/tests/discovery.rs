use instance_chart::chart::tasks::Datagram;
use instance_chart::chart::Chart;
use instance_chart::discovery::{accept_err_with, found_everyone, found_majority};
use instance_chart::net::{IpAddr, SocketAddr};
use instance_chart::{ChartBuilder, Id, Notify};
use std::collections::{HashSet, VecDeque};

/// A network in one process: every node has an address of its own, and a
/// datagram to the multicast group reaches every node, its sender too.
struct Net<const N: usize> {
    nodes: Vec<Chart<N, u16>>,
    heard: Vec<Vec<Notify<N, u16>>>,
    sizes: Vec<Vec<usize>>,
    in_flight: VecDeque<(usize, Datagram)>,
    now: u64,
}

fn ip_of(node: usize) -> IpAddr {
    IpAddr::V4(10, 0, 0, node as u8 + 1)
}

impl<const N: usize> Net<N> {
    fn new(nodes: Vec<Chart<N, u16>>) -> Self {
        let n = nodes.len();
        Net {
            nodes,
            heard: (0..n).map(|_| Vec::new()).collect(),
            sizes: (0..n).map(|_| vec![1]).collect(),
            in_flight: VecDeque::new(),
            now: 0,
        }
    }

    fn receivers(&self, dest: SocketAddr) -> Vec<usize> {
        (0..self.nodes.len())
            .filter(|&i| self.nodes[i].discovery_port() == dest.port())
            .filter(|&i| dest.ip() == IpAddr::V4(224, 0, 0, 251) || dest.ip() == ip_of(i))
            .collect()
    }

    fn deliver_all(&mut self) {
        while let Some((from, datagram)) = self.in_flight.pop_front() {
            let src = SocketAddr::new(ip_of(from), self.nodes[from].discovery_port());
            for to in self.receivers(datagram.dest) {
                let incoming = self.nodes[to].handle_incoming(&datagram.payload, src, self.now);
                self.sizes[to].push(self.nodes[to].size());
                if let Some(n) = incoming.discovered {
                    self.heard[to].push(n);
                }
                if let Some(reply) = incoming.reply {
                    self.in_flight.push_back((to, reply));
                }
            }
        }
    }

    /// Every node broadcasts once; all that follows is delivered.
    fn round(&mut self) {
        for i in 0..self.nodes.len() {
            let (datagram, _sleep) = self.nodes[i].broadcast_periodically(self.now);
            self.in_flight.push_back((i, datagram));
        }
        self.deliver_all();
    }
}

fn single_port_cluster(ids: &[Id], discovery_port: u16) -> Net<1> {
    let nodes = ids
        .iter()
        .map(|&id| {
            ChartBuilder::new()
                .with_id(id)
                .with_service_port(8042 + id as u16)
                .with_discovery_port(discovery_port)
                .local_discovery(true)
                .finish()
        })
        .collect();
    Net::new(nodes)
}

#[test]
fn two_peers_single_service_port() {
    let mut net = single_port_cluster(&[1, 2], 4000);
    net.round();
    assert_eq!(net.nodes[0].size(), 2);
    assert_eq!(net.nodes[1].size(), 2);
    assert_eq!(net.nodes[0].addr_vec(), vec![(2, SocketAddr::new(ip_of(1), 8044))]);
    assert_eq!(net.nodes[1].addr_vec(), vec![(1, SocketAddr::new(ip_of(0), 8043))]);
}

fn n_instances(cluster_size: u16) {
    let ids: Vec<Id> = (0..cluster_size).map(Id::from).collect();
    let mut net = single_port_cluster(&ids, 8080);
    net.round();
    for chart in &net.nodes {
        assert!(found_everyone(chart, cluster_size));
        assert_eq!(chart.size(), cluster_size as usize);
    }
}

#[test]
fn n_instances_2() {
    n_instances(2)
}

#[test]
fn n_instances_5() {
    n_instances(5)
}

#[test]
fn n_instances_10() {
    n_instances(10)
}

#[test]
fn n_instances_50() {
    n_instances(50)
}

#[test]
fn local_discovery() {
    let cluster_size: u16 = 5;
    let nodes = (0..cluster_size)
        .map(|_| {
            ChartBuilder::new()
                .with_random_id()
                .unwrap()
                .with_service_port(4242)
                .local_discovery(true)
                .finish()
        })
        .collect();
    let mut net: Net<1> = Net::new(nodes);
    net.round();
    for chart in &net.nodes {
        assert!(found_everyone(chart, cluster_size));
    }
}

#[test]
fn local_multiple_ports() {
    let cluster_size: u16 = 5;
    let nodes = (0..cluster_size)
        .map(|id| {
            ChartBuilder::new()
                .with_id(id.into())
                .with_service_ports([1000 + id, 2000 + id])
                .finish()
        })
        .collect();
    let mut net: Net<2> = Net::new(nodes);
    net.round();
    for chart in &net.nodes {
        assert!(found_everyone(chart, cluster_size));
        assert_eq!(chart.addr_lists_vec().len(), 4);
        assert_eq!(chart.nth_addr_vec::<1>().len(), 4);
    }
    let lists: HashSet<_> = net.nodes[0].addr_lists_vec().into_iter().collect();
    let correct: HashSet<_> = (1..5u16)
        .map(|id| {
            let ip = ip_of(id as usize);
            (Id::from(id), [SocketAddr::new(ip, 1000 + id), SocketAddr::new(ip, 2000 + id)])
        })
        .collect();
    assert_eq!(lists, correct);
}

#[test]
fn multiple_service_ports() {
    let nodes = vec![
        ChartBuilder::new().with_id(1).with_service_ports([7000, 7001]).finish(),
        ChartBuilder::new().with_id(2).with_service_ports([7000, 7001]).finish(),
    ];
    let mut net: Net<2> = Net::new(nodes);
    net.round();
    let remote = ip_of(1);
    assert_eq!(
        net.nodes[0].addr_lists_vec(),
        vec![(2, [SocketAddr::new(remote, 7000), SocketAddr::new(remote, 7001)])]
    );
    assert_eq!(net.nodes[0].nth_addr_vec::<1>(), vec![(2, SocketAddr::new(remote, 7001))]);
}

#[test]
fn test_notify() {
    let cluster_size: u16 = 5;
    let ids: Vec<Id> = (0..cluster_size).map(Id::from).collect();
    let mut net = single_port_cluster(&ids, 8080);
    let mut discovered: HashSet<_> = net.nodes[0].addr_vec().into_iter().collect();
    assert!(discovered.is_empty());
    net.round();
    for new in &net.heard[0] {
        let (id, ip, msg) = new.recv();
        let addr = SocketAddr::new(ip, msg[0]);
        discovered.insert((id, addr));
    }
    assert_eq!(discovered.len() + 1, cluster_size as usize);
    for chart in &net.nodes[1..] {
        assert!(found_everyone(chart, cluster_size));
    }
}

#[test]
fn test_notify2() {
    let full_size = 4u16;
    let mut nodes: Vec<Chart<1, u16>> = (1..=full_size)
        .map(|id| {
            ChartBuilder::new()
                .with_id(id.into())
                .with_service_port(8042 + id)
                .with_discovery_port(8080)
                .local_discovery(true)
                .finish()
        })
        .collect();
    // one more instance that took the id of another
    nodes.push(
        ChartBuilder::new()
            .with_id(1)
            .with_service_port(8042)
            .with_discovery_port(8080)
            .local_discovery(true)
            .finish(),
    );
    let mut net = Net::new(nodes);
    net.round();
    let chart = &net.nodes[4];
    assert!(chart.size() >= full_size as usize);
    let heard: HashSet<Id> = net.heard[4].iter().map(|n| n.id).collect();
    assert_eq!(heard, HashSet::from([2, 3, 4]));
}

#[test]
fn five_peers_notification_ordering() {
    let mut net = single_port_cluster(&[1, 2, 3, 4, 5], 4001);
    net.round();
    net.now = 10_000;
    net.round();
    let ids: Vec<Id> = net.heard[0].iter().map(|n| n.id).collect();
    let distinct: HashSet<Id> = ids.iter().copied().collect();
    assert_eq!(ids.len(), 4);
    assert_eq!(distinct, HashSet::from([2, 3, 4, 5]));
    assert!(net.sizes[0].windows(2).all(|w| w[0] <= w[1]));
    assert_eq!(*net.sizes[0].last().unwrap(), 5);
}

#[test]
fn forget_and_rediscover() {
    let mut net = single_port_cluster(&[1, 2], 4002);
    net.round();
    assert_eq!(net.heard[0].len(), 1);
    net.nodes[0].forget(2);
    assert_eq!(net.nodes[0].size(), 1);
    net.now = 10_000;
    net.round();
    assert_eq!(net.nodes[0].size(), 2);
    assert_eq!(net.heard[0].len(), 2);
    assert_eq!(net.heard[0][1].recv_addr(), (2, SocketAddr::new(ip_of(1), 8044)));
    net.now = 18_335;
    net.round();
    assert_eq!(net.heard[0].len(), 2);
}

#[test]
fn header_isolation() {
    let build = |id: Id, header: u64| {
        ChartBuilder::new()
            .with_id(id)
            .with_header(header)
            .with_service_port(1)
            .with_discovery_port(4003)
            .local_discovery(true)
            .finish()
    };
    let nodes = vec![build(1, 111), build(2, 111), build(3, 111), build(4, 222), build(5, 222)];
    let mut net: Net<1> = Net::new(nodes);
    net.round();
    net.now = 10_000;
    net.round();
    let sizes: Vec<usize> = net.nodes.iter().map(|c| c.size()).collect();
    assert_eq!(sizes, vec![3, 3, 3, 2, 2]);
    let ids: HashSet<Id> = net.nodes[3].to_vec().into_iter().map(|(id, _)| id).collect();
    assert_eq!(ids, HashSet::from([5]));
}

#[test]
fn other_discovery_port_is_not_heard() {
    let a = ChartBuilder::new().with_id(1).with_service_port(1).with_discovery_port(4004).finish();
    let b = ChartBuilder::new().with_id(2).with_service_port(1).with_discovery_port(4005).finish();
    let mut net: Net<1> = Net::new(vec![a, b]);
    net.round();
    assert_eq!(net.nodes[0].size(), 1);
    assert_eq!(net.nodes[1].size(), 1);
}

#[test]
fn found_everyone_counts_self() {
    let mut net = single_port_cluster(&[1, 2, 3], 4006);
    assert!(found_everyone(&net.nodes[0], 0));
    assert!(found_everyone(&net.nodes[0], 1));
    assert!(!found_everyone(&net.nodes[0], 2));
    net.round();
    assert!(found_everyone(&net.nodes[0], 3));
    assert!(!found_everyone(&net.nodes[0], 4));
    assert!(!found_everyone(&net.nodes[0], u16::MAX));
}

#[test]
fn found_majority_rounds_up() {
    let mut net = single_port_cluster(&[1, 2, 3], 4007);
    // alone: a majority of 1, of 2, and of nothing
    assert!(found_majority(&net.nodes[0], 0));
    assert!(found_majority(&net.nodes[0], 1));
    assert!(found_majority(&net.nodes[0], 2));
    assert!(!found_majority(&net.nodes[0], 3));
    net.round();
    // three of them: a majority of up to 6
    assert!(found_majority(&net.nodes[0], 5));
    assert!(found_majority(&net.nodes[0], 6));
    assert!(!found_majority(&net.nodes[0], 7));
    assert!(!found_majority(&net.nodes[0], u16::MAX));
}

#[test]
fn accept_err_with_accepts_what_the_test_accepts() {
    let ok: Result<u8, &str> = Ok(3);
    assert_eq!(accept_err_with(ok, |_| false), Ok(Some(3)));
    assert_eq!(accept_err_with(ok, |_| true), Ok(Some(3)));
    let cancelled: Result<u8, &str> = Err("cancelled");
    assert_eq!(accept_err_with(cancelled, |e| *e == "cancelled"), Ok(None));
    let panicked: Result<u8, &str> = Err("panicked");
    assert_eq!(accept_err_with(panicked, |e| *e == "cancelled"), Err("panicked"));
}
