use seeker::address::{recover_destination, Destination, Endpoint, IpAddress};
use std::collections::HashMap;

fn v4(a: u8, b: u8, c: u8, d: u8, port: u16) -> Endpoint {
    Endpoint { ip: IpAddress::V4([a, b, c, d]), port }
}

#[test]
fn known_host_gives_name_and_port() {
    let endpoint = v4(10, 0, 0, 2, 443);
    let destination = recover_destination(endpoint, Some(String::from("example.com")));
    assert_eq!(destination, Destination::DomainName(String::from("example.com"), 443));
}

#[test]
fn unknown_host_gives_the_endpoint_itself() {
    let endpoint = v4(10, 0, 0, 3, 53);
    let destination = recover_destination(endpoint, None);
    assert_eq!(destination, Destination::SocketAddress(endpoint));
    assert_eq!(
        destination,
        Destination::SocketAddress(Endpoint { ip: IpAddress::V4([10, 0, 0, 3]), port: 53 })
    );
}

#[test]
fn name_is_taken_as_it_is() {
    let endpoint = v4(198, 18, 0, 7, 8080);
    let destination = recover_destination(endpoint, Some(String::new()));
    assert_eq!(destination, Destination::DomainName(String::new(), 8080));
    let destination = recover_destination(endpoint, Some(String::from("xn--bcher-kva.example")));
    assert_eq!(destination, Destination::DomainName(String::from("xn--bcher-kva.example"), 8080));
}

#[test]
fn port_comes_from_the_endpoint() {
    let low = recover_destination(v4(10, 0, 0, 2, 0), Some(String::from("a.test")));
    let high = recover_destination(v4(10, 0, 0, 2, 65535), Some(String::from("a.test")));
    assert_eq!(low, Destination::DomainName(String::from("a.test"), 0));
    assert_eq!(high, Destination::DomainName(String::from("a.test"), 65535));
}

#[test]
fn ipv6_endpoint_is_kept_whole() {
    let mut octets = [0u8; 16];
    octets[0] = 0xfd;
    octets[15] = 1;
    let endpoint = Endpoint { ip: IpAddress::V6(octets), port: 5353 };
    assert_eq!(recover_destination(endpoint, None), Destination::SocketAddress(endpoint));
    assert_eq!(
        recover_destination(endpoint, Some(String::from("six.test"))),
        Destination::DomainName(String::from("six.test"), 5353)
    );
}

#[test]
fn recovery_follows_a_resolver_table() {
    let mut table: HashMap<IpAddress, String> = HashMap::new();
    table.insert(IpAddress::V4([10, 0, 0, 2]), String::from("example.com"));
    table.insert(IpAddress::V4([10, 0, 0, 9]), String::from("other.example"));
    let endpoints = vec![
        v4(10, 0, 0, 2, 443),
        v4(10, 0, 0, 2, 80),
        v4(10, 0, 0, 9, 22),
        v4(10, 0, 0, 3, 53),
    ];
    for endpoint in endpoints {
        let answer = table.get(&endpoint.ip).cloned();
        let destination = recover_destination(endpoint, answer);
        match table.get(&endpoint.ip) {
            Some(name) => {
                assert_eq!(destination, Destination::DomainName(name.clone(), endpoint.port))
            }
            None => assert_eq!(destination, Destination::SocketAddress(endpoint)),
        }
    }
}

#[test]
fn destination_clone_is_equal() {
    let named = Destination::DomainName(String::from("example.com"), 443);
    assert_eq!(named.clone(), named);
    let raw = Destination::SocketAddress(v4(10, 0, 0, 3, 53));
    assert_eq!(raw.clone(), raw);
    assert_ne!(named, raw);
}
