use fronius_metrics::network::ip_range;
use fronius_metrics::network::ConfigurationError;
use fronius_metrics::network::NetworkRange;

fn ip(a: u8, b: u8, c: u8, d: u8) -> u32 {
    u32::from_be_bytes([a, b, c, d])
}

#[test]
fn test_ip_range_function() {
    let start = ip(192, 168, 1, 1);
    let end = ip(192, 168, 1, 2);

    let ips: Vec<u32> = ip_range(start, end).collect();

    assert_eq!(ips.len(), 2);
    assert_eq!(ips[0], ip(192, 168, 1, 1));
    assert_eq!(ips[1], ip(192, 168, 1, 2));
}

#[test]
fn test_get_servers_cidr_parsing() {
    let cidr = "192.168.1.0/30";
    let network = NetworkRange::parse(cidr).expect("Invalid CIDR format");

    assert_eq!(network.network(), ip(192, 168, 1, 0));
    assert_eq!(network.broadcast(), ip(192, 168, 1, 3));
}

#[test]
fn ip_range_is_empty_when_start_is_above_end() {
    let mut range = ip_range(10, 9);
    assert_eq!(range.remaining(), 0);
    assert_eq!(range.next(), None);
    assert_eq!(ip_range(10, 9).collect(), Vec::<u32>::new());
}

#[test]
fn ip_range_of_one_address() {
    assert_eq!(ip_range(7, 7).collect(), vec![7]);
}

#[test]
fn ip_range_reaches_the_highest_address() {
    let mut range = ip_range(u32::MAX - 1, u32::MAX);
    assert_eq!(range.remaining(), 2);
    assert_eq!(range.next(), Some(u32::MAX - 1));
    assert_eq!(range.next(), Some(u32::MAX));
    assert_eq!(range.next(), None);
    assert_eq!(range.next(), None);
}

#[test]
fn ip_range_over_the_whole_address_space_counts_every_address() {
    assert_eq!(ip_range(0, u32::MAX).remaining(), 1u64 << 32);
}

#[test]
fn cursor_starts_again_from_a_fresh_range() {
    let range = NetworkRange::parse("10.0.0.0/29").unwrap();
    let first: Vec<u32> = range.hosts().collect();
    let mut cursor = range.hosts();
    assert_eq!(cursor.next(), Some(ip(10, 0, 0, 1)));
    let second: Vec<u32> = range.hosts().collect();
    assert_eq!(first, second);
    assert_eq!(first.len(), 6);
}

#[test]
fn slash_30_yields_its_two_hosts() {
    let range = NetworkRange::parse("192.168.1.0/30").unwrap();
    assert_eq!(range.hosts().collect(), vec![ip(192, 168, 1, 1), ip(192, 168, 1, 2)]);
    assert_eq!(range.host_count(), 2);
}

#[test]
fn hosts_do_not_depend_on_the_host_bits_of_the_address() {
    let range = NetworkRange::parse("192.168.1.2/30").unwrap();
    assert_eq!(range.addr(), ip(192, 168, 1, 2));
    assert_eq!(range.network(), ip(192, 168, 1, 0));
    assert_eq!(range.hosts().collect(), vec![ip(192, 168, 1, 1), ip(192, 168, 1, 2)]);
}

#[test]
fn slash_24_yields_254_hosts_in_ascending_order() {
    let range = NetworkRange::parse("192.168.1.0/24").unwrap();
    let hosts = range.hosts().collect();
    assert_eq!(hosts.len(), 254);
    assert_eq!(range.host_count(), 254);
    assert_eq!(hosts[0], ip(192, 168, 1, 1));
    assert_eq!(hosts[253], ip(192, 168, 1, 254));
    for pair in hosts.windows(2) {
        assert!(pair[0] < pair[1]);
    }
    assert!(!hosts.contains(&range.network()));
    assert!(!hosts.contains(&range.broadcast()));
}

#[test]
fn host_count_follows_the_prefix_length() {
    for prefix in 0u8..=30 {
        let range = NetworkRange::new(ip(10, 20, 30, 40), prefix).unwrap();
        let expected = (1u64 << (32 - prefix as u32)) - 2;
        assert_eq!(range.host_count() as u64, expected);
        assert_eq!(range.hosts().remaining(), expected);
    }
}

#[test]
fn slash_31_and_slash_32_have_no_hosts() {
    let pair = NetworkRange::parse("10.0.0.4/31").unwrap();
    assert_eq!(pair.host_count(), 0);
    assert_eq!(pair.hosts().collect(), Vec::<u32>::new());
    let single = NetworkRange::parse("10.0.0.4/32").unwrap();
    assert_eq!(single.host_count(), 0);
    assert_eq!(single.hosts().collect(), Vec::<u32>::new());
    let lowest = NetworkRange::new(0, 32).unwrap();
    assert_eq!(lowest.hosts().collect(), Vec::<u32>::new());
    let highest = NetworkRange::new(u32::MAX, 32).unwrap();
    assert_eq!(highest.hosts().collect(), Vec::<u32>::new());
}

#[test]
fn slash_0_spans_the_whole_address_space() {
    let range = NetworkRange::parse("1.2.3.4/0").unwrap();
    assert_eq!(range.network(), 0);
    assert_eq!(range.broadcast(), u32::MAX);
    assert_eq!(range.host_count(), u32::MAX - 1);
    assert_eq!(range.host_at(0), Some(1));
    assert_eq!(range.host_at(u32::MAX - 2), Some(u32::MAX - 1));
    assert_eq!(range.host_at(u32::MAX - 1), None);
}

#[test]
fn host_at_counts_from_the_lowest_host() {
    let range = NetworkRange::parse("172.16.5.0/29").unwrap();
    assert_eq!(range.host_at(0), Some(ip(172, 16, 5, 1)));
    assert_eq!(range.host_at(5), Some(ip(172, 16, 5, 6)));
    assert_eq!(range.host_at(6), None);
    let hosts = range.hosts().collect();
    for (index, host) in hosts.iter().enumerate() {
        assert_eq!(range.host_at(index as u32), Some(*host));
    }
}

#[test]
fn network_and_broadcast_of_a_slash_16() {
    let range = NetworkRange::parse("10.1.9.32/16").unwrap();
    assert_eq!(range.prefix(), 16);
    assert_eq!(range.network(), ip(10, 1, 0, 0));
    assert_eq!(range.broadcast(), ip(10, 1, 255, 255));
}

#[test]
fn range_without_prefix_is_a_single_address() {
    let range = NetworkRange::parse("10.1.2.3").unwrap();
    assert_eq!(range.prefix(), 32);
    assert_eq!(range.addr(), ip(10, 1, 2, 3));
    assert_eq!(range.network(), ip(10, 1, 2, 3));
    assert_eq!(range.broadcast(), ip(10, 1, 2, 3));
}

#[test]
fn range_with_netmask_is_read_as_its_prefix() {
    let range = NetworkRange::parse("10.0.0.0/255.255.255.0").unwrap();
    assert_eq!(range.prefix(), 24);
    assert_eq!(range.host_count(), 254);
}

#[test]
fn malformed_ranges_are_refused() {
    for text in [
        "invalid",
        "",
        "192.168.1.0/33",
        "192.168.1.0/24/1",
        "192.168.1/24",
        "192.168.1.256/24",
        "192.168.1.0/",
        "192.168.1.0/255.0.255.0",
        "::1/64",
    ] {
        assert_eq!(NetworkRange::parse(text), Err(ConfigurationError::MalformedCidr), "{}", text);
    }
}

#[test]
fn new_refuses_a_prefix_above_32() {
    assert_eq!(NetworkRange::new(0, 33), Err(ConfigurationError::PrefixTooLong));
    assert_eq!(NetworkRange::new(0, 255), Err(ConfigurationError::PrefixTooLong));
    assert!(NetworkRange::new(0, 32).is_ok());
}

#[test]
fn new_and_parse_agree() {
    let parsed = NetworkRange::parse("192.168.7.9/20").unwrap();
    let made = NetworkRange::new(ip(192, 168, 7, 9), 20).unwrap();
    assert_eq!(parsed, made);
}

#[test]
fn configuration_errors_have_messages() {
    assert_eq!(ConfigurationError::MalformedCidr.message(), "Invalid CIDR format");
    assert_eq!(ConfigurationError::PrefixTooLong.message(), "Invalid prefix length");
}

#[test]
fn test_binary_help() {
    let refused = NetworkRange::parse("invalid");
    assert!(refused.is_err());
    assert!(refused.unwrap_err().message().contains("Invalid CIDR format"));
}

#[test]
fn network_and_broadcast_follow_the_netmask_for_every_prefix() {
    for address in [0u32, 1, ip(10, 1, 9, 32), ip(192, 168, 1, 77), ip(172, 31, 255, 254), u32::MAX] {
        for prefix in 0u8..=32 {
            let mask: u32 = if prefix == 0 { 0 } else { u32::MAX << (32 - prefix as u32) };
            let range = NetworkRange::new(address, prefix).unwrap();
            assert_eq!(range.network(), address & mask, "{}/{}", address, prefix);
            assert_eq!(range.broadcast(), address | !mask, "{}/{}", address, prefix);
            assert_eq!(range.addr(), address);
            assert_eq!(range.prefix(), prefix);
        }
    }
}

#[test]
fn hosts_lie_strictly_between_network_and_broadcast() {
    for text in ["10.0.0.0/28", "192.168.200.17/27", "255.255.255.255/29", "0.0.0.0/30"] {
        let range = NetworkRange::parse(text).unwrap();
        let hosts = range.hosts().collect();
        assert_eq!(hosts.len() as u32, range.broadcast() - range.network() - 1, "{}", text);
        for host in &hosts {
            assert!(range.network() < *host && *host < range.broadcast(), "{}", text);
        }
        assert_eq!(hosts.first().copied(), Some(range.network() + 1));
        assert_eq!(hosts.last().copied(), Some(range.broadcast() - 1));
    }
}
