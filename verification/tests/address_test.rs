use fronius_metrics::address::push_dotted_quad;
use fronius_metrics::address::DeviceAddress;
use fronius_metrics::address::Endpoint;

fn ip(a: u8, b: u8, c: u8, d: u8) -> u32 {
    u32::from_be_bytes([a, b, c, d])
}

fn dotted(address: u32) -> String {
    let mut out = String::new();
    push_dotted_quad(&mut out, address);
    out
}

#[test]
fn dotted_quad_of_some_addresses() {
    assert_eq!(dotted(ip(192, 168, 1, 20)), "192.168.1.20");
    assert_eq!(dotted(0), "0.0.0.0");
    assert_eq!(dotted(u32::MAX), "255.255.255.255");
    assert_eq!(dotted(ip(10, 0, 0, 1)), "10.0.0.1");
    assert_eq!(dotted(ip(1, 2, 3, 4)), "1.2.3.4");
    assert_eq!(dotted(ip(100, 200, 9, 90)), "100.200.9.90");
}

#[test]
fn authority_joins_address_and_port() {
    let device = DeviceAddress { ip: ip(192, 168, 1, 20), port: 80 };
    let mut out = String::new();
    device.push_authority(&mut out);
    assert_eq!(out, "192.168.1.20:80");
    let other = DeviceAddress { ip: ip(10, 0, 0, 7), port: 65535 };
    let mut out = String::from("http://");
    other.push_authority(&mut out);
    assert_eq!(out, "http://10.0.0.7:65535");
}

#[test]
fn endpoint_paths() {
    assert_eq!(
        Endpoint::BatteryManagement.path(),
        "/components/BatteryManagementSystem/readable"
    );
    assert_eq!(Endpoint::InverterCache.path(), "/components/cache/readable");
    assert_eq!(Endpoint::PowerFlow.path(), "/status/powerflow");
}

#[test]
fn endpoint_urls_of_a_device() {
    let device = DeviceAddress { ip: ip(192, 168, 1, 20), port: 80 };
    assert_eq!(
        Endpoint::BatteryManagement.url(&device),
        "http://192.168.1.20:80/components/BatteryManagementSystem/readable"
    );
    assert_eq!(
        Endpoint::InverterCache.url(&device),
        "http://192.168.1.20:80/components/cache/readable"
    );
    assert_eq!(Endpoint::PowerFlow.url(&device), "http://192.168.1.20:80/status/powerflow");
}
