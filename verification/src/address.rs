//! Device addresses and the URLs under which a device answers.

use vstd::prelude::*;
use crate::text::decimal;
use crate::text::push_decimal;

verus! {

/// An IPv4 address in dotted-decimal notation, such as `192.168.1.20`.
pub open spec fn dotted_quad(ip: u32) -> Seq<char> {
    decimal((ip / 0x100_0000) as nat) + seq!['.'] + decimal(((ip / 0x1_0000) % 0x100) as nat)
        + seq!['.'] + decimal(((ip / 0x100) % 0x100) as nat) + seq!['.'] + decimal(
        (ip % 0x100) as nat,
    )
}

/// Writes an IPv4 address in dotted-decimal notation at the end of `out`.
pub fn push_dotted_quad(out: &mut String, ip: u32)
    ensures
        final(out)@ == old(out)@ + dotted_quad(ip),
{
    proof {
        reveal_strlit(".");
    }
    assert("."@ =~= seq!['.']);
    push_decimal(out, (ip / 0x100_0000) as u64);
    out.append(".");
    push_decimal(out, ((ip / 0x1_0000) % 0x100) as u64);
    out.append(".");
    push_decimal(out, ((ip / 0x100) % 0x100) as u64);
    out.append(".");
    push_decimal(out, (ip % 0x100) as u64);
    assert(out@ =~= old(out)@ + dotted_quad(ip));
}

/// The endpoint at which a device was reached: an IPv4 address and a port.
#[derive(Debug, Clone, Copy, PartialEq, Eq, Hash, Structural)]
pub struct DeviceAddress {
    pub ip: u32,
    pub port: u16,
}

impl DeviceAddress {
    /// The address as the host part of a URL: `a.b.c.d:port`.
    pub open spec fn authority(&self) -> Seq<char> {
        dotted_quad(self.ip) + seq![':'] + decimal(self.port as nat)
    }

    /// Writes the address as the host part of a URL at the end of `out`.
    pub fn push_authority(&self, out: &mut String)
        ensures
            final(out)@ == old(out)@ + self.authority(),
    {
        proof {
            reveal_strlit(":");
        }
        assert(":"@ =~= seq![':']);
        push_dotted_quad(out, self.ip);
        out.append(":");
        push_decimal(out, self.port as u64);
        assert(out@ =~= old(out)@ + self.authority());
    }
}

/// The telemetry endpoints of a device.
#[derive(Debug, Clone, Copy, PartialEq, Eq, Hash, Structural)]
pub enum Endpoint {
    /// The channel dump of the battery management system.
    BatteryManagement,
    /// The channel dump of the inverter cache.
    InverterCache,
    /// The power-flow status of the site.
    PowerFlow,
}

impl Endpoint {
    /// The path of the endpoint on a device.
    pub open spec fn spec_path(&self) -> Seq<char> {
        match *self {
            Endpoint::BatteryManagement => "/components/BatteryManagementSystem/readable"@,
            Endpoint::InverterCache => "/components/cache/readable"@,
            Endpoint::PowerFlow => "/status/powerflow"@,
        }
    }

    /// The path of the endpoint on a device.
    pub fn path(&self) -> (path: &'static str)
        ensures
            path@ == self.spec_path(),
    {
        match self {
            Endpoint::BatteryManagement => "/components/BatteryManagementSystem/readable",
            Endpoint::InverterCache => "/components/cache/readable",
            Endpoint::PowerFlow => "/status/powerflow",
        }
    }

    /// The URL of the endpoint on the device at `device`.
    pub open spec fn spec_url(&self, device: DeviceAddress) -> Seq<char> {
        "http://"@ + device.authority() + self.spec_path()
    }

    /// The URL of the endpoint on the device at `device`.
    pub fn url(&self, device: &DeviceAddress) -> (url: String)
        ensures
            url@ == self.spec_url(*device),
    {
        let mut url = String::new();
        url.append("http://");
        device.push_authority(&mut url);
        url.append(self.path());
        assert(url@ =~= self.spec_url(*device));
        url
    }
}

/// The URL at which a candidate address is asked whether it is a device: the
/// battery management endpoint on the default port.
pub open spec fn fingerprint_url(candidate: u32) -> Seq<char> {
    "http://"@ + dotted_quad(candidate) + Endpoint::BatteryManagement.spec_path()
}

} // verus!
