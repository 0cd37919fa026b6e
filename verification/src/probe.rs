//! The fingerprint check that tells a device from any other host.

use vstd::prelude::*;
use crate::address::fingerprint_url;
use crate::address::push_dotted_quad;
use crate::address::DeviceAddress;
use crate::address::Endpoint;
use crate::text::same_text;

verus! {

/// The seconds after which a probe that has not answered counts as failed.
pub const PROBE_TIMEOUT_SECS: u64 = 5;

/// The only status with which a device answers the fingerprint request.
pub const DEVICE_STATUS: u16 = 200;

/// The `content-type` header with which a device answers the fingerprint
/// request.
pub open spec fn device_content_type() -> Seq<char> {
    "text/javascript"@
}

/// One fingerprint request: a single GET of `url`, given up after
/// `timeout_secs` seconds.
#[derive(Debug, Clone, PartialEq, Eq)]
pub struct ProbeRequest {
    pub candidate: u32,
    pub url: String,
    pub timeout_secs: u64,
}

/// The fingerprint request for a candidate address.
pub fn probe_request(candidate: u32) -> (request: ProbeRequest)
    ensures
        request.candidate == candidate,
        request.url@ == fingerprint_url(candidate),
        request.timeout_secs == PROBE_TIMEOUT_SECS,
{
    let mut url = String::new();
    url.append("http://");
    push_dotted_quad(&mut url, candidate);
    url.append(Endpoint::BatteryManagement.path());
    assert(url@ =~= fingerprint_url(candidate));
    ProbeRequest { candidate, url, timeout_secs: PROBE_TIMEOUT_SECS }
}

/// What came back from one fingerprint request.
#[derive(Debug, Clone, PartialEq, Eq)]
pub enum ProbeResponse {
    /// No answer within the timeout: the connection failed or timed out.
    Unanswered,
    /// An answer arrived.
    Answered {
        /// The HTTP status.
        status: u16,
        /// The first `content-type` header, if the answer has one.
        content_type: Option<String>,
        /// The endpoint that was actually reached, where it is known.
        remote: Option<DeviceAddress>,
    },
}

/// Why a candidate address does not count as a device.
#[derive(Debug, Clone, Copy, PartialEq, Eq, Structural)]
pub enum ProbeRejection {
    /// The connection failed or the answer did not arrive in time.
    NoResponse,
    /// The status is not 200.
    BadStatus,
    /// The `content-type` header is missing or differs from the expected one.
    BadContentType,
    /// The answer matches, but the endpoint that gave it is not known.
    UnknownPeer,
}

/// What the fingerprint check makes of a response: the device's address where
/// the response arrived, has status 200 and carries exactly the expected
/// `content-type`; the first reason that speaks against it otherwise.
pub open spec fn probe_verdict(response: ProbeResponse) -> Result<DeviceAddress, ProbeRejection> {
    match response {
        ProbeResponse::Unanswered => Err(ProbeRejection::NoResponse),
        ProbeResponse::Answered { status, content_type, remote } => {
            if status != DEVICE_STATUS {
                Err(ProbeRejection::BadStatus)
            } else if !(content_type matches Some(value) && value@ == device_content_type()) {
                Err(ProbeRejection::BadContentType)
            } else {
                match remote {
                    Some(address) => Ok(address),
                    None => Err(ProbeRejection::UnknownPeer),
                }
            }
        },
    }
}

/// Decides whether a response to the fingerprint request comes from a device.
pub fn judge_probe(response: &ProbeResponse) -> (verdict: Result<DeviceAddress, ProbeRejection>)
    ensures
        verdict == probe_verdict(*response),
{
    match response {
        ProbeResponse::Unanswered => Err(ProbeRejection::NoResponse),
        ProbeResponse::Answered { status, content_type, remote } => {
            if *status != DEVICE_STATUS {
                return Err(ProbeRejection::BadStatus);
            }
            let matches = match content_type {
                Some(value) => same_text(value.as_str(), "text/javascript"),
                None => false,
            };
            if !matches {
                return Err(ProbeRejection::BadContentType);
            }
            match remote {
                Some(address) => Ok(*address),
                None => Err(ProbeRejection::UnknownPeer),
            }
        },
    }
}

/// A candidate counts as a device only if all three hold: the response
/// arrived, its status is 200, and its `content-type` is exactly the expected
/// one. The address that is handed on is the one that was reached.
pub proof fn lemma_probe_accepts_exactly(response: ProbeResponse)
    ensures
        probe_verdict(response) is Ok <==> (response matches ProbeResponse::Answered {
            status,
            content_type,
            remote,
        } && status == DEVICE_STATUS && content_type is Some && content_type.unwrap()@
            == device_content_type() && remote is Some),
        probe_verdict(response) matches Ok(device) ==> response matches ProbeResponse::Answered {
            remote,
            ..
        } && remote == Some(device),
{
}

} // verus!
