//! The DNS provider's data shapes and the client-side logic that interprets
//! its response envelopes. The HTTP exchanges themselves happen outside the
//! library; every function here works on an already decoded envelope.

use vstd::prelude::*;
use vstd::string::*;
use crate::text::{apex_of, apex_domain, opt_view};

verus! {

/// One provider-reported error: a numeric code and a human-readable message.
#[derive(Debug)]
pub struct CloudflareError {
    pub code: i32,
    pub message: String,
}

/// The uniform envelope the provider wraps around every response: a success
/// flag, an ordered error list, and an ordered result list (an absent list
/// decodes as empty).
#[derive(Debug)]
pub struct CloudflareResponse<T> {
    pub success: bool,
    pub errors: Vec<CloudflareError>,
    pub result: Vec<T>,
}

/// A provider-managed zone: its opaque id and its registrable name.
#[derive(Debug)]
pub struct Zone {
    pub id: String,
    pub name: String,
}

/// The type of a DNS record: IPv4 address (A), IPv6 address (AAAA), or
/// anything else, which this system ignores.
#[derive(Clone, Copy, Debug, PartialEq, Eq, Structural)]
pub enum RecordType {
    A,
    AAAA,
    Other,
}

/// A DNS resource record as the provider reports it.
#[derive(Debug)]
pub struct DnsRecord {
    pub id: String,
    pub record_type: RecordType,
    pub name: String,
    pub content: String,
}

/// The write-side payload of a record update. `proxied` is always false:
/// this system never enables provider edge-proxying.
#[derive(Debug)]
pub struct DnsUpdate {
    pub record_type: RecordType,
    pub name: String,
    pub content: String,
    pub proxied: bool,
}

/// Why a run cannot proceed. All three kinds are fatal to the run.
#[derive(Debug)]
pub enum DnsError {
    /// Network or connection failure on an outbound request.
    Transport(String),
    /// A response body did not decode into the expected envelope shape.
    Protocol(String),
    /// The zone lookup returned no results.
    NotFound,
}

/// Outcome of a record update, as the provider reported it. A provider
/// rejection is an outcome, not a fault: the run continues past it.
#[derive(Debug)]
pub enum UpdateOutcome {
    /// The provider confirmed the update; carries the address written.
    Updated { record_type: RecordType, address: String },
    /// The provider rejected the update; carries its error list verbatim.
    Failed { record_type: RecordType, errors: Vec<CloudflareError> },
}

/// The record-id pair obtained by scanning `rs` in order with last-write-wins
/// per address family: the first component is the id of the last A record,
/// the second the id of the last AAAA record; records of other types are
/// ignored, and a family with no record yields `None`.
pub open spec fn record_ids(rs: Seq<DnsRecord>) -> (Option<Seq<char>>, Option<Seq<char>>)
    decreases rs.len(),
{
    if rs.len() == 0 {
        (Option::None, Option::None)
    } else {
        let prev = record_ids(rs.drop_last());
        match rs.last().record_type {
            RecordType::A => (Option::Some(rs.last().id@), prev.1),
            RecordType::AAAA => (prev.0, Option::Some(rs.last().id@)),
            RecordType::Other => prev,
        }
    }
}

/// Scanning a fixed record sequence is deterministic: any two id pairs read
/// from the same sequence are the same. Together with the contract of
/// `CloudflareClient::get_dns_records`, which pins its result to
/// `record_ids` of the envelope's result list, repeated calls on one
/// envelope always yield the same pair.
pub proof fn lemma_record_scan_idempotent(
    rs: Seq<DnsRecord>,
    first: (Option<Seq<char>>, Option<Seq<char>>),
    second: (Option<Seq<char>>, Option<Seq<char>>),
)
    requires
        first == record_ids(rs),
        second == record_ids(rs),
    ensures
        first == second,
{
}

/// The provider client: the two credentials that every request carries as
/// identity headers. The client keeps no other state.
pub struct CloudflareClient {
    pub auth_email: String,
    pub auth_key: String,
}

impl CloudflareClient {
    /// Stores the two credentials unchanged.
    pub fn new(auth_email: String, auth_key: String) -> (c: Self)
        ensures
            c.auth_email == auth_email,
            c.auth_key == auth_key,
    {
        CloudflareClient { auth_email, auth_key }
    }

    /// The name the zone-list query filters by: exactly the last two
    /// dot-separated labels of `domain`, joined by a dot.
    pub fn zone_query_name(&self, domain: &str) -> (r: String)
        ensures
            r@ == apex_of(domain@),
    {
        apex_domain(domain)
    }

    /// Picks the zone id out of a decoded zone-list envelope: the id of the
    /// first zone in the result list, or `DnsError::NotFound` exactly when
    /// the result list is empty.
    pub fn get_zone_id(&self, response: &CloudflareResponse<Zone>) -> (r: Result<String, DnsError>)
        ensures
            r is Ok <==> response.result@.len() > 0,
            response.result@.len() == 0 ==> r == Result::<String, DnsError>::Err(
                DnsError::NotFound,
            ),
            response.result@.len() > 0 ==> (r matches Ok(id) && id@ == response.result@[0].id@),
    {
        if response.result.len() == 0 {
            Err(DnsError::NotFound)
        } else {
            Ok(response.result[0].id.clone())
        }
    }

    /// Scans a decoded record-list envelope in provider order and keeps, for
    /// each address family, the id of the last matching record (last write
    /// wins). Zero matches is a valid state, not an error: either or both
    /// components may be absent.
    pub fn get_dns_records(&self, response: &CloudflareResponse<DnsRecord>) -> (r: (
        Option<String>,
        Option<String>,
    ))
        ensures
            (opt_view(r.0), opt_view(r.1)) == record_ids(response.result@),
    {
        let mut ipv4_id: Option<String> = None;
        let mut ipv6_id: Option<String> = None;
        let n = response.result.len();
        let mut i: usize = 0;
        proof {
            assert(response.result@.take(0) =~= Seq::<DnsRecord>::empty());
        }
        while i < n
            invariant
                n == response.result@.len(),
                i <= n,
                (opt_view(ipv4_id), opt_view(ipv6_id)) == record_ids(
                    response.result@.take(i as int),
                ),
            decreases n - i,
        {
            let rec = &response.result[i];
            match rec.record_type {
                RecordType::A => {
                    ipv4_id = Some(rec.id.clone());
                },
                RecordType::AAAA => {
                    ipv6_id = Some(rec.id.clone());
                },
                RecordType::Other => {},
            }
            proof {
                let t = response.result@.take(i as int + 1);
                assert(t.drop_last() =~= response.result@.take(i as int));
                assert(t.last() == response.result@[i as int]);
            }
            i += 1;
        }
        proof {
            assert(response.result@.take(n as int) =~= response.result@);
        }
        (ipv4_id, ipv6_id)
    }

    /// Builds the update payload sent for one record: the given type, name
    /// and address, with edge-proxying disabled.
    pub fn update_payload(&self, domain: &str, ip: &str, record_type: RecordType) -> (u: DnsUpdate)
        ensures
            u.record_type == record_type,
            u.name@ == domain@,
            u.content@ == ip@,
            !u.proxied,
    {
        DnsUpdate {
            record_type,
            name: String::from_str(domain),
            content: String::from_str(ip),
            proxied: false,
        }
    }

    /// Interprets the envelope of a record-update response: success carries
    /// the address that was written, failure carries the provider's error
    /// list verbatim.
    pub fn update_outcome(
        &self,
        record_type: RecordType,
        ip: &str,
        response: CloudflareResponse<DnsRecord>,
    ) -> (o: UpdateOutcome)
        ensures
            response.success ==> (o matches UpdateOutcome::Updated {
                record_type: t,
                address: a,
            } && t == record_type && a@ == ip@),
            !response.success ==> (o matches UpdateOutcome::Failed {
                record_type: t,
                errors: e,
            } && t == record_type && e == response.errors),
    {
        if response.success {
            UpdateOutcome::Updated { record_type, address: String::from_str(ip) }
        } else {
            UpdateOutcome::Failed { record_type, errors: response.errors }
        }
    }
}

} // verus!
