//! The three calls to the DNS provider: what is asked, and what an answer
//! means.
//!
//! A call is described by a `Request`; the program around the library sends
//! it and hands back a `Reply`. All three calls carry the API token as a
//! bearer credential.

use crate::error::Lookup;
use crate::error::SyncError;
use crate::error::SyncErrorView;
use crate::json::encode_update_body;
use crate::json::update_body;
use vstd::prelude::*;
use vstd::string::*;

verus! {

/// The HTTP method of a request.
#[derive(Clone, Copy, Debug, PartialEq, Eq, Structural)]
pub enum Method {
    Get,
    Put,
}

/// One authenticated call to the provider's REST API.
pub struct Request {
    pub method: Method,
    pub url: String,
    /// The API token, sent as a bearer credential.
    pub token: String,
    /// The JSON body, where the call has one.
    pub body: Option<String>,
}

/// A `Request` with its texts as sequences of characters.
pub struct RequestView {
    pub method: Method,
    pub url: Seq<char>,
    pub token: Seq<char>,
    pub body: Option<Seq<char>>,
}

impl View for Request {
    type V = RequestView;

    open spec fn view(&self) -> RequestView {
        RequestView {
            method: self.method,
            url: self.url@,
            token: self.token@,
            body: match self.body {
                Some(b) => Some(b@),
                None => None,
            },
        }
    }
}

/// Where the zones of a domain are listed.
pub open spec fn zones_url(domain: Seq<char>) -> Seq<char> {
    "https://api.cloudflare.com/client/v4/zones?name="@ + domain
}

/// Where the "A" records of a zone with a given name are listed.
pub open spec fn records_url(zone_id: Seq<char>, dns_name: Seq<char>) -> Seq<char> {
    "https://api.cloudflare.com/client/v4/zones/"@ + zone_id + "/dns_records?type=A&name="@
        + dns_name
}

/// Where one record of a zone is written.
pub open spec fn record_url(zone_id: Seq<char>, record_id: Seq<char>) -> Seq<char> {
    "https://api.cloudflare.com/client/v4/zones/"@ + zone_id + "/dns_records/"@ + record_id
}

/// The call that lists the zones of `domain`.
pub open spec fn zone_lookup(token: Seq<char>, domain: Seq<char>) -> RequestView {
    RequestView { method: Method::Get, url: zones_url(domain), token, body: None }
}

/// The call that lists the "A" records named `dns_name` in a zone.
pub open spec fn record_lookup(token: Seq<char>, zone_id: Seq<char>, dns_name: Seq<char>) -> RequestView {
    RequestView { method: Method::Get, url: records_url(zone_id, dns_name), token, body: None }
}

/// The call that replaces the content of a record by `content`, or `None`
/// where no body can be written for it.
pub open spec fn record_update(
    token: Seq<char>,
    zone_id: Seq<char>,
    record_id: Seq<char>,
    dns_name: Seq<char>,
    content: Seq<char>,
) -> Option<RequestView> {
    match update_body(dns_name, content) {
        Some(body) => Some(
            RequestView {
                method: Method::Put,
                url: record_url(zone_id, record_id),
                token,
                body: Some(body),
            },
        ),
        None => None,
    }
}

impl Request {
    /// Asks for the zones of `domain`.
    pub fn zone_lookup(token: &str, domain: &str) -> (request: Request)
        ensures
            request@ == zone_lookup(token@, domain@),
    {
        let mut url = String::from_str("https://api.cloudflare.com/client/v4/zones?name=");
        url.append(domain);
        Request { method: Method::Get, url, token: String::from_str(token), body: None }
    }

    /// Asks for the records of type "A" in the zone `zone_id` whose name is
    /// exactly `dns_name`.
    pub fn record_lookup(token: &str, zone_id: &str, dns_name: &str) -> (request: Request)
        ensures
            request@ == record_lookup(token@, zone_id@, dns_name@),
    {
        let mut url = String::from_str("https://api.cloudflare.com/client/v4/zones/");
        url.append(zone_id);
        url.append("/dns_records?type=A&name=");
        url.append(dns_name);
        Request { method: Method::Get, url, token: String::from_str(token), body: None }
    }

    /// Replaces the content of the record `record_id` in the zone `zone_id`
    /// by `content`: type "A", TTL automatic, not proxied. There is a
    /// request exactly where a body can be written for it.
    pub fn record_update(
        token: &str,
        zone_id: &str,
        record_id: &str,
        dns_name: &str,
        content: &str,
    ) -> (request: Option<Request>)
        ensures
            match request {
                Some(r) => record_update(token@, zone_id@, record_id@, dns_name@, content@) == Some(r@),
                None => record_update(token@, zone_id@, record_id@, dns_name@, content@) is None,
            },
    {
        match encode_update_body(dns_name, content) {
            Some(body) => {
                let mut url = String::from_str("https://api.cloudflare.com/client/v4/zones/");
                url.append(zone_id);
                url.append("/dns_records/");
                url.append(record_id);
                Some(
                    Request {
                        method: Method::Put,
                        url,
                        token: String::from_str(token),
                        body: Some(body),
                    },
                )
            },
            None => None,
        }
    }

    /// The value of the `Authorization` header that the call carries.
    pub fn authorization(&self) -> (value: String)
        ensures
            value@ == "Bearer "@ + self.token@,
    {
        let mut value = String::from_str("Bearer ");
        value.append(self.token.as_str());
        value
    }
}

/// What came back for a request: nothing, something that could not be
/// read, or a body of the expected shape.
pub enum Reply<T> {
    /// The request did not get through, or no answer came.
    Unreachable(String),
    /// An answer came whose body is not JSON of the expected shape.
    Malformed(String),
    /// The decoded body.
    Body(T),
}

/// One item of a listing: a zone or a DNS record, known by its identifier.
pub struct Entry {
    pub id: String,
}

/// The body of a listing: the provider's verdict, and the items that
/// matched, in the order the provider gave them.
pub struct Listing {
    pub success: bool,
    pub result: Vec<Entry>,
}

/// The body of the answer to an update.
pub struct Ack {
    pub success: bool,
}

/// What a listing gives for a lookup by `name`: the first identifier it
/// lists, or the reason why there is none.
pub open spec fn listed_id(reply: Reply<Listing>, what: Lookup, name: Seq<char>) -> Result<
    Seq<char>,
    SyncErrorView,
> {
    match reply {
        Reply::Unreachable(detail) => Err(SyncErrorView::TransportError { detail: detail@ }),
        Reply::Malformed(detail) => Err(SyncErrorView::ProtocolError { detail: detail@ }),
        Reply::Body(listing) => if listing.success && listing.result@.len() > 0 {
            Ok(listing.result@[0].id@)
        } else {
            Err(SyncErrorView::NotFound { what, name })
        },
    }
}

/// Whether the provider accepted an update, where its answer says so.
pub open spec fn acknowledged(reply: Reply<Ack>) -> Result<bool, SyncErrorView> {
    match reply {
        Reply::Unreachable(detail) => Err(SyncErrorView::TransportError { detail: detail@ }),
        Reply::Malformed(detail) => Err(SyncErrorView::ProtocolError { detail: detail@ }),
        Reply::Body(ack) => Ok(ack.success),
    }
}

/// Reads an identifier off a listing: the first one, whatever else is
/// listed. A listing that reports failure, or lists nothing, is `NotFound`
/// under the name that was looked up.
pub fn first_listed_id(reply: Reply<Listing>, what: Lookup, name: &str) -> (id: Result<
    String,
    SyncError,
>)
    ensures
        match id {
            Ok(i) => listed_id(reply, what, name@) == Ok::<Seq<char>, SyncErrorView>(i@),
            Err(e) => listed_id(reply, what, name@) == Err::<Seq<char>, SyncErrorView>(e@),
        },
{
    match reply {
        Reply::Unreachable(detail) => Err(SyncError::TransportError { detail }),
        Reply::Malformed(detail) => Err(SyncError::ProtocolError { detail }),
        Reply::Body(listing) => {
            let mut result = listing.result;
            if listing.success && result.len() > 0 {
                Ok(result.swap_remove(0).id)
            } else {
                Err(SyncError::NotFound { what, name: String::from_str(name) })
            }
        },
    }
}

/// The identifier of the zone of `domain`, from the answer to its lookup.
pub fn zone_id_from(reply: Reply<Listing>, domain: &str) -> (id: Result<String, SyncError>)
    ensures
        match id {
            Ok(i) => listed_id(reply, Lookup::Zone, domain@) == Ok::<Seq<char>, SyncErrorView>(i@),
            Err(e) => listed_id(reply, Lookup::Zone, domain@) == Err::<Seq<char>, SyncErrorView>(e@),
        },
{
    first_listed_id(reply, Lookup::Zone, domain)
}

/// The identifier of the record named `dns_name`, from the answer to its
/// lookup.
pub fn record_id_from(reply: Reply<Listing>, dns_name: &str) -> (id: Result<String, SyncError>)
    ensures
        match id {
            Ok(i) => listed_id(reply, Lookup::Record, dns_name@) == Ok::<Seq<char>, SyncErrorView>(i@),
            Err(e) => listed_id(reply, Lookup::Record, dns_name@) == Err::<Seq<char>, SyncErrorView>(e@),
        },
{
    first_listed_id(reply, Lookup::Record, dns_name)
}

/// Reads the answer to an update: the provider's success flag, or the
/// failure that kept it from arriving. A refusal by the provider is an
/// answer, `Ok(false)`, and no error.
pub fn update_acknowledged(reply: Reply<Ack>) -> (ack: Result<bool, SyncError>)
    ensures
        match ack {
            Ok(flag) => acknowledged(reply) == Ok::<bool, SyncErrorView>(flag),
            Err(e) => acknowledged(reply) == Err::<bool, SyncErrorView>(e@),
        },
{
    match reply {
        Reply::Unreachable(detail) => Err(SyncError::TransportError { detail }),
        Reply::Malformed(detail) => Err(SyncError::ProtocolError { detail }),
        Reply::Body(ack) => Ok(ack.success),
    }
}

} // verus!
