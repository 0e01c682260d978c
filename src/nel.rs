//! The body of a Network Error Logging report, the report type
//! `network-error`.
use core::time::Duration;
use vstd::prelude::*;

use crate::error::{DecodeError, Fault};
use crate::fields::{
    field_number, field_opt_nanos, field_opt_u16, field_str, take_number, take_opt_duration,
    take_opt_u16, take_str, Entries,
};
use crate::json::{fold, layer_of, map_entries, map_insert, map_new, unfold, Layer};
use crate::parse_milliseconds::{nanos_of, nanos_opt, write_u64};
use crate::report::ReportType;

verus! {

/// The body of a single Network Error Logging report.
#[derive(Debug, PartialEq)]
pub struct NEL {
    /// The referrer of the request, as its referrer policy gives it.
    pub referrer: String,
    /// The sampling rate in effect for the request, a fraction between 0.0
    /// and 1.0, kept as the JSON number that was read.
    pub sampling_fraction: serde_json::Number,
    /// The IP address of the host that the request was sent to.
    pub server_ip: String,
    /// The ALPN ID of the network protocol used.
    pub protocol: String,
    /// The HTTP method of the request.
    pub method: String,
    /// The status code of the response, if there was one.
    pub status_code: Option<u16>,
    /// The time from the start of the fetch to its completion or abort.
    pub elapsed_time: Option<Duration>,
    /// The phase in which the failure occurred: `dns`, `connection` or
    /// `application`.
    pub phase: String,
    /// The error that occurred, or `ok`; written as the body's `type`.
    pub status: String,
}

/// A [`NEL`] body, with its elapsed time in nanoseconds.
pub struct NelView {
    pub referrer: Seq<char>,
    pub sampling_fraction: serde_json::Number,
    pub server_ip: Seq<char>,
    pub protocol: Seq<char>,
    pub method: Seq<char>,
    pub status_code: Option<u16>,
    pub elapsed_time: Option<int>,
    pub phase: Seq<char>,
    pub status: Seq<char>,
}

impl View for NEL {
    type V = NelView;

    open spec fn view(&self) -> NelView {
        NelView {
            referrer: self.referrer@,
            sampling_fraction: self.sampling_fraction,
            server_ip: self.server_ip@,
            protocol: self.protocol@,
            method: self.method@,
            status_code: self.status_code,
            elapsed_time: nanos_opt(self.elapsed_time),
            phase: self.phase@,
            status: self.status@,
        }
    }
}

/// An elapsed time in nanoseconds, cut to whole milliseconds.
pub open spec fn whole_millis_opt(n: Option<int>) -> Option<int> {
    match n {
        Some(n) => Some((n / 1_000_000) * 1_000_000),
        None => None,
    }
}

/// An elapsed time in nanoseconds whose milliseconds fit in a `u64`.
pub open spec fn fits_wire_nanos(n: Option<int>) -> bool {
    match n {
        Some(n) => n / 1_000_000 <= u64::MAX,
        None => true,
    }
}

/// What the fields of a JSON object read as, as a NEL body. `status_code`
/// may be absent; every other field is required.
pub open spec fn nel_from_entries(e: Entries) -> Result<NelView, Fault> {
    match field_str(e, "referrer"@) {
        Err(f) => Err(f),
        Ok(referrer) => match field_number(e, "sampling_fraction"@) {
            Err(f) => Err(f),
            Ok(sampling_fraction) => match field_str(e, "server_ip"@) {
                Err(f) => Err(f),
                Ok(server_ip) => match field_str(e, "protocol"@) {
                    Err(f) => Err(f),
                    Ok(protocol) => match field_str(e, "method"@) {
                        Err(f) => Err(f),
                        Ok(method) => match field_opt_u16(e, "status_code"@) {
                            Err(f) => Err(f),
                            Ok(status_code) => match field_opt_nanos(e, "elapsed_time"@) {
                                Err(f) => Err(f),
                                Ok(elapsed_time) => match field_str(e, "phase"@) {
                                    Err(f) => Err(f),
                                    Ok(phase) => match field_str(e, "type"@) {
                                        Err(f) => Err(f),
                                        Ok(status) => Ok(NelView {
                                            referrer,
                                            sampling_fraction,
                                            server_ip,
                                            protocol,
                                            method,
                                            status_code,
                                            elapsed_time,
                                            phase,
                                            status,
                                        }),
                                    },
                                },
                            },
                        },
                    },
                },
            },
        },
    }
}

/// What a JSON value reads as, as a NEL body.
pub open spec fn nel_of(v: serde_json::Value) -> Result<NelView, Fault> {
    match layer_of(v) {
        Layer::Object(m) => nel_from_entries(map_entries(m)),
        _ => Err(Fault::NotAnObject),
    }
}

/// The keys of a NEL body are distinct.
pub proof fn lemma_nel_keys_distinct()
    ensures
        "referrer"@ != "sampling_fraction"@,
        "referrer"@ != "server_ip"@,
        "referrer"@ != "protocol"@,
        "referrer"@ != "method"@,
        "referrer"@ != "status_code"@,
        "referrer"@ != "elapsed_time"@,
        "referrer"@ != "phase"@,
        "referrer"@ != "type"@,
        "sampling_fraction"@ != "server_ip"@,
        "sampling_fraction"@ != "protocol"@,
        "sampling_fraction"@ != "method"@,
        "sampling_fraction"@ != "status_code"@,
        "sampling_fraction"@ != "elapsed_time"@,
        "sampling_fraction"@ != "phase"@,
        "sampling_fraction"@ != "type"@,
        "server_ip"@ != "protocol"@,
        "server_ip"@ != "method"@,
        "server_ip"@ != "status_code"@,
        "server_ip"@ != "elapsed_time"@,
        "server_ip"@ != "phase"@,
        "server_ip"@ != "type"@,
        "protocol"@ != "method"@,
        "protocol"@ != "status_code"@,
        "protocol"@ != "elapsed_time"@,
        "protocol"@ != "phase"@,
        "protocol"@ != "type"@,
        "method"@ != "status_code"@,
        "method"@ != "elapsed_time"@,
        "method"@ != "phase"@,
        "method"@ != "type"@,
        "status_code"@ != "elapsed_time"@,
        "status_code"@ != "phase"@,
        "status_code"@ != "type"@,
        "elapsed_time"@ != "phase"@,
        "elapsed_time"@ != "type"@,
        "phase"@ != "type"@,
{
    reveal_strlit("referrer");
    reveal_strlit("sampling_fraction");
    reveal_strlit("server_ip");
    reveal_strlit("protocol");
    reveal_strlit("method");
    reveal_strlit("status_code");
    reveal_strlit("elapsed_time");
    reveal_strlit("phase");
    reveal_strlit("type");
    assert("referrer"@[0] == 'r');
    assert("sampling_fraction"@[0] == 's');
    assert("server_ip"@[0] == 's');
    assert("protocol"@[0] == 'p');
    assert("method"@[0] == 'm');
    assert("status_code"@[0] == 's');
    assert("elapsed_time"@[0] == 'e');
    assert("phase"@[0] == 'p');
    assert("type"@[0] == 't');
    assert("sampling_fraction"@[1] != "server_ip"@[1]);
    assert("sampling_fraction"@[1] != "status_code"@[1]);
    assert("server_ip"@[1] != "status_code"@[1]);
    assert("protocol"@[1] != "phase"@[1]);
}

/// Writes an integer that may be absent: `null` for none.
fn write_opt_u16(c: Option<u16>) -> (r: serde_json::Value)
    ensures
        match c {
            Some(c) => layer_of(r) matches Layer::Number(n) && crate::json::number_u64(n) == Some(
                c as u64,
            ),
            None => layer_of(r) is Null,
        },
{
    match c {
        Some(c) => write_u64(c as u64),
        None => fold(Layer::Null),
    }
}

impl ReportType for NEL {
    open spec fn tag_spec() -> Seq<char> {
        "network-error"@
    }

    open spec fn body_spec(v: serde_json::Value) -> Result<NelView, Fault> {
        nel_of(v)
    }

    open spec fn writable(b: NelView) -> bool {
        fits_wire_nanos(b.elapsed_time)
    }

    open spec fn written(b: NelView) -> NelView {
        NelView { elapsed_time: whole_millis_opt(b.elapsed_time), ..b }
    }

    proof fn lemma_written_idempotent(b: NelView) {
        if let Some(n) = b.elapsed_time {
            vstd::arithmetic::div_mod::lemma_div_multiples_vanish(n / 1_000_000, 1_000_000);
        }
    }

    fn report_type() -> (r: &'static str) {
        "network-error"
    }

    fn from_body(v: serde_json::Value) -> (r: Result<NEL, DecodeError>) {
        let mut m = match unfold(v) {
            Layer::Object(m) => m,
            _ => return Err(DecodeError::NotAnObject),
        };
        proof {
            lemma_nel_keys_distinct();
        }
        let referrer = match take_str(&mut m, "referrer") {
            Ok(s) => s,
            Err(e) => return Err(e),
        };
        let sampling_fraction = match take_number(&mut m, "sampling_fraction") {
            Ok(n) => n,
            Err(e) => return Err(e),
        };
        let server_ip = match take_str(&mut m, "server_ip") {
            Ok(s) => s,
            Err(e) => return Err(e),
        };
        let protocol = match take_str(&mut m, "protocol") {
            Ok(s) => s,
            Err(e) => return Err(e),
        };
        let method = match take_str(&mut m, "method") {
            Ok(s) => s,
            Err(e) => return Err(e),
        };
        let status_code = match take_opt_u16(&mut m, "status_code") {
            Ok(c) => c,
            Err(e) => return Err(e),
        };
        let elapsed_time = match take_opt_duration(&mut m, "elapsed_time") {
            Ok(d) => d,
            Err(e) => return Err(e),
        };
        let phase = match take_str(&mut m, "phase") {
            Ok(s) => s,
            Err(e) => return Err(e),
        };
        let status = match take_str(&mut m, "type") {
            Ok(s) => s,
            Err(e) => return Err(e),
        };
        Ok(NEL {
            referrer,
            sampling_fraction,
            server_ip,
            protocol,
            method,
            status_code,
            elapsed_time,
            phase,
            status,
        })
    }

    fn to_body(self) -> (r: Option<serde_json::Value>) {
        let elapsed_time = match crate::parse_opt_milliseconds::serialize(&self.elapsed_time) {
            Some(v) => v,
            None => return None,
        };
        let mut m = map_new();
        map_insert(&mut m, "referrer".to_owned(), fold(Layer::Str(self.referrer)));
        map_insert(&mut m, "sampling_fraction".to_owned(), fold(Layer::Number(self.sampling_fraction)));
        map_insert(&mut m, "server_ip".to_owned(), fold(Layer::Str(self.server_ip)));
        map_insert(&mut m, "protocol".to_owned(), fold(Layer::Str(self.protocol)));
        map_insert(&mut m, "method".to_owned(), fold(Layer::Str(self.method)));
        map_insert(&mut m, "status_code".to_owned(), write_opt_u16(self.status_code));
        map_insert(&mut m, "elapsed_time".to_owned(), elapsed_time);
        map_insert(&mut m, "phase".to_owned(), fold(Layer::Str(self.phase)));
        map_insert(&mut m, "type".to_owned(), fold(Layer::Str(self.status)));
        proof {
            lemma_nel_keys_distinct();
        }
        Some(fold(Layer::Object(m)))
    }
}

/// A NEL body whose elapsed time, if any, is a whole number of milliseconds
/// reads back as itself once written.
pub proof fn lemma_nel_written_whole(x: NEL)
    requires
        x.elapsed_time matches Some(d) ==> crate::parse_milliseconds::is_whole(d),
    ensures
        NEL::written(x@) == x@,
{
    if let Some(d) = x.elapsed_time {
        let n = nanos_of(d) as int;
        assert(n == (n / 1_000_000) * 1_000_000) by {
            vstd::arithmetic::div_mod::lemma_fundamental_div_mod(n, 1_000_000);
        }
    }
}

} // verus!
