//! The report envelope, and the two-phase reading of a report: first the
//! envelope with its body kept as untyped JSON, then on demand the body as one
//! chosen report type.
use core::time::Duration;
use vstd::prelude::*;

use crate::error::{DecodeError, Fault};
use crate::fields::{
    field_nanos, field_str, field_value, take_duration, take_str, take_value, Entries,
};
use crate::json::{fold, layer_of, map_entries, map_insert, map_new, unfold, Layer};
use crate::parse_milliseconds::{fits_wire, is_whole, nanos_of, value_u64};

verus! {

/// A report whose body is still a JSON value, not yet read as any report type.
#[derive(Debug, PartialEq)]
pub struct BareReport {
    /// The time between the report's generation and its upload.
    pub age: Duration,
    /// The URL of the request that the report describes.
    pub url: String,
    /// The `User-Agent` header of that request.
    pub user_agent: String,
    /// The report's `type` field, which names the schema of its body.
    pub report_type: String,
    /// The body, as JSON.
    pub body: serde_json::Value,
}

/// A report whose body has been read as the report type `C`.
#[derive(Debug, PartialEq)]
pub struct Report<C> {
    /// The time between the report's generation and its upload.
    pub age: Duration,
    /// The URL of the request that the report describes.
    pub url: String,
    /// The `User-Agent` header of that request.
    pub user_agent: String,
    /// The body.
    pub body: C,
}

/// A [`BareReport`], with its age in nanoseconds.
pub struct BareView {
    pub age: int,
    pub url: Seq<char>,
    pub user_agent: Seq<char>,
    pub report_type: Seq<char>,
    pub body: serde_json::Value,
}

/// A [`Report`], with its age in nanoseconds and its body as a view.
pub struct ReportView<B> {
    pub age: int,
    pub url: Seq<char>,
    pub user_agent: Seq<char>,
    pub body: B,
}

impl View for BareReport {
    type V = BareView;

    open spec fn view(&self) -> BareView {
        BareView {
            age: nanos_of(self.age) as int,
            url: self.url@,
            user_agent: self.user_agent@,
            report_type: self.report_type@,
            body: self.body,
        }
    }
}

impl<C: View> View for Report<C> {
    type V = ReportView<C::V>;

    open spec fn view(&self) -> ReportView<C::V> {
        ReportView {
            age: nanos_of(self.age) as int,
            url: self.url@,
            user_agent: self.user_agent@,
            body: self.body@,
        }
    }
}

/// A type that a report body can be read as. Each one has its own value of
/// the report's `type` field, and reads and writes its body as JSON.
pub trait ReportType: Sized + View {
    /// The value of the `type` field for reports of this type.
    spec fn tag_spec() -> Seq<char>;

    /// What a JSON body reads as.
    spec fn body_spec(v: serde_json::Value) -> Result<Self::V, Fault>;

    /// Whether a body can be written as JSON.
    spec fn writable(b: Self::V) -> bool;

    /// What a body reads back as once written: the same body, its durations
    /// cut to whole milliseconds.
    spec fn written(b: Self::V) -> Self::V;

    /// Writing a body a second time changes nothing more.
    proof fn lemma_written_idempotent(b: Self::V)
        ensures
            Self::written(Self::written(b)) == Self::written(b),
    ;

    /// The value of the `type` field for reports of this type.
    fn report_type() -> (r: &'static str)
        ensures
            r@ == Self::tag_spec(),
    ;

    /// Reads a JSON body. A body that was read can be written again.
    fn from_body(v: serde_json::Value) -> (r: Result<Self, DecodeError>)
        ensures
            match r {
                Ok(b) => Self::body_spec(v) == Ok::<Self::V, Fault>(b@) && Self::writable(b@),
                Err(e) => Self::body_spec(v) == Err::<Self::V, Fault>(e@),
            },
    ;

    /// Writes a body as JSON, which reads back as `written`.
    fn to_body(self) -> (r: Option<serde_json::Value>)
        ensures
            Self::writable(self@) <==> r is Some,
            r matches Some(v) ==> Self::body_spec(v) == Ok::<Self::V, Fault>(Self::written(self@)),
    ;
}

/// The string that a JSON value holds, if it is a string.
pub open spec fn value_str(v: serde_json::Value) -> Option<Seq<char>> {
    match layer_of(v) {
        Layer::Str(s) => Some(s@),
        _ => None,
    }
}

/// What the fields of a JSON object read as, as a report envelope. The fields
/// are read in this order, and the first that fails gives the error.
pub open spec fn bare_from_entries(e: Entries) -> Result<BareView, Fault> {
    match field_nanos(e, "age"@) {
        Err(f) => Err(f),
        Ok(age) => match field_str(e, "url"@) {
            Err(f) => Err(f),
            Ok(url) => match field_str(e, "user_agent"@) {
                Err(f) => Err(f),
                Ok(user_agent) => match field_str(e, "type"@) {
                    Err(f) => Err(f),
                    Ok(report_type) => match field_value(e, "body"@) {
                        Err(f) => Err(f),
                        Ok(body) => Ok(BareView { age, url, user_agent, report_type, body }),
                    },
                },
            },
        },
    }
}

/// What a JSON value reads as, as a report whose body is kept as JSON.
pub open spec fn bare_of(v: serde_json::Value) -> Result<BareView, Fault> {
    match layer_of(v) {
        Layer::Object(m) => bare_from_entries(map_entries(m)),
        _ => Err(Fault::NotAnObject),
    }
}

/// A JSON value that holds an envelope: an object with the five fields, the
/// age in whole milliseconds. Other keys may stand beside them.
pub open spec fn writes_bare(x: BareView, v: serde_json::Value) -> bool {
    match layer_of(v) {
        Layer::Object(m) => {
            let e = map_entries(m);
            &&& e.contains_key("age"@)
            &&& x.age / 1_000_000 <= u64::MAX
            &&& value_u64(e["age"@]) == Some((x.age / 1_000_000) as u64)
            &&& e.contains_key("url"@)
            &&& value_str(e["url"@]) == Some(x.url)
            &&& e.contains_key("user_agent"@)
            &&& value_str(e["user_agent"@]) == Some(x.user_agent)
            &&& e.contains_key("type"@)
            &&& value_str(e["type"@]) == Some(x.report_type)
            &&& e.contains_key("body"@)
            &&& e["body"@] == x.body
        },
        _ => false,
    }
}

/// What reading a bare report as the report type `C` gives: `None` when its
/// `type` is not `C`'s, else the body read by `C`'s schema.
pub open spec fn parse_spec<C: ReportType>(b: BareView) -> Option<Result<ReportView<C::V>, Fault>> {
    if b.report_type != C::tag_spec() {
        None
    } else {
        match C::body_spec(b.body) {
            Ok(body) => Some(Ok(ReportView { age: b.age, url: b.url, user_agent: b.user_agent, body })),
            Err(f) => Some(Err(f)),
        }
    }
}

/// The bare report that a typed report is written as, its body written by
/// `C` into the JSON value `body`.
pub open spec fn bare_with_body<B>(x: ReportView<B>, report_type: Seq<char>, body: serde_json::Value) -> BareView {
    BareView { age: x.age, url: x.url, user_agent: x.user_agent, report_type, body }
}

/// The envelope keys are distinct.
pub proof fn lemma_envelope_keys_distinct()
    ensures
        "age"@ != "url"@,
        "age"@ != "user_agent"@,
        "age"@ != "type"@,
        "age"@ != "body"@,
        "url"@ != "user_agent"@,
        "url"@ != "type"@,
        "url"@ != "body"@,
        "user_agent"@ != "type"@,
        "user_agent"@ != "body"@,
        "type"@ != "body"@,
{
    reveal_strlit("age");
    reveal_strlit("url");
    reveal_strlit("user_agent");
    reveal_strlit("type");
    reveal_strlit("body");
    assert("age"@[0] != "url"@[0]);
    assert("age"@[0] != "user_agent"@[0]);
    assert("age"@[0] != "type"@[0]);
    assert("age"@[0] != "body"@[0]);
    assert("url"@[1] != "user_agent"@[1]);
    assert("url"@[0] != "type"@[0]);
    assert("url"@[0] != "body"@[0]);
    assert("user_agent"@[0] != "type"@[0]);
    assert("user_agent"@[0] != "body"@[0]);
    assert("type"@[0] != "body"@[0]);
}

impl BareReport {
    /// Reads a report from JSON, keeping its body as JSON. Fails when the value
    /// is not an object, or when one of `age`, `url`, `user_agent`, `type` and
    /// `body` is absent or of the wrong kind.
    pub fn from_json(v: serde_json::Value) -> (r: Result<BareReport, DecodeError>)
        ensures
            match r {
                Ok(b) => bare_of(v) == Ok::<BareView, Fault>(b@),
                Err(e) => bare_of(v) == Err::<BareView, Fault>(e@),
            },
    {
        let mut m = match unfold(v) {
            Layer::Object(m) => m,
            _ => return Err(DecodeError::NotAnObject),
        };
        proof {
            lemma_envelope_keys_distinct();
        }
        let age = match take_duration(&mut m, "age") {
            Ok(a) => a,
            Err(e) => return Err(e),
        };
        let url = match take_str(&mut m, "url") {
            Ok(s) => s,
            Err(e) => return Err(e),
        };
        let user_agent = match take_str(&mut m, "user_agent") {
            Ok(s) => s,
            Err(e) => return Err(e),
        };
        let report_type = match take_str(&mut m, "type") {
            Ok(s) => s,
            Err(e) => return Err(e),
        };
        let body = match take_value(&mut m, "body") {
            Ok(b) => b,
            Err(e) => return Err(e),
        };
        Ok(BareReport { age, url, user_agent, report_type, body })
    }

    /// Writes a report as JSON, its age in whole milliseconds, truncated.
    /// `None` when those milliseconds do not fit in a `u64`.
    pub fn to_json(self) -> (r: Option<serde_json::Value>)
        ensures
            fits_wire(self.age) <==> r is Some,
            r matches Some(v) ==> writes_bare(self@, v),
    {
        let age = match crate::parse_milliseconds::serialize(&self.age) {
            Some(a) => a,
            None => return None,
        };
        let mut m = map_new();
        map_insert(&mut m, "age".to_owned(), age);
        map_insert(&mut m, "url".to_owned(), fold(Layer::Str(self.url)));
        map_insert(&mut m, "user_agent".to_owned(), fold(Layer::Str(self.user_agent)));
        map_insert(&mut m, "type".to_owned(), fold(Layer::Str(self.report_type)));
        map_insert(&mut m, "body".to_owned(), self.body);
        proof {
            lemma_envelope_keys_distinct();
        }
        Some(fold(Layer::Object(m)))
    }

    /// Reads the body as the report type `C`. `None` when the report's `type`
    /// is not `C`'s; `Some(Err(..))` when it is but the body does not follow
    /// `C`'s schema.
    pub fn parse<C: ReportType>(self) -> (r: Option<Result<Report<C>, DecodeError>>)
        ensures
            match r {
                None => parse_spec::<C>(self@) is None,
                Some(Ok(rep)) => parse_spec::<C>(self@) == Some(Ok::<ReportView<C::V>, Fault>(rep@)),
                Some(Err(e)) => parse_spec::<C>(self@) == Some(Err::<ReportView<C::V>, Fault>(e@)),
            },
    {
        let expected = C::report_type().to_owned();
        if self.report_type != expected {
            return None;
        }
        Some(self.parse_body())
    }

    /// Reads the body as the report type `C`, whatever the report's `type`.
    fn parse_body<C: ReportType>(self) -> (r: Result<Report<C>, DecodeError>)
        ensures
            match r {
                Ok(rep) => C::body_spec(self.body) matches Ok(b) && rep@ == (ReportView {
                    age: self@.age,
                    url: self@.url,
                    user_agent: self@.user_agent,
                    body: b,
                }),
                Err(e) => C::body_spec(self.body) == Err::<C::V, Fault>(e@),
            },
    {
        match C::from_body(self.body) {
            Ok(body) => Ok(Report { age: self.age, url: self.url, user_agent: self.user_agent, body }),
            Err(e) => Err(e),
        }
    }
}

impl<C: ReportType> Report<C> {
    /// Writes a report back as a bare one: its `type` is `C`'s and its body is
    /// written by `C`. `None` when `C` cannot write the body.
    pub fn to_bare(self) -> (r: Option<BareReport>)
        ensures
            C::writable(self.body@) <==> r is Some,
            r matches Some(b) ==> b@ == bare_with_body(self@, C::tag_spec(), b.body)
                && C::body_spec(b.body) == Ok::<C::V, Fault>(C::written(self.body@)),
    {
        let report_type = C::report_type().to_owned();
        match self.body.to_body() {
            Some(body) => Some(BareReport {
                age: self.age,
                url: self.url,
                user_agent: self.user_agent,
                report_type,
                body,
            }),
            None => None,
        }
    }
}

/// Reading back the JSON that an envelope is written as gives the same
/// envelope, when its age is a whole number of milliseconds.
pub proof fn lemma_bare_round_trip(x: BareReport, v: serde_json::Value)
    requires
        is_whole(x.age),
        writes_bare(x@, v),
    ensures
        bare_of(v) == Ok::<BareView, Fault>(x@),
{
    lemma_envelope_keys_distinct();
    let n = nanos_of(x.age) as int;
    assert(n == (n / 1_000_000) * 1_000_000) by {
        vstd::arithmetic::div_mod::lemma_fundamental_div_mod(n, 1_000_000);
    }
}

/// Writing a typed report as a bare one, that as JSON, and reading both back
/// gives the same report, its age whole and its body as `C` writes it.
pub proof fn lemma_report_round_trip<C: ReportType>(x: Report<C>, b: BareReport, v: serde_json::Value)
    requires
        is_whole(x.age),
        b@ == bare_with_body(x@, C::tag_spec(), b.body),
        C::body_spec(b.body) == Ok::<C::V, Fault>(C::written(x.body@)),
        writes_bare(b@, v),
    ensures
        bare_of(v) == Ok::<BareView, Fault>(b@),
        parse_spec::<C>(b@) == Some(Ok::<ReportView<C::V>, Fault>(ReportView {
            age: x@.age,
            url: x@.url,
            user_agent: x@.user_agent,
            body: C::written(x.body@),
        })),
{
    lemma_bare_round_trip(b, v);
}

/// Reading a bare report as a report type whose `type` it does not carry
/// gives `None`, never an error; reading it as the type it carries, with a
/// body that does not follow that type's schema, gives an error, never `None`.
pub proof fn lemma_probe_outcomes<C: ReportType>(b: BareReport)
    ensures
        b@.report_type != C::tag_spec() ==> parse_spec::<C>(b@) is None,
        b@.report_type == C::tag_spec() && C::body_spec(b@.body) is Err
            ==> parse_spec::<C>(b@) matches Some(Err(_)),
{
}

/// An object without one of the five envelope fields is no report.
pub proof fn lemma_missing_envelope_field(v: serde_json::Value, k: Seq<char>)
    requires
        k == "age"@ || k == "url"@ || k == "user_agent"@ || k == "type"@ || k == "body"@,
        layer_of(v) matches Layer::Object(m) && !map_entries(m).contains_key(k),
    ensures
        bare_of(v) is Err,
{
}

} // verus!
