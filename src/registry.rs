//! Reading every report at once as its own type: a registry of report types,
//! each under its discriminator, chooses how each body is read.
//!
//! The registry is a list of types, built by explicit registration:
//! `Registry::new().register::<A>()?.register::<B>()?`. Registration refuses a
//! discriminator that is already taken, so within one registry each
//! discriminator names one type. A body read this way is held in an
//! [`AnyBody`], which knows its discriminator and keeps the body as its type
//! writes it back.
use core::marker::PhantomData;
use vstd::prelude::*;

use crate::error::{DecodeError, Fault};
use crate::json::{json_eq, layer_of, map_entries, parse_text, parsed_text, unfold, values_equal, Layer};
use crate::parse_milliseconds::is_whole;
use crate::report::{
    bare_of, lemma_bare_round_trip, lemma_missing_envelope_field, writes_bare, BareReport, BareView,
    Report, ReportType, ReportView,
};

verus! {

/// The registry with no report type in it.
pub struct Nil;

/// The report type `C` registered in front of the registry `R`.
pub struct Cons<C, R> {
    head: PhantomData<C>,
    tail: PhantomData<R>,
}

/// A list of registered report types.
pub trait Registered {
    /// The discriminators of the registered types, the latest first.
    spec fn tags_spec() -> Seq<Seq<char>>;

    /// How a body under a discriminator is read: `None` when no type is
    /// registered under it, else whether that type can read the body.
    spec fn outcome(tag: Seq<char>, body: serde_json::Value) -> Option<Result<(), Fault>>;

    /// `written` is how the type under `tag` writes back what it read from
    /// `body`.
    spec fn rewrites(tag: Seq<char>, body: serde_json::Value, written: serde_json::Value) -> bool;

    /// Under `tag`, the JSON values `a` and `b` read as the same body.
    spec fn reads_same(tag: Seq<char>, a: serde_json::Value, b: serde_json::Value) -> bool;

    /// A body has a type to be read by exactly when its discriminator is
    /// registered.
    proof fn lemma_outcome_known(tag: Seq<char>, body: serde_json::Value)
        ensures
            Self::outcome(tag, body) is None <==> !Self::tags_spec().contains(tag),
    ;

    /// What the type under `tag` writes back can be read again, and writing
    /// it back again gives a value that reads the same.
    proof fn lemma_rewrite_stable(
        tag: Seq<char>,
        body: serde_json::Value,
        w: serde_json::Value,
        w2: serde_json::Value,
    )
        requires
            Self::rewrites(tag, body, w),
        ensures
            Self::outcome(tag, w) == Some(Ok::<(), Fault>(())),
            Self::rewrites(tag, w, w2) ==> Self::reads_same(tag, w, w2),
    ;

    /// Whether a type is registered under a discriminator.
    fn knows(tag: &str) -> (r: bool)
        ensures
            r == Self::tags_spec().contains(tag@),
    ;

    /// Reads a body with the type registered under its discriminator, and
    /// writes it back as that type writes it.
    fn dispatch(tag: &str, body: serde_json::Value) -> (r: Option<Result<serde_json::Value, DecodeError>>)
        ensures
            match r {
                None => Self::outcome(tag@, body) is None,
                Some(Ok(w)) => Self::outcome(tag@, body) == Some(Ok::<(), Fault>(()))
                    && Self::rewrites(tag@, body, w),
                Some(Err(e)) => Self::outcome(tag@, body) == Some(Err::<(), Fault>(e@)),
            },
    ;
}

impl Registered for Nil {
    open spec fn tags_spec() -> Seq<Seq<char>> {
        Seq::empty()
    }

    open spec fn outcome(tag: Seq<char>, body: serde_json::Value) -> Option<Result<(), Fault>> {
        None
    }

    open spec fn rewrites(tag: Seq<char>, body: serde_json::Value, written: serde_json::Value) -> bool {
        false
    }

    open spec fn reads_same(tag: Seq<char>, a: serde_json::Value, b: serde_json::Value) -> bool {
        false
    }

    proof fn lemma_outcome_known(tag: Seq<char>, body: serde_json::Value) {
    }

    proof fn lemma_rewrite_stable(
        tag: Seq<char>,
        body: serde_json::Value,
        w: serde_json::Value,
        w2: serde_json::Value,
    ) {
    }

    fn knows(tag: &str) -> (r: bool) {
        false
    }

    fn dispatch(tag: &str, body: serde_json::Value) -> (r: Option<Result<serde_json::Value, DecodeError>>) {
        None
    }
}

/// Whether a discriminator is the one of the report type `C`.
fn is_tag_of<C: ReportType>(tag: &str) -> (r: bool)
    ensures
        r == (tag@ == C::tag_spec()),
{
    tag.to_owned() == C::report_type().to_owned()
}

/// A discriminator is registered in `Cons<C, R>` when it is `C`'s or is
/// registered in `R`.
proof fn lemma_tags_cons<C: ReportType, R: Registered>()
    ensures
        forall|t: Seq<char>| #[trigger] Cons::<C, R>::tags_spec().contains(t) <==> (t == C::tag_spec()
            || R::tags_spec().contains(t)),
{
    let s = Cons::<C, R>::tags_spec();
    assert(s[0] == C::tag_spec());
    assert forall|t: Seq<char>| R::tags_spec().contains(t) implies s.contains(t) by {
        let i = choose|i: int| 0 <= i < R::tags_spec().len() && R::tags_spec()[i] == t;
        assert(s[i + 1] == t);
    }
    assert forall|t: Seq<char>| #[trigger] s.contains(t) && t != C::tag_spec() implies R::tags_spec().contains(t) by {
        let i = choose|i: int| 0 <= i < s.len() && s[i] == t;
        assert(R::tags_spec()[i - 1] == t);
    }
}

impl<C: ReportType, R: Registered> Registered for Cons<C, R> {
    open spec fn tags_spec() -> Seq<Seq<char>> {
        seq![C::tag_spec()] + R::tags_spec()
    }

    open spec fn outcome(tag: Seq<char>, body: serde_json::Value) -> Option<Result<(), Fault>> {
        if tag == C::tag_spec() {
            match C::body_spec(body) {
                Ok(_) => Some(Ok(())),
                Err(f) => Some(Err(f)),
            }
        } else {
            R::outcome(tag, body)
        }
    }

    open spec fn rewrites(tag: Seq<char>, body: serde_json::Value, written: serde_json::Value) -> bool {
        if tag == C::tag_spec() {
            C::body_spec(body) matches Ok(b) && C::body_spec(written) == Ok::<C::V, Fault>(
                C::written(b),
            )
        } else {
            R::rewrites(tag, body, written)
        }
    }

    open spec fn reads_same(tag: Seq<char>, a: serde_json::Value, b: serde_json::Value) -> bool {
        if tag == C::tag_spec() {
            C::body_spec(a) == C::body_spec(b)
        } else {
            R::reads_same(tag, a, b)
        }
    }

    proof fn lemma_outcome_known(tag: Seq<char>, body: serde_json::Value) {
        R::lemma_outcome_known(tag, body);
        lemma_tags_cons::<C, R>();
    }

    proof fn lemma_rewrite_stable(
        tag: Seq<char>,
        body: serde_json::Value,
        w: serde_json::Value,
        w2: serde_json::Value,
    ) {
        if tag == C::tag_spec() {
            let b = C::body_spec(body)->Ok_0;
            C::lemma_written_idempotent(b);
        } else {
            R::lemma_rewrite_stable(tag, body, w, w2);
        }
    }

    fn knows(tag: &str) -> (r: bool) {
        proof {
            lemma_tags_cons::<C, R>();
        }
        is_tag_of::<C>(tag) || R::knows(tag)
    }

    fn dispatch(tag: &str, body: serde_json::Value) -> (r: Option<Result<serde_json::Value, DecodeError>>) {
        if is_tag_of::<C>(tag) {
            match C::from_body(body) {
                Ok(b) => match b.to_body() {
                    Some(w) => Some(Ok(w)),
                    // A body that was read can always be written back.
                    None => None,
                },
                Err(e) => Some(Err(e)),
            }
        } else {
            R::dispatch(tag, body)
        }
    }
}

/// Why a registration was refused: a type is already registered under this
/// discriminator.
#[derive(Debug, PartialEq)]
pub struct Conflict {
    pub tag: String,
}

/// A registry of report types, no two under the same discriminator.
pub struct Registry<R> {
    types: PhantomData<R>,
}

impl<R: Registered> Registry<R> {
    /// No two registered types share a discriminator.
    pub open spec fn wf(&self) -> bool {
        R::tags_spec().no_duplicates()
    }

    /// Registers the report type `C` under its discriminator. Refused when a
    /// type is already registered under it.
    pub fn register<C: ReportType>(self) -> (r: Result<Registry<Cons<C, R>>, Conflict>)
        requires
            self.wf(),
        ensures
            R::tags_spec().contains(C::tag_spec()) <==> r is Err,
            r matches Ok(reg) ==> reg.wf(),
            r matches Err(c) ==> c.tag@ == C::tag_spec(),
    {
        let tag = C::report_type();
        if R::knows(tag) {
            return Err(Conflict { tag: tag.to_owned() });
        }
        let reg = Registry { types: PhantomData };
        proof {
            let s = Cons::<C, R>::tags_spec();
            assert forall|i: int, j: int| 0 <= i < s.len() && 0 <= j < s.len() && i != j
                implies s[i] != s[j] by {
                if i == 0 {
                    assert(R::tags_spec().contains(s[j]));
                } else if j == 0 {
                    assert(R::tags_spec().contains(s[i]));
                } else {
                    assert(s[i] == R::tags_spec()[i - 1]);
                    assert(s[j] == R::tags_spec()[j - 1]);
                }
            }
        }
        Ok(reg)
    }
}

impl Registry<Nil> {
    /// The registry with no type in it.
    pub fn new() -> (r: Registry<Nil>)
        ensures
            r.wf(),
    {
        Registry { types: PhantomData }
    }
}

/// A report body read as the type registered under its discriminator, that
/// type no longer named. It keeps the body as that type writes it back.
#[derive(Debug)]
pub struct AnyBody {
    tag: String,
    body: serde_json::Value,
}

/// An [`AnyBody`]: its discriminator, and its body as JSON.
pub struct AnyBodyView {
    pub tag: Seq<char>,
    pub body: serde_json::Value,
}

impl View for AnyBody {
    type V = AnyBodyView;

    closed spec fn view(&self) -> AnyBodyView {
        AnyBodyView { tag: self.tag@, body: self.body }
    }
}

impl AnyBody {
    /// The discriminator of the body's type.
    pub fn report_type(&self) -> (r: &str)
        ensures
            r@ == self@.tag,
    {
        self.tag.as_str()
    }

    /// Whether the body is of the report type `C`.
    pub fn is<C: ReportType>(&self) -> (r: bool)
        ensures
            r == (self@.tag == C::tag_spec()),
    {
        is_tag_of::<C>(self.tag.as_str())
    }

    /// The body as the report type `C`: `None` when it is of another type.
    pub fn downcast<C: ReportType>(self) -> (r: Option<C>)
        ensures
            match r {
                Some(c) => self@.tag == C::tag_spec() && C::body_spec(self@.body) == Ok::<C::V, Fault>(c@),
                None => self@.tag != C::tag_spec() || C::body_spec(self@.body) is Err,
            },
    {
        if !is_tag_of::<C>(self.tag.as_str()) {
            return None;
        }
        match C::from_body(self.body) {
            Ok(c) => Some(c),
            Err(_) => None,
        }
    }

    /// Whether two bodies are equal: of the same type, with equal contents.
    pub fn equals(&self, other: &AnyBody) -> (r: bool)
        ensures
            r == any_eq(self@, other@),
    {
        self.tag == other.tag && values_equal(&self.body, &other.body)
    }
}

/// Two bodies are equal when they have the same discriminator, so the same
/// type, and equal contents.
pub open spec fn any_eq(a: AnyBodyView, b: AnyBodyView) -> bool {
    a.tag == b.tag && json_eq(a.body, b.body)
}

impl PartialEq for AnyBody {
    fn eq(&self, other: &AnyBody) -> (r: bool) {
        self.equals(other)
    }
}

impl vstd::std_specs::cmp::PartialEqSpecImpl for AnyBody {
    open spec fn obeys_eq_spec() -> bool {
        true
    }

    open spec fn eq_spec(&self, other: &AnyBody) -> bool {
        any_eq(self@, other@)
    }
}

/// Two bodies of different types are never equal, whatever their contents.
pub proof fn lemma_cross_type_unequal(a: AnyBody, b: AnyBody)
    requires
        a@.tag != b@.tag,
    ensures
        !any_eq(a@, b@),
{
}

/// Why a report could not be read with a registry.
#[derive(Debug, PartialEq)]
pub enum DispatchError {
    /// The envelope could not be read.
    Envelope(DecodeError),
    /// No type is registered under the report's discriminator.
    UnknownType(String),
    /// The type registered under the discriminator cannot read the body.
    Schema(String, DecodeError),
}

/// A [`DispatchError`], as views.
pub enum DispatchFault {
    Envelope(Fault),
    UnknownType(Seq<char>),
    Schema(Seq<char>, Fault),
}

impl View for DispatchError {
    type V = DispatchFault;

    open spec fn view(&self) -> DispatchFault {
        match self {
            DispatchError::Envelope(e) => DispatchFault::Envelope(e@),
            DispatchError::UnknownType(t) => DispatchFault::UnknownType(t@),
            DispatchError::Schema(t, e) => DispatchFault::Schema(t@, e@),
        }
    }
}

/// The error, if any, of reading a JSON value as a report with the registry
/// `R`: the envelope first, then the body by its discriminator.
pub open spec fn dispatch_fault<R: Registered>(v: serde_json::Value) -> Option<DispatchFault> {
    match bare_of(v) {
        Err(f) => Some(DispatchFault::Envelope(f)),
        Ok(b) => bare_dispatch_fault::<R>(b),
    }
}

/// The error, if any, of reading the body of a bare report with the registry
/// `R`, by its discriminator.
pub open spec fn bare_dispatch_fault<R: Registered>(b: BareView) -> Option<DispatchFault> {
    match R::outcome(b.report_type, b.body) {
        None => Some(DispatchFault::UnknownType(b.report_type)),
        Some(Err(f)) => Some(DispatchFault::Schema(b.report_type, f)),
        Some(Ok(())) => None,
    }
}

/// `rep` is what the registry `R` reads from the bare report `b`: the same
/// envelope, and the body as the type under its discriminator writes it back.
pub open spec fn dispatched<R: Registered>(b: BareView, rep: ReportView<AnyBodyView>) -> bool {
    &&& bare_dispatch_fault::<R>(b) is None
    &&& rep.age == b.age
    &&& rep.url == b.url
    &&& rep.user_agent == b.user_agent
    &&& rep.body.tag == b.report_type
    &&& R::rewrites(b.report_type, b.body, rep.body.body)
}

/// A report read with the registry `R`, or why it could not be, as views.
pub open spec fn decoded_with<R: Registered>(
    v: serde_json::Value,
    r: Result<Report<AnyBody>, DispatchError>,
) -> bool {
    match r {
        Ok(rep) => bare_of(v) matches Ok(b) && dispatched::<R>(b, rep@),
        Err(e) => dispatch_fault::<R>(v) == Some(e@),
    }
}

impl<R: Registered> Registry<R> {
    /// Reads the body of a bare report as the type registered under its
    /// discriminator. Fails when no type is registered under it, or when that
    /// type cannot read the body.
    pub fn decode_bare(&self, bare: BareReport) -> (r: Result<Report<AnyBody>, DispatchError>)
        ensures
            match r {
                Ok(rep) => dispatched::<R>(bare@, rep@),
                Err(e) => bare_dispatch_fault::<R>(bare@) == Some(e@),
            },
    {
        match R::dispatch(bare.report_type.as_str(), bare.body) {
            None => Err(DispatchError::UnknownType(bare.report_type)),
            Some(Err(e)) => Err(DispatchError::Schema(bare.report_type, e)),
            Some(Ok(w)) => Ok(Report {
                age: bare.age,
                url: bare.url,
                user_agent: bare.user_agent,
                body: AnyBody { tag: bare.report_type, body: w },
            }),
        }
    }

    /// Reads a report from JSON, its body as the type registered under its
    /// discriminator. Fails when the envelope cannot be read, when no type is
    /// registered under the discriminator, or when that type cannot read the
    /// body.
    pub fn decode(&self, v: serde_json::Value) -> (r: Result<Report<AnyBody>, DispatchError>)
        ensures
            decoded_with::<R>(v, r),
    {
        match BareReport::from_json(v) {
            Ok(b) => self.decode_bare(b),
            Err(e) => Err(DispatchError::Envelope(e)),
        }
    }

    /// Reads a batch of reports from JSON text, each body as the type
    /// registered under its discriminator. A report that cannot be read gives
    /// its error in its place. The whole batch fails only when the text is not
    /// JSON, or not an array.
    pub fn decode_batch(&self, text: &[u8]) -> (r: Result<Vec<Result<Report<AnyBody>, DispatchError>>, DecodeError>)
        ensures
            match r {
                Ok(out) => parsed_text(text@) matches Some(v) && layer_of(v) matches Layer::Array(items)
                    && out@.len() == items@.len() && forall|i: int|
                    0 <= i < out@.len() ==> decoded_with::<R>(items@[i], #[trigger] out@[i]),
                Err(e) => match parsed_text(text@) {
                    None => e == DecodeError::Syntax,
                    Some(v) => !(layer_of(v) is Array) && e == DecodeError::NotAnArray,
                },
            },
    {
        let v = match parse_text(text) {
            Ok(v) => v,
            Err(_) => return Err(DecodeError::Syntax),
        };
        let items = match unfold(v) {
            Layer::Array(items) => items,
            _ => return Err(DecodeError::NotAnArray),
        };
        let ghost all = items@;
        let mut out: Vec<Result<Report<AnyBody>, DispatchError>> = Vec::new();
        for item in it: items.into_iter()
            invariant
                it.seq() == all,
                out@.len() == it.index(),
                forall|i: int| 0 <= i < it.index() ==> decoded_with::<R>(all[i], #[trigger] out@[i]),
        {
            out.push(self.decode(item));
        }
        Ok(out)
    }
}

/// A report whose discriminator no type in the registry has fails as of
/// unknown type, not as a body that does not follow a schema.
pub proof fn lemma_unknown_type<R: Registered>(v: serde_json::Value)
    requires
        bare_of(v) matches Ok(b) && !R::tags_spec().contains(b.report_type),
    ensures
        dispatch_fault::<R>(v) == Some(DispatchFault::UnknownType(bare_of(v)->Ok_0.report_type)),
{
    let b = bare_of(v)->Ok_0;
    R::lemma_outcome_known(b.report_type, b.body);
}

/// An object without one of the five envelope fields fails as an envelope,
/// whatever the registry.
pub proof fn lemma_dispatch_missing_field<R: Registered>(v: serde_json::Value, k: Seq<char>)
    requires
        k == "age"@ || k == "url"@ || k == "user_agent"@ || k == "type"@ || k == "body"@,
        layer_of(v) matches Layer::Object(m) && !map_entries(m).contains_key(k),
    ensures
        dispatch_fault::<R>(v) matches Some(DispatchFault::Envelope(_)),
{
    lemma_missing_envelope_field(v, k);
}

/// Writing back a report read with a registry, as JSON, and reading it again
/// gives the same envelope, and a body that reads the same as the one it
/// holds, when the age is a whole number of milliseconds.
pub proof fn lemma_dispatch_round_trip<R: Registered>(
    x: Report<AnyBody>,
    first_body: serde_json::Value,
    v: serde_json::Value,
    w2: serde_json::Value,
)
    requires
        is_whole(x.age),
        R::rewrites(x@.body.tag, first_body, x@.body.body),
        writes_bare(any_bare(x@), v),
    ensures
        bare_of(v) == Ok::<BareView, Fault>(any_bare(x@)),
        dispatch_fault::<R>(v) is None,
        R::rewrites(x@.body.tag, x@.body.body, w2) ==> R::reads_same(x@.body.tag, x@.body.body, w2),
{
    let b = BareReport { age: x.age, url: x.url, user_agent: x.user_agent, report_type: x.body.tag, body: x.body.body };
    assert(b@ == any_bare(x@));
    lemma_bare_round_trip(b, v);
    R::lemma_rewrite_stable(x@.body.tag, first_body, x@.body.body, w2);
}

/// The bare report that a report read with a registry is written back as.
pub open spec fn any_bare(x: ReportView<AnyBodyView>) -> BareView {
    BareView { age: x.age, url: x.url, user_agent: x.user_agent, report_type: x.body.tag, body: x.body.body }
}

impl Report<AnyBody> {
    /// Writes a report read with a registry back as a bare one: its
    /// discriminator and its body as its type wrote it.
    pub fn into_bare(self) -> (r: BareReport)
        ensures
            r@ == any_bare(self@),
    {
        BareReport {
            age: self.age,
            url: self.url,
            user_agent: self.user_agent,
            report_type: self.body.tag,
            body: self.body.body,
        }
    }
}

} // verus!
