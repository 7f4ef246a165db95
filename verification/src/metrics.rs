//! Helpers for recording metrics: recorder traits, and label values that
//! read as "unknown" where they are missing.

use crate::strng::{share, strng_chars, RichStrng, Strng};
use vstd::prelude::*;
use vstd::std_specs::convert::FromSpecImpl;

verus! {

/// `prometheus_client::registry::Registry`, carried as it is.
#[verifier::external_type_specification]
#[verifier::external_body]
pub struct ExRegistry(prometheus_client::registry::Registry);

/// `tracing::field::DisplayValue`, carried as it is.
#[verifier::external_type_specification]
#[verifier::external_body]
#[verifier::reject_recursive_types(T)]
pub struct ExDisplayValue<T: core::fmt::Display>(tracing::field::DisplayValue<T>);

/// Creates a metrics sub registry for agentgateway.
///
/// Trusted: `Registry::sub_registry_with_prefix` adds a sub-registry whose
/// metrics carry the given prefix, and returns it. Nothing is claimed of the
/// registry.
#[verifier::external_body]
pub fn sub_registry(registry: &mut prometheus_client::registry::Registry) -> (r:
    &mut prometheus_client::registry::Registry) {
    registry.sub_registry_with_prefix("agentgateway")
}

/// The value that records `text` the way it is displayed.
pub uninterp spec fn shown(text: Seq<char>) -> tracing::field::DisplayValue<&'static str>;

/// A text as a value that is recorded the way it is displayed.
///
/// Trusted: `tracing::field::display` wraps its argument and does nothing
/// else, so the value is a function of the text, which is what it shows.
#[verifier::external_body]
fn displayed<'a>(s: &'a str) -> (r: tracing::field::DisplayValue<&'a str>)
    ensures
        r == shown(s@),
{
    tracing::field::display(s)
}

/// Something that an event with a piece of data can be recorded on.
pub trait Recorder<E, T> {
    /// Record the given event
    fn record(&self, event: E, meta: T);
}

/// Something that an event can be counted on.
pub trait IncrementRecorder<E>: Recorder<E, u64> {
    /// Record the given event by incrementing the counter by count
    fn increment(&self, event: E);
}

impl<E, R> IncrementRecorder<E> for R where R: Recorder<E, u64> {
    /// Counts the event once.
    fn increment(&self, event: E) {
        self.record(event, 1);
    }
}

/// A wrapper around an `Option` that encodes as "unknown" when missing,
/// rather than "".
#[derive(Hash, PartialEq, Eq, Clone, Debug)]
pub struct DefaultedUnknown<T>(Option<T>);

impl<T> DefaultedUnknown<T> {
    /// The wrapped option.
    pub closed spec fn value(&self) -> Option<T> {
        self.0
    }

    pub fn inner(self) -> (r: Option<T>)
        ensures
            r == self.value(),
    {
        self.0
    }

    pub fn as_ref(&self) -> (r: Option<&T>)
        ensures
            match r {
                Some(v) => self.value() == Some(*v),
                None => self.value().is_none(),
            },
    {
        self.0.as_ref()
    }
}

impl<T> Default for DefaultedUnknown<T> {
    fn default() -> (r: Self)
        ensures
            r.value().is_none(),
    {
        Self(None)
    }
}

impl From<String> for DefaultedUnknown<String> {
    /// An empty string counts as missing.
    fn from(t: String) -> (r: Self)
        ensures
            r.value() == if t@.len() == 0 {
                None
            } else {
                Some(t)
            },
    {
        if t.as_str().is_empty() {
            DefaultedUnknown(None)
        } else {
            DefaultedUnknown(Some(t))
        }
    }
}

impl FromSpecImpl<String> for DefaultedUnknown<String> {
    open spec fn obeys_from_spec() -> bool {
        true
    }

    closed spec fn from_spec(v: String) -> Self {
        DefaultedUnknown(
            if v@.len() == 0 {
                None
            } else {
                Some(v)
            },
        )
    }
}

impl<T> From<Option<T>> for DefaultedUnknown<T> {
    fn from(t: Option<T>) -> (r: Self)
        ensures
            r.value() == t,
    {
        DefaultedUnknown(t)
    }
}

impl<T> FromSpecImpl<Option<T>> for DefaultedUnknown<T> {
    open spec fn obeys_from_spec() -> bool {
        true
    }

    closed spec fn from_spec(v: Option<T>) -> Self {
        DefaultedUnknown(v)
    }
}

impl<T> From<DefaultedUnknown<T>> for Option<T> {
    fn from(val: DefaultedUnknown<T>) -> (r: Self) {
        val.0
    }
}

impl<T> FromSpecImpl<DefaultedUnknown<T>> for Option<T> {
    open spec fn obeys_from_spec() -> bool {
        true
    }

    open spec fn from_spec(v: DefaultedUnknown<T>) -> Self {
        v.value()
    }
}

impl DefaultedUnknown<RichStrng> {
    /// The wrapped text.
    pub open spec fn text(&self) -> Option<Seq<char>> {
        match self.value() {
            Some(rs) => Some(rs@),
            None => None,
        }
    }

    /// The text as a value for a log field, where there is one.
    pub fn display(&self) -> (r: Option<tracing::field::DisplayValue<&str>>)
        ensures
            r == match self.text() {
                Some(text) => Some(shown(text)),
                None => None,
            },
    {
        match &self.0 {
            Some(rs) => Some(displayed(rs.as_str())),
            None => None,
        }
    }

    /// The text, where there is one.
    pub fn to_value(&self) -> (r: Option<&str>)
        ensures
            match r {
                Some(s) => self.text() == Some(s@),
                None => self.text().is_none(),
            },
    {
        match &self.0 {
            Some(rs) => Some(rs.as_str()),
            None => None,
        }
    }

    /// Wraps a text; an empty one counts as missing.
    pub fn from_str(t: &str) -> (r: Self)
        ensures
            r.text() == if t@.len() == 0 {
                None
            } else {
                Some(t@)
            },
    {
        if t.is_empty() {
            DefaultedUnknown(None)
        } else {
            DefaultedUnknown(Some(RichStrng::from_str(t)))
        }
    }
}

impl From<RichStrng> for DefaultedUnknown<RichStrng> {
    /// An empty string counts as missing.
    fn from(t: RichStrng) -> (r: Self)
        ensures
            r.value() == if t@.len() == 0 {
                None
            } else {
                Some(t)
            },
    {
        if t.is_empty() {
            DefaultedUnknown(None)
        } else {
            DefaultedUnknown(Some(t))
        }
    }
}

impl FromSpecImpl<RichStrng> for DefaultedUnknown<RichStrng> {
    open spec fn obeys_from_spec() -> bool {
        true
    }

    closed spec fn from_spec(v: RichStrng) -> Self {
        DefaultedUnknown(
            if v@.len() == 0 {
                None
            } else {
                Some(v)
            },
        )
    }
}

impl From<String> for DefaultedUnknown<RichStrng> {
    /// An empty string counts as missing.
    fn from(t: String) -> (r: Self)
        ensures
            r.text() == if t@.len() == 0 {
                None
            } else {
                Some(t@)
            },
    {
        Self::from_str(t.as_str())
    }
}

impl FromSpecImpl<String> for DefaultedUnknown<RichStrng> {
    open spec fn obeys_from_spec() -> bool {
        false
    }

    open spec fn from_spec(v: String) -> Self {
        arbitrary()
    }
}

impl From<Strng> for DefaultedUnknown<RichStrng> {
    /// An empty string counts as missing.
    fn from(t: Strng) -> (r: Self)
        ensures
            r.value() == if strng_chars(t).len() == 0 {
                None
            } else {
                Some(RichStrng(t))
            },
    {
        let rs = RichStrng::from_strng(t);
        if rs.is_empty() {
            DefaultedUnknown(None)
        } else {
            DefaultedUnknown(Some(rs))
        }
    }
}

impl FromSpecImpl<Strng> for DefaultedUnknown<RichStrng> {
    open spec fn obeys_from_spec() -> bool {
        true
    }

    closed spec fn from_spec(v: Strng) -> Self {
        DefaultedUnknown(
            if strng_chars(v).len() == 0 {
                None
            } else {
                Some(RichStrng(v))
            },
        )
    }
}

impl From<Option<Strng>> for DefaultedUnknown<RichStrng> {
    /// Keeps the string as it is, also where it is empty.
    fn from(t: Option<Strng>) -> (r: Self)
        ensures
            r.value() == match t {
                Some(s) => Some(RichStrng(s)),
                None => None,
            },
    {
        match t {
            Some(s) => DefaultedUnknown(Some(RichStrng::from_strng(s))),
            None => DefaultedUnknown(None),
        }
    }
}

impl FromSpecImpl<Option<Strng>> for DefaultedUnknown<RichStrng> {
    open spec fn obeys_from_spec() -> bool {
        true
    }

    closed spec fn from_spec(v: Option<Strng>) -> Self {
        DefaultedUnknown(
            match v {
                Some(s) => Some(RichStrng(s)),
                None => None,
            },
        )
    }
}

impl<'a> From<Option<&'a Strng>> for DefaultedUnknown<RichStrng> {
    /// Shares the string as it is, also where it is empty.
    fn from(t: Option<&'a Strng>) -> (r: Self)
        ensures
            r.text() == match t {
                Some(s) => Some(strng_chars(*s)),
                None => None,
            },
    {
        match t {
            Some(s) => DefaultedUnknown(Some(RichStrng::from_strng(share(s)))),
            None => DefaultedUnknown(None),
        }
    }
}

impl<'a> FromSpecImpl<Option<&'a Strng>> for DefaultedUnknown<RichStrng> {
    open spec fn obeys_from_spec() -> bool {
        false
    }

    open spec fn from_spec(v: Option<&'a Strng>) -> Self {
        arbitrary()
    }
}

impl<'a> From<&'a Option<Strng>> for DefaultedUnknown<RichStrng> {
    /// Shares the string as it is, also where it is empty.
    fn from(t: &'a Option<Strng>) -> (r: Self)
        ensures
            r.text() == match *t {
                Some(s) => Some(strng_chars(s)),
                None => None,
            },
    {
        match t {
            Some(s) => DefaultedUnknown(Some(RichStrng::from_strng(share(s)))),
            None => DefaultedUnknown(None),
        }
    }
}

impl<'a> FromSpecImpl<&'a Option<Strng>> for DefaultedUnknown<RichStrng> {
    open spec fn obeys_from_spec() -> bool {
        false
    }

    open spec fn from_spec(v: &'a Option<Strng>) -> Self {
        arbitrary()
    }
}

/// A wrapper around a type that is encoded the way it is displayed.
#[derive(Hash, PartialEq, Eq, Clone, Debug)]
pub struct EncodeDisplay<T>(T);

impl<T> EncodeDisplay<T> {
    /// The wrapped value.
    pub closed spec fn value(&self) -> T {
        self.0
    }
}

impl<T: core::fmt::Display> From<T> for EncodeDisplay<T> {
    fn from(value: T) -> (r: Self)
        ensures
            r.value() == value,
    {
        EncodeDisplay(value)
    }
}

impl<T: core::fmt::Display> FromSpecImpl<T> for EncodeDisplay<T> {
    open spec fn obeys_from_spec() -> bool {
        true
    }

    closed spec fn from_spec(v: T) -> Self {
        EncodeDisplay(v)
    }
}

impl<T: core::fmt::Display> From<Option<T>> for DefaultedUnknown<EncodeDisplay<T>> {
    fn from(t: Option<T>) -> (r: Self)
        ensures
            match t {
                Some(v) => r.value() matches Some(e) && e.value() == v,
                None => r.value().is_none(),
            },
    {
        match t {
            Some(v) => DefaultedUnknown(Some(EncodeDisplay(v))),
            None => DefaultedUnknown(None),
        }
    }
}

impl<T: core::fmt::Display> FromSpecImpl<Option<T>> for DefaultedUnknown<EncodeDisplay<T>> {
    open spec fn obeys_from_spec() -> bool {
        true
    }

    closed spec fn from_spec(v: Option<T>) -> Self {
        DefaultedUnknown(
            match v {
                Some(v) => Some(EncodeDisplay(v)),
                None => None,
            },
        )
    }
}

/// A value that can stand as the value of a label.
pub trait EncodeLabel {
    /// Whether `s` is a text under which the value can be encoded.
    spec fn is_label(&self, s: Seq<char>) -> bool;

    /// The text under which the value is encoded.
    fn label(&self) -> (r: String)
        ensures
            self.is_label(r@),
    ;
}

impl EncodeLabel for RichStrng {
    /// A string is encoded as its own text.
    open spec fn is_label(&self, s: Seq<char>) -> bool {
        s == self@
    }

    fn label(&self) -> (r: String) {
        self.as_str().to_owned()
    }
}

impl<T: core::fmt::Display> EncodeLabel for EncodeDisplay<T> {
    /// The value is encoded as it is displayed.
    closed spec fn is_label(&self, s: Seq<char>) -> bool {
        exists|r: String| r@ == s && vstd::string::to_string_from_display_ensures::<T>(&self.0, r)
    }

    fn label(&self) -> (r: String) {
        self.0.to_string()
    }
}

impl<T: EncodeLabel> EncodeLabel for DefaultedUnknown<T> {
    /// A missing value is encoded as "unknown", any other as itself.
    open spec fn is_label(&self, s: Seq<char>) -> bool {
        match self.value() {
            Some(v) => v.is_label(s),
            None => s == "unknown"@,
        }
    }

    fn label(&self) -> (r: String) {
        match &self.0 {
            Some(v) => v.label(),
            None => "unknown".to_owned(),
        }
    }
}

} // verus!
