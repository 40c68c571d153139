//! The codec between typed values and JSON values.
//!
//! A type is [`Wire`] when it has a JSON encoding: a spec function from its
//! view to a [`Json`], a spec function back that names each failure, and the
//! two executable functions that compute them on `serde_json::Value`. The
//! helpers of this module read and write the members of a JSON object, and
//! carry the two policies for an absent value: left out, or written as `null`.

use vstd::prelude::*;
use crate::json::{Json, Members, json_of, json_seq, members_of, parsed, printed};

verus! {

/// Why a JSON value could not be decoded.
#[derive(Clone, Debug, PartialEq, Eq)]
pub enum DecodeError {
    /// A string that has to be one of a fixed vocabulary is none of them.
    UnknownVariant,
    /// A protected header does not carry exactly one of key and key identifier.
    MalformedEnvelope,
    /// A required member is missing, or a value has the wrong shape. `field`
    /// is the wire name of the offending member; it is empty where the
    /// document as a whole is at fault.
    SchemaMismatch { field: String },
    /// A value has the right shape and fails a constraint of its type.
    InvalidValue,
}

/// Why a value could not be encoded.
#[derive(Clone, Copy, Debug, PartialEq, Eq)]
pub enum EncodeError {
    /// The JSON printer reported an error.
    Printer,
}

/// The view of a [`DecodeError`].
pub ghost enum DecodeErrorView {
    UnknownVariant,
    MalformedEnvelope,
    SchemaMismatch { field: Seq<char> },
    InvalidValue,
}

impl DeepView for DecodeError {
    type V = DecodeErrorView;

    open spec fn deep_view(&self) -> DecodeErrorView {
        match self {
            DecodeError::UnknownVariant => DecodeErrorView::UnknownVariant,
            DecodeError::MalformedEnvelope => DecodeErrorView::MalformedEnvelope,
            DecodeError::SchemaMismatch { field } => DecodeErrorView::SchemaMismatch { field: field@ },
            DecodeError::InvalidValue => DecodeErrorView::InvalidValue,
        }
    }
}

/// The view of what a decoder returned.
pub open spec fn outcome<T: DeepView>(r: Result<T, DecodeError>) -> Result<T::V, DecodeErrorView> {
    match r {
        Ok(x) => Ok(x.deep_view()),
        Err(e) => Err(e.deep_view()),
    }
}

/// The failure that blames the member `field`.
pub open spec fn mismatch(field: Seq<char>) -> DecodeErrorView {
    DecodeErrorView::SchemaMismatch { field }
}

/// The failure that blames the value being decoded itself: a mismatch without
/// a member name. A reader of a member puts the member's name in.
pub open spec fn misshapen() -> DecodeErrorView {
    mismatch(Seq::empty())
}

/// A type with a JSON encoding.
pub trait Wire: DeepView + Sized {
    /// The values that survive a round trip. An extensible enumeration has
    /// values that do not: its catch-all variant holding a wire value that one
    /// of its named variants stands for.
    spec fn valid(v: Self::V) -> bool;

    /// The JSON value that a value is written as.
    spec fn to_json(v: Self::V) -> Json;

    /// The value that a JSON value is read as, or why it cannot be read.
    spec fn from_json(j: Json) -> Result<Self::V, DecodeErrorView>;

    fn to_value(&self) -> (r: serde_json::Value)
        ensures
            json_of(r) == Self::to_json(self.deep_view()),
    ;

    fn from_value(v: &serde_json::Value) -> (r: Result<Self, DecodeError>)
        ensures
            outcome(r) == Self::from_json(json_of(*v)),
    ;

    /// Decoding what was encoded gives the value back, for every valid value;
    /// and no value is written as `null`, which is how an absent one is.
    proof fn round_trip(v: Self::V)
        requires
            Self::valid(v),
        ensures
            Self::from_json(Self::to_json(v)) == Ok::<Self::V, DecodeErrorView>(v),
            !(Self::to_json(v) is Null),
    ;

    /// A decoder returns valid values only.
    proof fn decoded_is_valid(j: Json)
        ensures
            Self::from_json(j) matches Ok(v) ==> Self::valid(v),
    ;
}

/// The member of an object under a name, `None` where the value is no object
/// or has no such member.
pub open spec fn member_of(j: Json, key: Seq<char>) -> Option<Json> {
    match j {
        Json::Object(m) if m.contains_key(key) => Some(m[key]),
        _ => None,
    }
}

/// A result read from the member `key`: a failure that blames the value itself
/// now blames the member.
pub open spec fn named<T>(r: Result<T, DecodeErrorView>, key: Seq<char>) -> Result<
    T,
    DecodeErrorView,
> {
    match r {
        Err(DecodeErrorView::SchemaMismatch { field }) if field.len() == 0 => Err(mismatch(key)),
        _ => r,
    }
}

/// A member that has to be there: its value decoded, and a mismatch that names
/// it where it is missing.
pub open spec fn required<T: Wire>(j: Json, key: Seq<char>) -> Result<T::V, DecodeErrorView> {
    match member_of(j, key) {
        Some(x) => named(T::from_json(x), key),
        None => Err(mismatch(key)),
    }
}

/// A member that may be absent: `None` where it is missing or `null`, else its
/// value decoded.
pub open spec fn optional<T: Wire>(j: Json, key: Seq<char>) -> Result<Option<T::V>, DecodeErrorView> {
    match member_of(j, key) {
        None | Some(Json::Null) => Ok(None),
        Some(x) => match named(T::from_json(x), key) {
            Ok(v) => Ok(Some(v)),
            Err(e) => Err(e),
        },
    }
}

/// A JSON object with one more member, in place of the member of that name if
/// it had one. A value that is no object stays as it is.
pub open spec fn extended(j: Json, name: Seq<char>, x: Json) -> Json {
    match j {
        Json::Object(m) => Json::Object(m.insert(name, x)),
        other => other,
    }
}

/// Members with one more: the encoding of a value, under a name.
pub open spec fn with<T: Wire>(m: Members, key: Seq<char>, v: T::V) -> Members {
    m.insert(key, T::to_json(v))
}

/// The policy "left out when absent": a member for `Some`, nothing for `None`.
pub open spec fn with_optional<T: Wire>(m: Members, key: Seq<char>, v: Option<T::V>) -> Members {
    match v {
        Some(x) => m.insert(key, T::to_json(x)),
        None => m,
    }
}

/// The policy "always there": a member for `Some`, and the member with the
/// value `null` for `None`.
pub open spec fn with_nullable<T: Wire>(m: Members, key: Seq<char>, v: Option<T::V>) -> Members {
    match v {
        Some(x) => m.insert(key, T::to_json(x)),
        None => m.insert(key, Json::Null),
    }
}

/// A text decoded: parsed as JSON, then read as a `T`. A text that is no JSON
/// is a mismatch of the document as a whole.
pub open spec fn decode_text<T: Wire>(text: Seq<char>) -> Result<T::V, DecodeErrorView> {
    match parsed(text) {
        Some(j) => T::from_json(j),
        None => Err(misshapen()),
    }
}

/// A value encoded as text: its JSON value, printed.
pub open spec fn encode_text<T: Wire>(v: T::V) -> Option<Seq<char>> {
    printed(T::to_json(v))
}

/// The error that blames the value being decoded itself.
pub fn misshapen_error() -> (e: DecodeError)
    ensures
        e.deep_view() == misshapen(),
{
    DecodeError::SchemaMismatch { field: String::new() }
}

/// The error that blames the member `key`.
pub fn mismatch_error(key: &str) -> (e: DecodeError)
    ensures
        e.deep_view() == mismatch(key@),
{
    DecodeError::SchemaMismatch { field: key.to_owned() }
}

/// Puts the member's name into an error that blames the value itself.
pub fn name_error(e: DecodeError, key: &str) -> (r: DecodeError)
    ensures
        Err::<(), DecodeErrorView>(r.deep_view()) == named(
            Err::<(), DecodeErrorView>(e.deep_view()),
            key@,
        ),
{
    match e {
        DecodeError::SchemaMismatch { field } => {
            if field.as_str().is_empty() {
                mismatch_error(key)
            } else {
                DecodeError::SchemaMismatch { field }
            }
        },
        other => other,
    }
}

/// Reads a member that has to be there.
pub fn get_required<T: Wire>(v: &serde_json::Value, key: &str) -> (r: Result<T, DecodeError>)
    ensures
        outcome(r) == required::<T>(json_of(*v), key@),
{
    match crate::json::member(v, key) {
        Some(x) => match T::from_value(x) {
            Ok(t) => Ok(t),
            Err(e) => Err(name_error(e, key)),
        },
        None => Err(mismatch_error(key)),
    }
}

/// Reads a member that may be absent.
pub fn get_optional<T: Wire>(v: &serde_json::Value, key: &str) -> (r: Result<Option<T>, DecodeError>)
    ensures
        outcome(r) == optional::<T>(json_of(*v), key@),
{
    match crate::json::member(v, key) {
        Some(x) => {
            if x.is_null() {
                Ok(None)
            } else {
                match T::from_value(x) {
                    Ok(t) => Ok(Some(t)),
                    Err(e) => Err(name_error(e, key)),
                }
            }
        },
        None => Ok(None),
    }
}

/// Writes a member.
pub fn put<T: Wire>(m: &mut serde_json::Map<String, serde_json::Value>, key: &str, t: &T)
    ensures
        members_of(*final(m)) == with::<T>(members_of(*old(m)), key@, t.deep_view()),
{
    m.insert(key.to_owned(), t.to_value());
}

/// Writes a member under the policy "left out when absent".
pub fn put_optional<T: Wire>(
    m: &mut serde_json::Map<String, serde_json::Value>,
    key: &str,
    t: &Option<T>,
)
    ensures
        members_of(*final(m)) == with_optional::<T>(members_of(*old(m)), key@, t.deep_view()),
{
    match t {
        Some(x) => {
            m.insert(key.to_owned(), x.to_value());
        },
        None => {},
    }
}

/// Writes a member under the policy "always there".
pub fn put_nullable<T: Wire>(
    m: &mut serde_json::Map<String, serde_json::Value>,
    key: &str,
    t: &Option<T>,
)
    ensures
        members_of(*final(m)) == with_nullable::<T>(members_of(*old(m)), key@, t.deep_view()),
{
    match t {
        Some(x) => {
            m.insert(key.to_owned(), x.to_value());
        },
        None => {
            m.insert(key.to_owned(), crate::json::null());
        },
    }
}

/// Decodes a JSON text.
pub fn from_text<T: Wire>(text: &str) -> (r: Result<T, DecodeError>)
    ensures
        outcome(r) == decode_text::<T>(text@),
{
    match crate::json::parse(text) {
        Some(v) => T::from_value(&v),
        None => Err(misshapen_error()),
    }
}

/// Encodes a value as JSON text. The printer decides whether there is a text;
/// the value handed to it is the encoding of `t`.
pub fn to_text<T: Wire>(t: &T) -> (r: Result<String, EncodeError>)
    ensures
        match r {
            Ok(s) => encode_text::<T>(t.deep_view()) == Some(s@),
            Err(_) => encode_text::<T>(t.deep_view()) is None,
        },
{
    let v = t.to_value();
    match crate::json::print(&v) {
        Some(s) => Ok(s),
        None => Err(EncodeError::Printer),
    }
}

impl Wire for String {
    open spec fn valid(v: Seq<char>) -> bool {
        true
    }

    open spec fn to_json(v: Seq<char>) -> Json {
        Json::Str(v)
    }

    open spec fn from_json(j: Json) -> Result<Seq<char>, DecodeErrorView> {
        match j {
            Json::Str(s) => Ok(s),
            _ => Err(misshapen()),
        }
    }

    fn to_value(&self) -> (r: serde_json::Value) {
        crate::json::string(self.clone())
    }

    fn from_value(v: &serde_json::Value) -> (r: Result<Self, DecodeError>) {
        match v.as_str() {
            Some(s) => Ok(s.to_owned()),
            None => Err(misshapen_error()),
        }
    }

    proof fn round_trip(v: Seq<char>) {
    }

    proof fn decoded_is_valid(j: Json) {
    }
}

impl Wire for bool {
    open spec fn valid(v: bool) -> bool {
        true
    }

    open spec fn to_json(v: bool) -> Json {
        Json::Bool(v)
    }

    open spec fn from_json(j: Json) -> Result<bool, DecodeErrorView> {
        match j {
            Json::Bool(b) => Ok(b),
            _ => Err(misshapen()),
        }
    }

    fn to_value(&self) -> (r: serde_json::Value) {
        crate::json::boolean(*self)
    }

    fn from_value(v: &serde_json::Value) -> (r: Result<Self, DecodeError>) {
        match v.as_bool() {
            Some(b) => Ok(b),
            None => Err(misshapen_error()),
        }
    }

    proof fn round_trip(v: bool) {
    }

    proof fn decoded_is_valid(j: Json) {
    }
}

/// The values of a JSON array decoded in turn; the failure of the first value
/// that fails.
pub open spec fn decode_all<T: Wire>(items: Seq<Json>) -> Result<Seq<T::V>, DecodeErrorView>
    decreases items.len(),
{
    if items.len() == 0 {
        Ok(Seq::empty())
    } else {
        match decode_all::<T>(items.drop_last()) {
            Err(e) => Err(e),
            Ok(front) => match T::from_json(items.last()) {
                Ok(x) => Ok(front.push(x)),
                Err(e) => Err(e),
            },
        }
    }
}

/// The encodings of a sequence of values, in their order.
pub open spec fn encode_all<T: Wire>(v: Seq<T::V>) -> Seq<Json> {
    Seq::new(v.len(), |i: int| T::to_json(v[i]))
}

/// Decoding the encodings of valid values gives the values back.
pub proof fn lemma_decode_all_encode_all<T: Wire>(v: Seq<T::V>)
    requires
        forall|i: int| 0 <= i < v.len() ==> T::valid(#[trigger] v[i]),
    ensures
        decode_all::<T>(encode_all::<T>(v)) == Ok::<Seq<T::V>, DecodeErrorView>(v),
    decreases v.len(),
{
    if v.len() > 0 {
        let items = encode_all::<T>(v);
        assert(items.drop_last() =~= encode_all::<T>(v.drop_last()));
        lemma_decode_all_encode_all::<T>(v.drop_last());
        T::round_trip(v.last());
        assert(v.drop_last().push(v.last()) =~= v);
    } else {
        assert(v =~= Seq::empty());
    }
}

/// What was decoded from an array holds valid values only.
pub proof fn lemma_decode_all_valid<T: Wire>(items: Seq<Json>)
    ensures
        decode_all::<T>(items) matches Ok(v) ==> forall|i: int|
            0 <= i < v.len() ==> T::valid(#[trigger] v[i]),
    decreases items.len(),
{
    if items.len() > 0 {
        lemma_decode_all_valid::<T>(items.drop_last());
        T::decoded_is_valid(items.last());
    }
}

impl<T: Wire> Wire for Vec<T> {
    open spec fn valid(v: Seq<T::V>) -> bool {
        forall|i: int| 0 <= i < v.len() ==> T::valid(#[trigger] v[i])
    }

    open spec fn to_json(v: Seq<T::V>) -> Json {
        Json::Array(encode_all::<T>(v))
    }

    open spec fn from_json(j: Json) -> Result<Seq<T::V>, DecodeErrorView> {
        match j {
            Json::Array(items) => decode_all::<T>(items),
            _ => Err(misshapen()),
        }
    }

    fn to_value(&self) -> (r: serde_json::Value) {
        let mut items: Vec<serde_json::Value> = Vec::new();
        let mut i: usize = 0;
        while i < self.len()
            invariant
                i <= self.len(),
                items.len() == i,
                forall|k: int|
                    0 <= k < i ==> json_of(#[trigger] items[k]) == T::to_json(
                        self[k].deep_view(),
                    ),
            decreases self.len() - i,
        {
            items.push(self[i].to_value());
            i += 1;
        }
        assert(json_seq(items@) =~= encode_all::<T>(self.deep_view()));
        crate::json::array(items)
    }

    fn from_value(v: &serde_json::Value) -> (r: Result<Self, DecodeError>) {
        match v.as_array() {
            Some(a) => {
                let ghost items = json_seq(a@);
                let mut out: Vec<T> = Vec::new();
                let mut i: usize = 0;
                assert(out.deep_view() =~= Seq::empty());
                while i < a.len()
                    invariant
                        i <= a.len(),
                        items == json_seq(a@),
                        json_of(*v) == Json::Array(items),
                        decode_all::<T>(items.take(i as int)) == Ok::<Seq<T::V>, DecodeErrorView>(
                            out.deep_view(),
                        ),
                    decreases a.len() - i,
                {
                    proof {
                        assert(items.take(i + 1).drop_last() =~= items.take(i as int));
                        assert(items.take(i + 1).last() == json_of(a[i as int]));
                    }
                    let ghost before = out.deep_view();
                    match T::from_value(&a[i]) {
                        Ok(t) => {
                            out.push(t);
                            assert(out.deep_view() =~= before.push(t.deep_view()));
                        },
                        Err(e) => {
                            proof {
                                assert(decode_all::<T>(items.take(i + 1)) == Err::<
                                    Seq<T::V>,
                                    DecodeErrorView,
                                >(e.deep_view()));
                                lemma_decode_all_fails_on::<T>(items, i as int);
                            }
                            return Err(e);
                        },
                    }
                    i += 1;
                }
                assert(items.take(i as int) =~= items);
                Ok(out)
            },
            None => Err(misshapen_error()),
        }
    }

    proof fn round_trip(v: Seq<T::V>) {
        lemma_decode_all_encode_all::<T>(v);
    }

    proof fn decoded_is_valid(j: Json) {
        if let Json::Array(items) = j {
            lemma_decode_all_valid::<T>(items);
        }
    }
}

/// Where a front part of an array fails to decode, the array fails in the same way.
pub proof fn lemma_decode_all_fails_on<T: Wire>(items: Seq<Json>, i: int)
    requires
        0 <= i < items.len(),
        decode_all::<T>(items.take(i + 1)) is Err,
    ensures
        decode_all::<T>(items) == decode_all::<T>(items.take(i + 1)),
    decreases items.len() - i,
{
    if i + 1 < items.len() {
        assert(items.take(i + 2).drop_last() =~= items.take(i + 1));
        lemma_decode_all_fails_on::<T>(items, i + 1);
    } else {
        assert(items.take(i + 1) =~= items);
    }
}

} // verus!
