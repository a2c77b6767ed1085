//! The message resource that the provider answers with, and how a reply is
//! decoded into one.

use crate::error::{DecodeError, DecodeFailure, TWRSError};
use crate::field::{reading_order, Field, Shape};
use crate::json::{find_member, json_document, member_of, JsonValue};
use crate::text::{same_text, utf8_text};
use crate::uris::UriMap;
use vstd::prelude::*;
use vstd::std_specs::cmp::{PartialEqSpec, PartialEqSpecImpl};
use vstd::utf8::{decode_utf8, valid_utf8};

verus! {

/// A message resource as a mathematical value.
pub struct ReplyView {
    pub sid: Seq<char>,
    pub date_created: Seq<char>,
    pub date_updated: Seq<char>,
    pub date_sent: Option<Seq<char>>,
    pub account_sid: Seq<char>,
    pub to: Seq<char>,
    pub from: Seq<char>,
    pub messaging_service_sid: Option<Seq<char>>,
    pub body: Seq<char>,
    pub status: Seq<char>,
    pub num_segments: Seq<char>,
    pub num_media: Seq<char>,
    pub direction: Seq<char>,
    pub api_version: Seq<char>,
    pub price: Option<Seq<char>>,
    pub price_unit: Seq<char>,
    pub error_code: Option<Seq<char>>,
    pub error_message: Option<Seq<char>>,
    pub uri: Seq<char>,
    pub subresource_uris: Map<Seq<char>, Seq<char>>,
}

/// A message resource, as the provider describes it in its replies.
///
/// Two replies are equal when all their members are, the sub-resource links
/// compared as a map.
#[derive(Debug)]
pub struct TwilioReply {
    pub sid: String,
    pub date_created: String,
    pub date_updated: String,
    pub date_sent: Option<String>,
    pub account_sid: String,
    pub to: String,
    pub from: String,
    pub messaging_service_sid: Option<String>,
    pub body: String,
    pub status: String,
    pub num_segments: String,
    pub num_media: String,
    pub direction: String,
    pub api_version: String,
    pub price: Option<String>,
    pub price_unit: String,
    pub error_code: Option<String>,
    pub error_message: Option<String>,
    pub uri: String,
    pub subresource_uris: UriMap,
}

/// The characters of an optional string.
pub open spec fn optional_view(text: Option<String>) -> Option<Seq<char>> {
    match text {
        Some(s) => Some(s@),
        None => None,
    }
}

impl View for TwilioReply {
    type V = ReplyView;

    open spec fn view(&self) -> ReplyView {
        ReplyView {
            sid: self.sid@,
            date_created: self.date_created@,
            date_updated: self.date_updated@,
            date_sent: optional_view(self.date_sent),
            account_sid: self.account_sid@,
            to: self.to@,
            from: self.from@,
            messaging_service_sid: optional_view(self.messaging_service_sid),
            body: self.body@,
            status: self.status@,
            num_segments: self.num_segments@,
            num_media: self.num_media@,
            direction: self.direction@,
            api_version: self.api_version@,
            price: optional_view(self.price),
            price_unit: self.price_unit@,
            error_code: optional_view(self.error_code),
            error_message: optional_view(self.error_message),
            uri: self.uri@,
            subresource_uris: self.subresource_uris@,
        }
    }
}

/// Compares two optional strings character by character.
fn same_optional(a: &Option<String>, b: &Option<String>) -> (r: bool)
    ensures
        r == (optional_view(*a) == optional_view(*b)),
{
    match (a, b) {
        (Some(x), Some(y)) => same_text(x.as_str(), y.as_str()),
        (None, None) => true,
        _ => false,
    }
}

impl PartialEq for TwilioReply {
    fn eq(&self, other: &TwilioReply) -> (r: bool) {
        self.sid == other.sid
            && self.date_created == other.date_created
            && self.date_updated == other.date_updated
            && same_optional(&self.date_sent, &other.date_sent)
            && self.account_sid == other.account_sid
            && self.to == other.to
            && self.from == other.from
            && same_optional(&self.messaging_service_sid, &other.messaging_service_sid)
            && self.body == other.body
            && self.status == other.status
            && self.num_segments == other.num_segments
            && self.num_media == other.num_media
            && self.direction == other.direction
            && self.api_version == other.api_version
            && same_optional(&self.price, &other.price)
            && self.price_unit == other.price_unit
            && same_optional(&self.error_code, &other.error_code)
            && same_optional(&self.error_message, &other.error_message)
            && self.uri == other.uri
            && self.subresource_uris == other.subresource_uris
    }
}

impl Eq for TwilioReply {}

impl PartialEqSpecImpl for TwilioReply {
    open spec fn obeys_eq_spec() -> bool {
        true
    }

    open spec fn eq_spec(&self, other: &TwilioReply) -> bool {
        self@ == other@
    }
}

/// The map that the members of an object stand for, where every one of them
/// is a string; `None` where one is not.
pub open spec fn text_map(entries: Seq<(String, JsonValue)>) -> Option<Map<Seq<char>, Seq<char>>>
    decreases entries.len(),
{
    if entries.len() == 0 {
        Some(Map::empty())
    } else {
        match (text_map(entries.drop_last()), entries.last().1) {
            (Some(front), JsonValue::Text(uri)) => Some(front.insert(entries.last().0@, uri@)),
            _ => None,
        }
    }
}

/// Whether what stands under a key has the shape that the member must have.
pub open spec fn fits(member: Option<JsonValue>, shape: Shape) -> bool {
    match shape {
        Shape::Text => member matches Some(JsonValue::Text(_)),
        Shape::OptionalText => {
            ||| member is None
            ||| member == Some(JsonValue::Null)
            ||| member matches Some(JsonValue::Text(_))
        },
        Shape::TextMap => {
            &&& member matches Some(JsonValue::Object(inner))
            &&& text_map(inner@) is Some
        },
    }
}

/// What is wrong with one member of a reply, if anything.
pub open spec fn member_failure(
    entries: Seq<(String, JsonValue)>,
    field: Field,
) -> Option<DecodeFailure> {
    let member = member_of(entries, field.spec_name());
    if fits(member, field.spec_shape()) {
        None
    } else if member is None {
        Some(DecodeFailure::MissingField(field))
    } else {
        Some(DecodeFailure::MismatchedField(field))
    }
}

/// What is wrong with the first member, from position `from` of the reading
/// order on, that does not fit.
pub open spec fn first_failure(
    entries: Seq<(String, JsonValue)>,
    from: int,
) -> Option<DecodeFailure>
    decreases reading_order().len() - from,
{
    if from < 0 || from >= reading_order().len() {
        None
    } else {
        match member_failure(entries, reading_order()[from]) {
            Some(failure) => Some(failure),
            None => first_failure(entries, from + 1),
        }
    }
}

/// The string under a member's key.
pub open spec fn text_at(entries: Seq<(String, JsonValue)>, field: Field) -> Seq<char> {
    match member_of(entries, field.spec_name()) {
        Some(JsonValue::Text(text)) => text@,
        _ => Seq::empty(),
    }
}

/// The string under a member's key, where there is one.
pub open spec fn optional_text_at(
    entries: Seq<(String, JsonValue)>,
    field: Field,
) -> Option<Seq<char>> {
    match member_of(entries, field.spec_name()) {
        Some(JsonValue::Text(text)) => Some(text@),
        _ => None,
    }
}

/// The map under a member's key.
pub open spec fn text_map_at(
    entries: Seq<(String, JsonValue)>,
    field: Field,
) -> Map<Seq<char>, Seq<char>> {
    match member_of(entries, field.spec_name()) {
        Some(JsonValue::Object(inner)) => match text_map(inner@) {
            Some(map) => map,
            None => Map::empty(),
        },
        _ => Map::empty(),
    }
}

/// The message resource that the members of an object describe, where every
/// member fits.
pub open spec fn reply_of(entries: Seq<(String, JsonValue)>) -> ReplyView {
    ReplyView {
        sid: text_at(entries, Field::Sid),
        date_created: text_at(entries, Field::DateCreated),
        date_updated: text_at(entries, Field::DateUpdated),
        date_sent: optional_text_at(entries, Field::DateSent),
        account_sid: text_at(entries, Field::AccountSid),
        to: text_at(entries, Field::To),
        from: text_at(entries, Field::From),
        messaging_service_sid: optional_text_at(entries, Field::MessagingServiceSid),
        body: text_at(entries, Field::Body),
        status: text_at(entries, Field::Status),
        num_segments: text_at(entries, Field::NumSegments),
        num_media: text_at(entries, Field::NumMedia),
        direction: text_at(entries, Field::Direction),
        api_version: text_at(entries, Field::ApiVersion),
        price: optional_text_at(entries, Field::Price),
        price_unit: text_at(entries, Field::PriceUnit),
        error_code: optional_text_at(entries, Field::ErrorCode),
        error_message: optional_text_at(entries, Field::ErrorMessage),
        uri: text_at(entries, Field::Uri),
        subresource_uris: text_map_at(entries, Field::SubresourceUris),
    }
}

/// What decoding a JSON document gives: the message resource it describes,
/// or what is wrong with its first ill-fitting member. Members that a
/// message resource does not have are passed over.
pub open spec fn decode_document(doc: JsonValue) -> Result<ReplyView, DecodeFailure> {
    match doc {
        JsonValue::Object(entries) => match first_failure(entries@, 0) {
            Some(failure) => Err(failure),
            None => Ok(reply_of(entries@)),
        },
        _ => Err(DecodeFailure::NotAnObject),
    }
}

/// What decoding a text gives.
pub open spec fn decode_text(text: Seq<char>) -> Result<ReplyView, DecodeFailure> {
    match json_document(text) {
        Some(doc) => decode_document(doc),
        None => Err(DecodeFailure::Syntax),
    }
}

/// What decoding the bytes of a response gives.
pub open spec fn decode_bytes(bytes: Seq<u8>) -> Result<ReplyView, DecodeFailure> {
    if valid_utf8(bytes) {
        decode_text(decode_utf8(bytes))
    } else {
        Err(DecodeFailure::InvalidUtf8)
    }
}

/// Whether a result of decoding is the expected one: the same message
/// resource, or an error of the same kind.
pub open spec fn agrees(
    result: Result<TwilioReply, DecodeError>,
    expected: Result<ReplyView, DecodeFailure>,
) -> bool {
    match result {
        Ok(reply) => expected == Ok::<ReplyView, DecodeFailure>(reply@),
        Err(e) => expected == Err::<ReplyView, DecodeFailure>(e@),
    }
}

/// Decoding is all or nothing: a document decodes exactly when it is an
/// object in which every member of a message resource fits.
pub proof fn lemma_decodes_iff_every_member_fits(doc: JsonValue)
    ensures
        decode_document(doc) is Ok <==> {
            &&& doc matches JsonValue::Object(entries)
            &&& forall|field: Field| member_failure(entries@, field) is None
        },
{
    reveal_with_fuel(first_failure, 21);
    if let JsonValue::Object(entries) = doc {
        let order = reading_order();
        if first_failure(entries@, 0) is None {
            assert forall|field: Field| member_failure(entries@, field) is None by {
                lemma_every_member_is_read(field);
                let i = choose|i: int| 0 <= i < order.len() && order[i] == field;
                assert(member_failure(entries@, order[i]) is None);
            }
        }
    }
}

/// The reading order leaves no member out.
pub proof fn lemma_every_member_is_read(field: Field)
    ensures
        exists|i: int| 0 <= i < reading_order().len() && reading_order()[i] == field,
{
    let order = reading_order();
    let i: int = match field {
        Field::Sid => 0,
        Field::DateCreated => 1,
        Field::DateUpdated => 2,
        Field::DateSent => 3,
        Field::AccountSid => 4,
        Field::To => 5,
        Field::From => 6,
        Field::MessagingServiceSid => 7,
        Field::Body => 8,
        Field::Status => 9,
        Field::NumSegments => 10,
        Field::NumMedia => 11,
        Field::Direction => 12,
        Field::ApiVersion => 13,
        Field::Price => 14,
        Field::PriceUnit => 15,
        Field::ErrorCode => 16,
        Field::ErrorMessage => 17,
        Field::Uri => 18,
        Field::SubresourceUris => 19,
    };
    assert(0 <= i < order.len() && order[i] == field);
}

/// Where a document does not decode, the error tells what is wrong with the
/// first member, in reading order, that does not fit.
pub proof fn lemma_first_misfit_is_reported(entries: Seq<(String, JsonValue)>, i: int)
    requires
        0 <= i < reading_order().len(),
        member_failure(entries, reading_order()[i]) is Some,
        forall|j: int|
            0 <= j < i ==> member_failure(entries, #[trigger] reading_order()[j]) is None,
    ensures
        first_failure(entries, 0) == member_failure(entries, reading_order()[i]),
{
    lemma_first_failure_from(entries, i, 0);
}

/// The same, from any position of the reading order up to the misfit.
proof fn lemma_first_failure_from(entries: Seq<(String, JsonValue)>, i: int, from: int)
    requires
        0 <= from <= i < reading_order().len(),
        member_failure(entries, reading_order()[i]) is Some,
        forall|j: int|
            from <= j < i ==> member_failure(entries, #[trigger] reading_order()[j]) is None,
    ensures
        first_failure(entries, from) == member_failure(entries, reading_order()[i]),
    decreases i - from,
{
    if from < i {
        lemma_first_failure_from(entries, i, from + 1);
    }
}

/// Decoding is a function of the text. Whatever two calls of
/// [`TwilioReply::decode_str`] on the same text return, either both are a
/// message resource, and the two are equal, or both are an error of the same
/// kind.
pub proof fn lemma_decode_str_is_deterministic(
    text: Seq<char>,
    first: Result<TwilioReply, DecodeError>,
    second: Result<TwilioReply, DecodeError>,
)
    requires
        agrees(first, decode_text(text)),
        agrees(second, decode_text(text)),
    ensures
        match (first, second) {
            (Ok(a), Ok(b)) => PartialEqSpec::eq_spec(&a, &b),
            (Err(a), Err(b)) => a@ == b@,
            _ => false,
        },
{
}

/// Reads a member that must be a string.
fn read_text(entries: &Vec<(String, JsonValue)>, field: Field) -> (r: Result<String, DecodeError>)
    requires
        field.spec_shape() == Shape::Text,
    ensures
        match r {
            Ok(text) => {
                &&& member_failure(entries@, field) is None
                &&& text@ == text_at(entries@, field)
            },
            Err(e) => member_failure(entries@, field) == Some(e@),
        },
{
    match find_member(entries, field.name()) {
        Some(JsonValue::Text(text)) => Ok(text.clone()),
        Some(_) => Err(DecodeError::MismatchedField(field)),
        None => Err(DecodeError::MissingField(field)),
    }
}

/// Reads a member that may be a string, `null` or absent.
fn read_optional_text(
    entries: &Vec<(String, JsonValue)>,
    field: Field,
) -> (r: Result<Option<String>, DecodeError>)
    requires
        field.spec_shape() == Shape::OptionalText,
    ensures
        match r {
            Ok(text) => {
                &&& member_failure(entries@, field) is None
                &&& optional_view(text) == optional_text_at(entries@, field)
            },
            Err(e) => member_failure(entries@, field) == Some(e@),
        },
{
    match find_member(entries, field.name()) {
        Some(JsonValue::Text(text)) => Ok(Some(text.clone())),
        Some(JsonValue::Null) => Ok(None),
        Some(_) => Err(DecodeError::MismatchedField(field)),
        None => Ok(None),
    }
}

/// Collects the members of an object into a map, if all of them are strings.
fn collect_text_map(inner: &Vec<(String, JsonValue)>) -> (r: Option<UriMap>)
    ensures
        match r {
            Some(map) => text_map(inner@) == Some(map@),
            None => text_map(inner@) is None,
        },
{
    let mut map = UriMap::new();
    let mut i: usize = 0;
    assert(inner@.subrange(0, 0) =~= Seq::empty());
    while i < inner.len()
        invariant
            i <= inner.len(),
            text_map(inner@.subrange(0, i as int)) == Some(map@),
        decreases inner.len() - i,
    {
        proof {
            assert(inner@.subrange(0, i + 1).drop_last() =~= inner@.subrange(0, i as int));
        }
        match &inner[i].1 {
            JsonValue::Text(uri) => {
                map.insert(inner[i].0.clone(), uri.clone());
            },
            _ => {
                proof {
                    lemma_text_map_prefix(inner@, i + 1);
                }
                return None;
            },
        }
        i += 1;
    }
    assert(inner@.subrange(0, i as int) =~= inner@);
    Some(map)
}

/// Where a prefix of the members holds something other than a string, so do
/// all the members.
proof fn lemma_text_map_prefix(entries: Seq<(String, JsonValue)>, n: int)
    requires
        0 <= n <= entries.len(),
        text_map(entries.subrange(0, n)) is None,
    ensures
        text_map(entries) is None,
    decreases entries.len() - n,
{
    if n < entries.len() {
        assert(entries.subrange(0, n + 1).drop_last() =~= entries.subrange(0, n));
        lemma_text_map_prefix(entries, n + 1);
    } else {
        assert(entries.subrange(0, n) =~= entries);
    }
}

/// Reads a member that must be an object of strings.
fn read_text_map(
    entries: &Vec<(String, JsonValue)>,
    field: Field,
) -> (r: Result<UriMap, DecodeError>)
    requires
        field.spec_shape() == Shape::TextMap,
    ensures
        match r {
            Ok(map) => {
                &&& member_failure(entries@, field) is None
                &&& map@ == text_map_at(entries@, field)
            },
            Err(e) => member_failure(entries@, field) == Some(e@),
        },
{
    match find_member(entries, field.name()) {
        Some(JsonValue::Object(inner)) => match collect_text_map(inner) {
            Some(map) => Ok(map),
            None => Err(DecodeError::MismatchedField(field)),
        },
        Some(_) => Err(DecodeError::MismatchedField(field)),
        None => Err(DecodeError::MissingField(field)),
    }
}

impl TwilioReply {
    /// Reads a message resource out of a JSON document.
    ///
    /// The document must be an object. Its members are read in the order of
    /// [`reading_order`]; the first one that is missing or holds something
    /// other than it must is reported. Members that a message resource does
    /// not have are passed over.
    pub fn from_document(doc: &JsonValue) -> (r: Result<TwilioReply, DecodeError>)
        ensures
            agrees(r, decode_document(*doc)),
    {
        let entries = match doc {
            JsonValue::Object(entries) => entries,
            _ => {
                return Err(DecodeError::NotAnObject);
            },
        };
        proof {
            reveal_with_fuel(first_failure, 21);
        }
        let sid = read_text(entries, Field::Sid)?;
        let date_created = read_text(entries, Field::DateCreated)?;
        let date_updated = read_text(entries, Field::DateUpdated)?;
        let date_sent = read_optional_text(entries, Field::DateSent)?;
        let account_sid = read_text(entries, Field::AccountSid)?;
        let to = read_text(entries, Field::To)?;
        let from = read_text(entries, Field::From)?;
        let messaging_service_sid = read_optional_text(entries, Field::MessagingServiceSid)?;
        let body = read_text(entries, Field::Body)?;
        let status = read_text(entries, Field::Status)?;
        let num_segments = read_text(entries, Field::NumSegments)?;
        let num_media = read_text(entries, Field::NumMedia)?;
        let direction = read_text(entries, Field::Direction)?;
        let api_version = read_text(entries, Field::ApiVersion)?;
        let price = read_optional_text(entries, Field::Price)?;
        let price_unit = read_text(entries, Field::PriceUnit)?;
        let error_code = read_optional_text(entries, Field::ErrorCode)?;
        let error_message = read_optional_text(entries, Field::ErrorMessage)?;
        let uri = read_text(entries, Field::Uri)?;
        let subresource_uris = read_text_map(entries, Field::SubresourceUris)?;
        Ok(
            TwilioReply {
                sid,
                date_created,
                date_updated,
                date_sent,
                account_sid,
                to,
                from,
                messaging_service_sid,
                body,
                status,
                num_segments,
                num_media,
                direction,
                api_version,
                price,
                price_unit,
                error_code,
                error_message,
                uri,
                subresource_uris,
            },
        )
    }

    /// Decodes a reply from its text.
    pub fn decode_str(response: &str) -> (r: Result<TwilioReply, DecodeError>)
        ensures
            agrees(r, decode_text(response@)),
    {
        match JsonValue::parse(response) {
            Ok(doc) => TwilioReply::from_document(&doc),
            Err(e) => Err(DecodeError::Syntax(e)),
        }
    }

    /// Decodes a reply from the bytes of a response body.
    pub fn decode(body: &[u8]) -> (r: Result<TwilioReply, TWRSError>)
        ensures
            match r {
                Ok(reply) => decode_bytes(body@) == Ok::<ReplyView, DecodeFailure>(reply@),
                Err(e) => {
                    &&& e matches TWRSError::URLDecodeFailure(cause)
                    &&& decode_bytes(body@) == Err::<ReplyView, DecodeFailure>(cause@)
                },
            },
    {
        match utf8_text(body) {
            Some(text) => match TwilioReply::decode_str(text) {
                Ok(reply) => Ok(reply),
                Err(e) => Err(TWRSError::URLDecodeFailure(e)),
            },
            None => Err(TWRSError::URLDecodeFailure(DecodeError::InvalidUtf8)),
        }
    }
}

} // verus!
