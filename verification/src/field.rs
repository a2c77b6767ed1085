//! The members of a message resource, as the provider names them.

use vstd::prelude::*;

verus! {

/// What a member of a message resource must hold.
#[derive(Debug, Clone, Copy, PartialEq, Eq, Structural)]
pub enum Shape {
    /// A string, always present.
    Text,
    /// A string, `null`, or no member at all.
    OptionalText,
    /// An object whose members are all strings, always present.
    TextMap,
}

/// A member of a message resource, in the order in which a reply is read.
#[derive(Debug, Clone, Copy, PartialEq, Eq, Structural)]
pub enum Field {
    Sid,
    DateCreated,
    DateUpdated,
    DateSent,
    AccountSid,
    To,
    From,
    MessagingServiceSid,
    Body,
    Status,
    NumSegments,
    NumMedia,
    Direction,
    ApiVersion,
    Price,
    PriceUnit,
    ErrorCode,
    ErrorMessage,
    Uri,
    SubresourceUris,
}

impl Field {
    /// The key under which the provider sends this member.
    pub open spec fn spec_name(self) -> Seq<char> {
        match self {
            Field::Sid => "sid"@,
            Field::DateCreated => "date_created"@,
            Field::DateUpdated => "date_updated"@,
            Field::DateSent => "date_sent"@,
            Field::AccountSid => "account_sid"@,
            Field::To => "to"@,
            Field::From => "from"@,
            Field::MessagingServiceSid => "messaging_service_sid"@,
            Field::Body => "body"@,
            Field::Status => "status"@,
            Field::NumSegments => "num_segments"@,
            Field::NumMedia => "num_media"@,
            Field::Direction => "direction"@,
            Field::ApiVersion => "api_version"@,
            Field::Price => "price"@,
            Field::PriceUnit => "price_unit"@,
            Field::ErrorCode => "error_code"@,
            Field::ErrorMessage => "error_message"@,
            Field::Uri => "uri"@,
            Field::SubresourceUris => "subresource_uris"@,
        }
    }

    /// The key under which the provider sends this member.
    pub fn name(&self) -> (r: &'static str)
        ensures
            r@ == self.spec_name(),
    {
        match self {
            Field::Sid => "sid",
            Field::DateCreated => "date_created",
            Field::DateUpdated => "date_updated",
            Field::DateSent => "date_sent",
            Field::AccountSid => "account_sid",
            Field::To => "to",
            Field::From => "from",
            Field::MessagingServiceSid => "messaging_service_sid",
            Field::Body => "body",
            Field::Status => "status",
            Field::NumSegments => "num_segments",
            Field::NumMedia => "num_media",
            Field::Direction => "direction",
            Field::ApiVersion => "api_version",
            Field::Price => "price",
            Field::PriceUnit => "price_unit",
            Field::ErrorCode => "error_code",
            Field::ErrorMessage => "error_message",
            Field::Uri => "uri",
            Field::SubresourceUris => "subresource_uris",
        }
    }

    /// What this member must hold.
    pub open spec fn spec_shape(self) -> Shape {
        match self {
            Field::DateSent
            | Field::MessagingServiceSid
            | Field::Price
            | Field::ErrorCode
            | Field::ErrorMessage => Shape::OptionalText,
            Field::SubresourceUris => Shape::TextMap,
            _ => Shape::Text,
        }
    }
}

/// All members, in the order in which a reply is read: the first one that is
/// missing or ill-shaped is the one a decoding error reports.
pub open spec fn reading_order() -> Seq<Field> {
    seq![
        Field::Sid,
        Field::DateCreated,
        Field::DateUpdated,
        Field::DateSent,
        Field::AccountSid,
        Field::To,
        Field::From,
        Field::MessagingServiceSid,
        Field::Body,
        Field::Status,
        Field::NumSegments,
        Field::NumMedia,
        Field::Direction,
        Field::ApiVersion,
        Field::Price,
        Field::PriceUnit,
        Field::ErrorCode,
        Field::ErrorMessage,
        Field::Uri,
        Field::SubresourceUris,
    ]
}

} // verus!
