//! Replies as the routes send them: a status, a content type and body bytes.

use vstd::prelude::*;
use vstd::utf8::encode_utf8;
use crate::json::{json_object_of_string, json_object_text, json_string, json_string_text};

verus! {

pub const STATUS_OK: u16 = 200;

pub const STATUS_CREATED: u16 = 201;

pub const STATUS_BAD_REQUEST: u16 = 400;

pub const STATUS_UNAUTHORIZED: u16 = 401;

pub const STATUS_INTERNAL_SERVER_ERROR: u16 = 500;

/// The media type a reply declares.
#[derive(Clone, Copy, Debug, PartialEq, Eq, Structural)]
pub enum ContentType {
    /// `application/json`, as a JSON body declares itself.
    ApplicationJson,
    /// `application/octet-stream`, as raw bytes declare themselves.
    OctetStream,
    /// `application/pdf`.
    ApplicationPdf,
    /// `image/png`.
    ImagePng,
}

impl ContentType {
    /// The header value of the media type.
    pub fn as_str(&self) -> (r: &'static str)
        ensures
            r@ == content_type_text(*self),
    {
        match self {
            ContentType::ApplicationJson => "application/json",
            ContentType::OctetStream => "application/octet-stream",
            ContentType::ApplicationPdf => "application/pdf",
            ContentType::ImagePng => "image/png",
        }
    }
}

/// The header value of each media type.
pub open spec fn content_type_text(t: ContentType) -> Seq<char> {
    match t {
        ContentType::ApplicationJson => "application/json"@,
        ContentType::OctetStream => "application/octet-stream"@,
        ContentType::ApplicationPdf => "application/pdf"@,
        ContentType::ImagePng => "image/png"@,
    }
}

/// A reply: status code, content type and body.
#[derive(Debug)]
pub struct Reply {
    pub status: u16,
    pub content_type: ContentType,
    pub body: Vec<u8>,
}

/// The bytes of `{"message":"<message>"}`.
pub open spec fn message_json_bytes(message: Seq<char>) -> Seq<u8> {
    encode_utf8(json_object_text("message"@, message))
}

/// The bytes of a JSON string literal holding `s`.
pub open spec fn string_json_bytes(s: Seq<char>) -> Seq<u8> {
    encode_utf8(json_string_text(s))
}

/// `r` is the error reply `error_fmt(status, message)`: the status, and the
/// bytes of `{"message":"<message>"}` sent as raw bytes.
pub open spec fn is_error_reply(r: Reply, status: u16, message: Seq<char>) -> bool {
    &&& r.status == status
    &&& r.content_type == ContentType::OctetStream
    &&& r.body@ == message_json_bytes(message)
}

/// `r` is the JSON reply `{"message":"<message>"}` with the given status.
pub open spec fn is_message_reply(r: Reply, status: u16, message: Seq<char>) -> bool {
    &&& r.status == status
    &&& r.content_type == ContentType::ApplicationJson
    &&& r.body@ == message_json_bytes(message)
}

/// `r` is the JSON reply holding the string literal `text` with the given status.
pub open spec fn is_string_reply(r: Reply, status: u16, text: Seq<char>) -> bool {
    &&& r.status == status
    &&& r.content_type == ContentType::ApplicationJson
    &&& r.body@ == string_json_bytes(text)
}

fn utf8_bytes(s: &String) -> (b: Vec<u8>)
    ensures
        b@ == encode_utf8(s@),
{
    s.as_str().as_bytes_vec()
}

/// An error reply: the status and the bytes of `{"message":"<message>"}`.
pub fn error_fmt(status: u16, message: &str) -> (r: Reply)
    ensures
        is_error_reply(r, status, message@),
{
    let text = json_object_of_string("message", message);
    Reply { status, content_type: ContentType::OctetStream, body: utf8_bytes(&text) }
}

/// A JSON reply `{"message":"<message>"}` with the given status.
pub fn message_reply(status: u16, message: &str) -> (r: Reply)
    ensures
        is_message_reply(r, status, message@),
{
    let text = json_object_of_string("message", message);
    Reply { status, content_type: ContentType::ApplicationJson, body: utf8_bytes(&text) }
}

/// A JSON reply holding the string literal `text` with the given status.
pub fn string_reply(status: u16, text: &str) -> (r: Reply)
    ensures
        is_string_reply(r, status, text@),
{
    let body = json_string(text);
    Reply { status, content_type: ContentType::ApplicationJson, body: utf8_bytes(&body) }
}

} // verus!
