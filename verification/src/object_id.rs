//! Twelve-byte database identifiers and their 24-digit hexadecimal text form.

use vstd::prelude::*;

verus! {

/// An ASCII hexadecimal digit, in either case.
pub open spec fn is_hex_digit(c: char) -> bool {
    let v = c as int;
    (48 <= v <= 57) || (97 <= v <= 102) || (65 <= v <= 70)
}

/// The value of a hexadecimal digit.
pub open spec fn hex_digit_value(c: char) -> int {
    let v = c as int;
    if 48 <= v <= 57 {
        v - 48
    } else if 97 <= v <= 102 {
        v - 87
    } else {
        v - 55
    }
}

/// Text that names an identifier: exactly 24 hexadecimal digits.
pub open spec fn is_object_id_hex(s: Seq<char>) -> bool {
    &&& s.len() == 24
    &&& forall|i: int| 0 <= i < 24 ==> is_hex_digit(#[trigger] s[i])
}

/// The twelve bytes that 24 hexadecimal digits spell, two digits per byte,
/// high nibble first.
pub open spec fn object_id_bytes_of_hex(s: Seq<char>) -> Seq<u8> {
    Seq::new(12, |i: int| (hex_digit_value(s[2 * i]) * 16 + hex_digit_value(s[2 * i + 1])) as u8)
}

/// What parsing the text form of an identifier gives.
pub open spec fn spec_parse_object_id(s: Seq<char>) -> Option<Seq<u8>> {
    if is_object_id_hex(s) {
        Some(object_id_bytes_of_hex(s))
    } else {
        None
    }
}

/// Calls `bson::oid::ObjectId::parse_str`. It hex-decodes the bytes of the text
/// (either case accepted) and succeeds exactly when that gives twelve bytes,
/// which are returned; the contract states this over the text's characters.
#[verifier::external_body]
fn bson_parse_object_id(s: &str) -> (r: Option<[u8; 12]>)
    ensures
        match r {
            Some(b) => spec_parse_object_id(s@) == Some(b@),
            None => spec_parse_object_id(s@) is None,
        },
{
    match bson::oid::ObjectId::parse_str(s) {
        Ok(oid) => Some(oid.bytes()),
        Err(_) => None,
    }
}

/// Calls `bson::oid::ObjectId::new`, which draws on the clock, the process and
/// a counter; nothing is stated of the bytes it returns. It panics when the
/// system clock reads before 1970 or after 2106.
#[verifier::external_body]
fn bson_new_object_id() -> (r: [u8; 12]) {
    bson::oid::ObjectId::new().bytes()
}

/// A database identifier.
#[derive(Clone, Copy, Debug)]
pub struct ObjectId {
    pub bytes: [u8; 12],
}

impl View for ObjectId {
    type V = Seq<u8>;

    open spec fn view(&self) -> Seq<u8> {
        self.bytes@
    }
}

impl ObjectId {
    /// A fresh identifier.
    pub fn new() -> (id: ObjectId)
        ensures
            id@.len() == 12,
    {
        ObjectId { bytes: bson_new_object_id() }
    }

    /// The identifier made of the given bytes.
    pub fn from_bytes(bytes: [u8; 12]) -> (id: ObjectId)
        ensures
            id.bytes == bytes,
    {
        ObjectId { bytes }
    }

    /// Parses the 24-digit hexadecimal form of an identifier.
    pub fn parse_str(s: &str) -> (r: Option<ObjectId>)
        ensures
            match r {
                Some(id) => spec_parse_object_id(s@) == Some(id@),
                None => spec_parse_object_id(s@) is None,
            },
    {
        match bson_parse_object_id(s) {
            Some(bytes) => Some(ObjectId { bytes }),
            None => None,
        }
    }
}

} // verus!
