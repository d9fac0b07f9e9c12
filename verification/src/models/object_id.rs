use vstd::prelude::*;
use vstd::string::{StrSliceExecFns, StringExecFns};

use crate::utils::text::optional_text_view;

verus! {

/// The value of a hexadecimal digit, in either case.
pub open spec fn hex_value(c: char) -> Option<int> {
    if '0' as int <= c as int <= '9' as int {
        Some(c as int - '0' as int)
    } else if 'a' as int <= c as int <= 'f' as int {
        Some(c as int - 'a' as int + 10)
    } else if 'A' as int <= c as int <= 'F' as int {
        Some(c as int - 'A' as int + 10)
    } else {
        None
    }
}

/// `text` is the hexadecimal form of an identifier: 24 digits.
pub open spec fn is_object_id_text(text: Seq<char>) -> bool {
    &&& text.len() == 24
    &&& forall|i: int| 0 <= i < 24 ==> hex_value(#[trigger] text[i]) is Some
}

/// The twelve bytes that 24 hexadecimal digits stand for, two digits to a
/// byte, the higher first.
pub open spec fn object_id_bytes(text: Seq<char>) -> Seq<u8> {
    Seq::new(12, |i: int| (16 * hex_value(text[2 * i])->0 + hex_value(text[2 * i + 1])->0) as u8)
}

/// The lower-case hexadecimal digit of a value below 16.
pub open spec fn hex_digit(value: int) -> char {
    if value < 10 {
        ('0' as int + value) as char
    } else {
        ('a' as int + value - 10) as char
    }
}

/// The hexadecimal form of twelve bytes: two lower-case digits to a byte,
/// the higher first.
pub open spec fn object_id_text(bytes: Seq<u8>) -> Seq<char> {
    Seq::new(
        24,
        |i: int|
            if i % 2 == 0 {
                hex_digit(bytes[i / 2] as int / 16)
            } else {
                hex_digit(bytes[i / 2] as int % 16)
            },
    )
}

/// The hexadecimal form of twelve bytes is the text of an identifier, and
/// stands for those bytes.
pub proof fn lemma_hex_round_trip(bytes: Seq<u8>)
    requires
        bytes.len() == 12,
    ensures
        is_object_id_text(object_id_text(bytes)),
        object_id_bytes(object_id_text(bytes)) == bytes,
{
    let text = object_id_text(bytes);
    assert forall|i: int| 0 <= i < 24 implies hex_value(#[trigger] text[i]) is Some by {
        lemma_hex_digit_value(bytes[i / 2] as int / 16);
        lemma_hex_digit_value(bytes[i / 2] as int % 16);
    }
    assert forall|k: int| 0 <= k < 12 implies object_id_bytes(text)[k] == bytes[k] by {
        lemma_hex_digit_value(bytes[k] as int / 16);
        lemma_hex_digit_value(bytes[k] as int % 16);
        assert((2 * k) / 2 == k && (2 * k) % 2 == 0);
        assert((2 * k + 1) / 2 == k && (2 * k + 1) % 2 == 1);
        assert(text[2 * k] == hex_digit(bytes[k] as int / 16));
        assert(text[2 * k + 1] == hex_digit(bytes[k] as int % 16));
    }
    assert(object_id_bytes(text) =~= bytes);
}

/// The digit of a value below 16 has that value.
proof fn lemma_hex_digit_value(value: int)
    requires
        0 <= value < 16,
    ensures
        hex_value(hex_digit(value)) == Some(value),
{
}

/// The text is not the hexadecimal form of an identifier.
#[derive(Clone, Copy, Debug, PartialEq, Eq, Structural)]
pub struct InvalidObjectId;

/// The value of a hexadecimal digit, if `c` is one.
fn digit_value(c: char) -> (value: Option<u8>)
    ensures
        match value {
            Some(n) => n < 16 && hex_value(c) == Some(n as int),
            None => hex_value(c) is None,
        },
{
    if c >= '0' && c <= '9' {
        Some(c as u8 - 48)
    } else if c >= 'a' && c <= 'f' {
        Some(c as u8 - 87)
    } else if c >= 'A' && c <= 'F' {
        Some(c as u8 - 55)
    } else {
        None
    }
}

/// The lower-case hexadecimal digit of a value below 16, as a text.
fn digit_text(value: u8) -> (digit: &'static str)
    requires
        value < 16,
    ensures
        digit@ == seq![hex_digit(value as int)],
{
    proof {
        reveal_strlit("0123456789abcdef");
    }
    let digits = "0123456789abcdef";
    let position = value as usize;
    let digit = digits.substring_char(position, position + 1);
    proof {
        let v = value as int;
        assert(digits@[v] == hex_digit(v)) by {
            if v == 0 {
            } else if v == 1 {
            } else if v == 2 {
            } else if v == 3 {
            } else if v == 4 {
            } else if v == 5 {
            } else if v == 6 {
            } else if v == 7 {
            } else if v == 8 {
            } else if v == 9 {
            } else if v == 10 {
            } else if v == 11 {
            } else if v == 12 {
            } else if v == 13 {
            } else if v == 14 {
            } else {
            }
        }
        assert(digit@ =~= seq![hex_digit(v)]);
    }
    digit
}

/// The identifier of a stored record: twelve bytes.
#[derive(Clone, Copy, Debug, PartialEq, Eq)]
pub struct ObjectId {
    bytes: [u8; 12],
}

impl View for ObjectId {
    type V = Seq<u8>;

    closed spec fn view(&self) -> Seq<u8> {
        self.bytes@
    }
}

impl ObjectId {
    pub fn from_bytes(bytes: [u8; 12]) -> (id: ObjectId)
        ensures
            id@ == bytes@,
    {
        ObjectId { bytes }
    }

    pub fn bytes(&self) -> (bytes: [u8; 12])
        ensures
            bytes@ == self@,
    {
        self.bytes
    }

    /// Reads an identifier from its hexadecimal form: 24 digits, in either
    /// case.
    pub fn parse_str(text: &str) -> (r: Result<ObjectId, InvalidObjectId>)
        ensures
            match r {
                Ok(id) => is_object_id_text(text@) && id@ == object_id_bytes(text@),
                Err(_) => !is_object_id_text(text@),
            },
    {
        if text.unicode_len() != 24 {
            return Err(InvalidObjectId);
        }
        let mut bytes = [0u8; 12];
        let mut i: usize = 0;
        while i < 12
            invariant
                i <= 12,
                text@.len() == 24,
                forall|k: int| 0 <= k < 2 * i ==> hex_value(#[trigger] text@[k]) is Some,
                forall|k: int| 0 <= k < i ==> #[trigger] bytes@[k] == object_id_bytes(text@)[k],
            decreases 12 - i,
        {
            let high = match digit_value(text.get_char(2 * i)) {
                Some(value) => value,
                None => { return Err(InvalidObjectId); },
            };
            let low = match digit_value(text.get_char(2 * i + 1)) {
                Some(value) => value,
                None => { return Err(InvalidObjectId); },
            };
            bytes[i] = high * 16 + low;
            i += 1;
        }
        assert(bytes@ =~= object_id_bytes(text@));
        Ok(ObjectId { bytes })
    }

    /// The hexadecimal form of the identifier, in lower case, from which
    /// `parse_str` reads the identifier back.
    pub fn to_hex(&self) -> (text: String)
        ensures
            text@ == object_id_text(self@),
            is_object_id_text(text@),
            object_id_bytes(text@) == self@,
    {
        let mut text = String::new();
        let mut i: usize = 0;
        while i < 12
            invariant
                i <= 12,
                text@.len() == 2 * i,
                forall|k: int| 0 <= k < 2 * i ==> #[trigger] text@[k] == object_id_text(self@)[k],
            decreases 12 - i,
        {
            let byte = self.bytes[i];
            text.append(digit_text(byte / 16));
            text.append(digit_text(byte % 16));
            i += 1;
        }
        proof {
            assert(text@ =~= object_id_text(self@));
            lemma_hex_round_trip(self.bytes@);
        }
        text
    }
}

/// The hexadecimal form of an identifier, where there is one.
pub open spec fn optional_hex(id: Option<Seq<u8>>) -> Option<Seq<char>> {
    match id {
        Some(bytes) => Some(object_id_text(bytes)),
        None => None,
    }
}

/// The view of an optional identifier.
pub open spec fn optional_id_view(id: Option<ObjectId>) -> Option<Seq<u8>> {
    match id {
        Some(id) => Some(id@),
        None => None,
    }
}

/// The hexadecimal form of an identifier, where there is one.
pub fn to_optional_hex(id: &Option<ObjectId>) -> (text: Option<String>)
    ensures
        optional_text_view(text) == optional_hex(optional_id_view(*id)),
{
    match id {
        Some(id) => Some(id.to_hex()),
        None => None,
    }
}

} // verus!
