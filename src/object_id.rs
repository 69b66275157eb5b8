use vstd::prelude::*;

verus! {

/// Whether `c` is a hexadecimal digit, in either case.
pub open spec fn is_hex_digit(c: char) -> bool {
    ('0' <= c && c <= '9') || ('a' <= c && c <= 'f') || ('A' <= c && c <= 'F')
}

/// The value of a hexadecimal digit.
pub open spec fn hex_value(c: char) -> int {
    if '0' <= c && c <= '9' {
        c as int - '0' as int
    } else if 'a' <= c && c <= 'f' {
        c as int - 'a' as int + 10
    } else {
        c as int - 'A' as int + 10
    }
}

/// The lower-case hexadecimal digit of a value below 16.
pub open spec fn hex_char(v: int) -> char {
    if v < 10 {
        (v + '0' as int) as char
    } else {
        (v - 10 + 'a' as int) as char
    }
}

/// Whether `s` is the text of an identifier: 24 hexadecimal digits.
pub open spec fn is_id_text(s: Seq<char>) -> bool {
    s.len() == 24 && forall|i: int| 0 <= i < 24 ==> #[trigger] is_hex_digit(s[i])
}

/// The 12 bytes that the text of an identifier stands for, two digits each,
/// the high half first.
pub open spec fn id_bytes_of(s: Seq<char>) -> Seq<u8> {
    Seq::new(12, |i: int| (16 * hex_value(s[2 * i]) + hex_value(s[2 * i + 1])) as u8)
}

/// The text of 12 bytes: two lower-case digits for each, the high half first.
pub open spec fn id_text_of(b: Seq<u8>) -> Seq<char> {
    Seq::new(
        24,
        |i: int|
            if i % 2 == 0 {
                hex_char(b[i / 2] as int / 16)
            } else {
                hex_char(b[i / 2] as int % 16)
            },
    )
}

/// The identifier the collection gives a stored question: 12 bytes.
#[derive(Clone, Copy, Debug, PartialEq, Eq)]
pub struct QuestionId {
    pub bytes: [u8; 12],
}

impl View for QuestionId {
    type V = Seq<u8>;

    open spec fn view(&self) -> Seq<u8> {
        self.bytes@
    }
}

/// Relies on bson's `ObjectId::parse_str`, which decodes 24 hexadecimal digits
/// of either case into 12 bytes and refuses any other text, and on
/// `ObjectId::bytes`, which hands those bytes back.
#[verifier::external_body]
fn parse_object_id(s: &str) -> (r: Option<[u8; 12]>)
    ensures
        r.is_some() <==> is_id_text(s@),
        r.is_some() ==> r.unwrap()@ == id_bytes_of(s@),
{
    mongodb::bson::oid::ObjectId::parse_str(s).ok().map(|o| o.bytes())
}

/// Relies on bson's `ObjectId::to_hex`, which is `hex::encode` of the 12
/// bytes: two lower-case digits for each.
#[verifier::external_body]
fn object_id_hex(bytes: [u8; 12]) -> (r: String)
    ensures
        r@ == id_text_of(bytes@),
{
    mongodb::bson::oid::ObjectId::from_bytes(bytes).to_hex()
}

impl QuestionId {
    /// Reads the text form of an identifier; `None` where it is not 24
    /// hexadecimal digits.
    pub fn parse(s: &str) -> (r: Option<QuestionId>)
        ensures
            r.is_some() <==> is_id_text(s@),
            r.is_some() ==> r.unwrap()@ == id_bytes_of(s@),
    {
        match parse_object_id(s) {
            Some(bytes) => Some(QuestionId { bytes }),
            None => None,
        }
    }

    /// The text form of the identifier, as it travels in paths and documents.
    pub fn to_hex(&self) -> (r: String)
        ensures
            r@ == id_text_of(self@),
    {
        object_id_hex(self.bytes)
    }
}

/// Any 12 bytes written as text read back as the same bytes.
pub proof fn lemma_id_text_round_trip(b: Seq<u8>)
    requires
        b.len() == 12,
    ensures
        is_id_text(id_text_of(b)),
        id_bytes_of(id_text_of(b)) == b,
{
    let t = id_text_of(b);
    assert forall|i: int| 0 <= i < 24 implies #[trigger] is_hex_digit(t[i]) && hex_value(t[i]) == (
    if i % 2 == 0 {
        b[i / 2] as int / 16
    } else {
        b[i / 2] as int % 16
    }) by {
        let v = if i % 2 == 0 {
            b[i / 2] as int / 16
        } else {
            b[i / 2] as int % 16
        };
        assert(0 <= v < 16);
    }
    assert forall|i: int| 0 <= i < 12 implies #[trigger] id_bytes_of(t)[i] == b[i] by {
        assert((2 * i) % 2 == 0 && (2 * i) / 2 == i);
        assert((2 * i + 1) % 2 == 1 && (2 * i + 1) / 2 == i);
        let x = b[i] as int;
        assert(16 * (x / 16) + x % 16 == x);
    }
    assert(id_bytes_of(t) =~= b);
}

} // verus!
