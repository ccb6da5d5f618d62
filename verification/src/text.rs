//! Text as it crosses the boundary between a host and a module: a pointer,
//! which may be null, and a length in bytes.

use vstd::prelude::*;
use vstd::string::*;
use vstd::utf8::*;

verus! {

/// `std::str::Utf8Error`, carried through unread.
#[verifier::external_type_specification]
#[verifier::external_body]
pub struct ExUtf8Error(std::str::Utf8Error);

/// `std::str::from_utf8` accepts exactly the bytes that are well-formed UTF-8,
/// and the text it answers is encoded by those very bytes.
pub assume_specification<'a>[ std::str::from_utf8 ](bytes: &'a [u8]) -> (read: Result<
    &'a str,
    std::str::Utf8Error,
>)
    ensures
        read is Ok <==> valid_utf8(bytes@),
        read matches Ok(text) ==> text.spec_bytes() == bytes@,
;

/// Text one side lends the other for a call.
#[derive(Clone, Copy, Debug)]
pub enum Str<'a> {
    /// A null pointer, with the length that came with it.
    Null { len: usize },
    /// Readable bytes.
    Bytes(&'a [u8]),
}

/// The characters of a text that may be missing.
pub open spec fn chars_of(text: Option<&str>) -> Option<Seq<char>> {
    match text {
        Some(text) => Some(text@),
        None => None,
    }
}

impl<'a> Str<'a> {
    /// The bytes lent, none where the pointer is null.
    pub open spec fn bytes(self) -> Seq<u8> {
        match self {
            Str::Null { .. } => Seq::empty(),
            Str::Bytes(bytes) => bytes@,
        }
    }

    /// What the bytes say, or `None` where they say nothing: nothing lent is
    /// the empty text whatever the pointer, a null pointer to some bytes is no
    /// text, and neither are bytes that are not UTF-8.
    pub open spec fn says(self) -> Option<Seq<char>> {
        match self {
            Str::Null { len } => if len == 0 {
                Some(Seq::empty())
            } else {
                None
            },
            Str::Bytes(bytes) => if valid_utf8(bytes@) {
                Some(decode_utf8(bytes@))
            } else {
                None
            },
        }
    }

    /// No text at all.
    #[must_use]
    pub fn empty() -> (text: Str<'a>)
        ensures
            text.bytes() == Seq::<u8>::empty(),
            text.says() == Some(Seq::<char>::empty()),
    {
        Str::Null { len: 0 }
    }
}

/// What a caller sent as text, or `None` when it is not UTF-8.
#[must_use]
pub fn text_of<'a>(text: Str<'a>) -> (read: Option<&'a str>)
    ensures
        chars_of(read) == text.says(),
{
    match text {
        Str::Null { len } => {
            if len == 0 {
                proof {
                    reveal_strlit("");
                }
                assert(""@ =~= Seq::<char>::empty());
                Some("")
            } else {
                None
            }
        },
        Str::Bytes(bytes) => {
            match std::str::from_utf8(bytes) {
                Ok(text) => {
                    proof {
                        encode_utf8_decode_utf8(text@);
                    }
                    Some(text)
                },
                Err(_) => None,
            }
        },
    }
}

/// `text`, lent.
#[must_use]
pub fn str_of<'a>(text: &'a str) -> (lent: Str<'a>)
    ensures
        lent.bytes() == text.spec_bytes(),
        lent.says() == Some(text@),
{
    proof {
        encode_utf8_valid_utf8(text@);
        encode_utf8_decode_utf8(text@);
    }
    Str::Bytes(text.as_bytes())
}

/// Whether two texts are the same.
#[must_use]
pub fn same(one: &str, other: &str) -> (answer: bool)
    ensures
        answer == (one@ == other@),
{
    proof {
        encode_utf8_decode_utf8(one@);
        encode_utf8_decode_utf8(other@);
    }
    let a = one.as_bytes();
    let b = other.as_bytes();
    if a.len() != b.len() {
        return false;
    }
    let mut at: usize = 0;
    while at < a.len()
        invariant
            a@ == one.spec_bytes(),
            b@ == other.spec_bytes(),
            a@.len() == b@.len(),
            at <= a@.len(),
            forall|k: int| 0 <= k < at ==> a@[k] == b@[k],
        decreases a@.len() - at,
    {
        if a[at] != b[at] {
            return false;
        }
        at = at + 1;
    }
    assert(a@ =~= b@);
    true
}

/// Text lent and read back is the text that was lent.
pub proof fn text_lent_is_read_back(text: Seq<char>)
    ensures
        valid_utf8(encode_utf8(text)),
        decode_utf8(encode_utf8(text)) == text,
{
    encode_utf8_valid_utf8(text);
    encode_utf8_decode_utf8(text);
}

/// Text read and lent on is made of the bytes it was read from.
pub proof fn text_read_is_lent_unchanged(lent: Str<'_>)
    requires
        lent.says() is Some,
    ensures
        encode_utf8(lent.says()->0) == lent.bytes(),
{
    match lent {
        Str::Null { .. } => {
            assert(encode_utf8(Seq::empty()) =~= Seq::<u8>::empty());
        },
        Str::Bytes(bytes) => {
            decode_utf8_encode_utf8(bytes@);
        },
    }
}

/// Nothing lent says the empty text, whatever the pointer; a null pointer to
/// some bytes says nothing; and bytes say something exactly when they are
/// UTF-8, namely the one text that those bytes encode.
pub proof fn text_is_read_exactly_where_it_is_utf8(lent: Str<'_>, read: Option<&str>)
    requires
        call_ensures(text_of, (lent,), read),
    ensures
        lent matches Str::Null { len } ==> (read is Some <==> len == 0),
        lent matches Str::Null { len } ==> (read matches Some(text) ==> text@.len() == 0),
        lent matches Str::Bytes(bytes) ==> (read is Some <==> valid_utf8(bytes@)),
        lent matches Str::Bytes(bytes) ==> (read matches Some(text) ==> encode_utf8(text@)
            == bytes@),
{
    if let Str::Bytes(bytes) = lent {
        if valid_utf8(bytes@) {
            decode_utf8_encode_utf8(bytes@);
        }
    }
}

/// Any text lent by one side is read by the other, the same text.
pub proof fn what_one_side_lends_the_other_reads(text: &str, lent: Str<'_>, read: Option<&str>)
    requires
        call_ensures(str_of, (text,), lent),
        call_ensures(text_of, (lent,), read),
    ensures
        read matches Some(back) && back@ == text@,
        lent.bytes() == encode_utf8(text@),
{
}

/// The bytes lent are the bytes behind the pointer, none where it is null.
pub proof fn what_is_lent_is_behind_the_pointer(bytes: &[u8], len: usize)
    ensures
        Str::Bytes(bytes).bytes() == bytes@,
        (Str::Null { len }).bytes().len() == 0,
{
}

/// What is empty says the empty text and lends no bytes.
pub proof fn what_is_empty_says_nothing(lent: Str<'_>, read: Option<&str>)
    requires
        call_ensures(Str::empty, (), lent),
        call_ensures(text_of, (lent,), read),
    ensures
        read matches Some(text) && text@.len() == 0,
        lent.bytes().len() == 0,
{
}

/// Two texts are the same exactly when they have as many characters and each
/// is the other's at its place.
pub proof fn the_same_text_has_the_same_characters(one: &str, other: &str, answer: bool)
    requires
        call_ensures(same, (one, other), answer),
    ensures
        answer <==> one@.len() == other@.len() && forall|k: int|
            0 <= k < one@.len() ==> #[trigger] one@[k] == other@[k],
{
    if one@.len() == other@.len() && (forall|k: int|
        0 <= k < one@.len() ==> #[trigger] one@[k] == other@[k]) {
        assert(one@ =~= other@);
    }
}

} // verus!
