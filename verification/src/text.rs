//! The foreign text codec: from the bytes of C strings to owned text.
//!
//! A text arrives as the bytes that stand before the terminator of a C
//! string, or as `None` where the pointer was null. Decoding stops at the
//! first element that cannot be taken, and then nothing is returned but the
//! error.

use vstd::prelude::*;
use vstd::string::*;
use vstd::utf8::*;
use crate::c_text::has_nul;
use crate::error::{failure, ErrorKind, ErrorView, FastEmbedError};

verus! {

/// What a text is to the operation that takes it. It decides the wording of
/// the errors.
#[derive(Clone, Copy, Debug, PartialEq, Eq, Structural)]
pub enum TextRole {
    /// A text to embed.
    Text,
    /// The path of an image to embed.
    Path,
    /// A document to rerank.
    Document,
    /// The query that documents are ranked against.
    Query,
    /// The identifier of a model.
    ModelName,
}

/// The message for a null entry in an array of texts.
pub open spec fn null_element_message(role: TextRole) -> Seq<char> {
    match role {
        TextRole::Text => "Null text pointer in array"@,
        TextRole::Path => "Null path pointer in array"@,
        TextRole::Document => "Null document pointer in array"@,
        TextRole::Query => "Null query pointer in array"@,
        TextRole::ModelName => "Null model name pointer in array"@,
    }
}

/// What stands before the decoder's own words in the message for bytes that
/// are not UTF-8.
pub open spec fn invalid_encoding_prefix(role: TextRole) -> Seq<char> {
    match role {
        TextRole::Text => "Invalid UTF-8 in text: "@,
        TextRole::Path => "Invalid UTF-8 in path: "@,
        TextRole::Document => "Invalid UTF-8 in document: "@,
        TextRole::Query => "Invalid UTF-8 in query: "@,
        TextRole::ModelName => "Invalid model name: "@,
    }
}

/// How `std` words its complaint about bytes that are not UTF-8.
pub uninterp spec fn utf8_error_text(bytes: Seq<u8>) -> Seq<char>;

/// The error for a null entry.
pub open spec fn null_element_error(role: TextRole) -> ErrorView {
    ErrorView { kind: ErrorKind::NullElement, message: null_element_message(role) }
}

/// The error for bytes that are not UTF-8.
pub open spec fn invalid_encoding_error(role: TextRole, bytes: Seq<u8>) -> ErrorView {
    failure(ErrorKind::InvalidEncoding, invalid_encoding_prefix(role), utf8_error_text(bytes))
}

/// What decoding one text gives.
pub open spec fn decode_text_result(bytes: Seq<u8>, role: TextRole) -> Result<Seq<char>, ErrorView> {
    if valid_utf8(bytes) {
        Ok(decode_utf8(bytes))
    } else {
        Err(invalid_encoding_error(role, bytes))
    }
}

/// An element that the codec takes: present and well-formed.
pub open spec fn accepted(element: Option<Seq<u8>>) -> bool {
    element matches Some(bytes) && valid_utf8(bytes)
}

/// Every element is taken.
pub open spec fn all_accepted(texts: Seq<Option<Seq<u8>>>) -> bool {
    forall|i: int| 0 <= i < texts.len() ==> accepted(#[trigger] texts[i])
}

/// `i` is the place of the first element that the codec does not take.
pub open spec fn first_rejected(texts: Seq<Option<Seq<u8>>>, i: int) -> bool {
    &&& 0 <= i < texts.len()
    &&& !accepted(texts[i])
    &&& forall|j: int| 0 <= j < i ==> accepted(#[trigger] texts[j])
}

/// The place of the first element that the codec does not take, where there
/// is one.
pub open spec fn first_rejected_index(texts: Seq<Option<Seq<u8>>>) -> int {
    choose|i: int| first_rejected(texts, i)
}

/// The error that an element is turned down with.
pub open spec fn rejection(element: Option<Seq<u8>>, role: TextRole) -> ErrorView {
    match element {
        None => null_element_error(role),
        Some(bytes) => invalid_encoding_error(role, bytes),
    }
}

/// The texts that the elements spell, each in its place.
pub open spec fn decoded(texts: Seq<Option<Seq<u8>>>) -> Seq<Seq<char>> {
    Seq::new(texts.len(), |i: int| decode_utf8(texts[i].unwrap()))
}

/// What decoding an array gives: every text, or the error of the first
/// element that is not taken.
pub open spec fn decode_array_result(texts: Seq<Option<Seq<u8>>>, role: TextRole) -> Result<
    Seq<Seq<char>>,
    ErrorView,
> {
    if all_accepted(texts) {
        Ok(decoded(texts))
    } else {
        Err(rejection(texts[first_rejected_index(texts)], role))
    }
}

/// An array of foreign texts as plain values.
pub open spec fn foreign_texts(texts: Seq<Option<&[u8]>>) -> Seq<Option<Seq<u8>>> {
    Seq::new(
        texts.len(),
        |i: int|
            match texts[i] {
                Some(bytes) => Some(bytes@),
                None => None,
            },
    )
}

/// An array of foreign texts as a plain value, or nothing where the pointer
/// to the array was null.
pub open spec fn foreign_array(texts: Option<&[Option<&[u8]>]>) -> Option<Seq<Option<Seq<u8>>>> {
    match texts {
        Some(array) => Some(foreign_texts(array@)),
        None => None,
    }
}

/// The texts of a vector of strings.
pub open spec fn texts_of(strings: Seq<String>) -> Seq<Seq<char>> {
    Seq::new(strings.len(), |i: int| strings[i]@)
}

/// At most one place is the first that is not taken.
pub proof fn lemma_first_rejected_unique(texts: Seq<Option<Seq<u8>>>, i: int, j: int)
    requires
        first_rejected(texts, i),
        first_rejected(texts, j),
    ensures
        i == j,
{
    if i < j {
        assert(accepted(texts[i]));
    } else if j < i {
        assert(accepted(texts[j]));
    }
}

/// Where some element is not taken, there is a first such element, and it
/// stands no later.
pub proof fn lemma_first_rejected_exists(texts: Seq<Option<Seq<u8>>>, i: int) -> (k: int)
    requires
        0 <= i < texts.len(),
        !accepted(texts[i]),
    ensures
        0 <= k <= i,
        first_rejected(texts, k),
    decreases i,
{
    if forall|j: int| 0 <= j < i ==> accepted(#[trigger] texts[j]) {
        i
    } else {
        let j = choose|j: int| 0 <= j < i && !accepted(#[trigger] texts[j]);
        lemma_first_rejected_exists(texts, j)
    }
}

/// Decoding stops at the first element that is not taken, and with the
/// error of that element.
pub proof fn lemma_decode_array_stops_at_first_rejected(
    texts: Seq<Option<Seq<u8>>>,
    role: TextRole,
    i: int,
)
    requires
        first_rejected(texts, i),
    ensures
        decode_array_result(texts, role) == Err::<Seq<Seq<char>>, ErrorView>(
            rejection(texts[i], role),
        ),
{
    assert(!accepted(texts[i]));
    lemma_first_rejected_unique(texts, i, first_rejected_index(texts));
}

/// An array that holds a null pointer is turned down for its null element,
/// and no text is returned, unless a text that is not UTF-8 stands before
/// the first null pointer.
pub proof fn lemma_null_element_is_rejected(
    texts: Seq<Option<Seq<u8>>>,
    role: TextRole,
    i: int,
)
    requires
        0 <= i < texts.len(),
        texts[i] is None,
        forall|j: int| 0 <= j < i ==> (#[trigger] texts[j] matches Some(bytes) ==> valid_utf8(bytes)),
    ensures
        decode_array_result(texts, role) == Err::<Seq<Seq<char>>, ErrorView>(
            null_element_error(role),
        ),
        null_element_error(role).kind == ErrorKind::NullElement,
{
    let k = lemma_first_rejected_exists(texts, i);
    assert(texts[k] is None);
    lemma_decode_array_stops_at_first_rejected(texts, role, k);
}

/// An array that holds a text that is not UTF-8 is turned down for its
/// encoding, and no text is returned, unless a null pointer stands before
/// the first such text.
pub proof fn lemma_invalid_encoding_is_rejected(
    texts: Seq<Option<Seq<u8>>>,
    role: TextRole,
    i: int,
)
    requires
        0 <= i < texts.len(),
        texts[i] matches Some(bytes) && !valid_utf8(bytes),
        forall|j: int| 0 <= j < i ==> (#[trigger] texts[j]) is Some,
    ensures
        decode_array_result(texts, role) matches Err(e) && e.kind == ErrorKind::InvalidEncoding,
{
    let k = lemma_first_rejected_exists(texts, i);
    assert(texts[k] is Some);
    lemma_decode_array_stops_at_first_rejected(texts, role, k);
}

/// An array without elements is taken, and gives no texts.
pub proof fn lemma_empty_array_is_accepted(role: TextRole)
    ensures
        decode_array_result(Seq::<Option<Seq<u8>>>::empty(), role) == Ok::<
            Seq<Seq<char>>,
            ErrorView,
        >(Seq::<Seq<char>>::empty()),
{
    let texts = Seq::<Option<Seq<u8>>>::empty();
    assert(all_accepted(texts));
    assert(decoded(texts) =~= Seq::<Seq<char>>::empty());
}

/// `std::str::from_utf8`, with the text copied into a `String` and the error
/// turned into the words that `std` prints for it. The call succeeds exactly
/// on well-formed UTF-8, and the text is then the one that the bytes encode.
#[verifier::external_body]
fn utf8_text(bytes: &[u8]) -> (r: Result<String, String>)
    ensures
        r is Ok <==> valid_utf8(bytes@),
        r matches Ok(text) ==> text@ == decode_utf8(bytes@),
        r matches Err(detail) ==> detail@ == utf8_error_text(bytes@),
{
    match std::str::from_utf8(bytes) {
        Ok(text) => Ok(text.to_string()),
        Err(e) => Err(e.to_string()),
    }
}

/// The words of `null_element_message`.
fn null_element_words(role: TextRole) -> (words: &'static str)
    ensures
        words@ == null_element_message(role),
{
    match role {
        TextRole::Text => "Null text pointer in array",
        TextRole::Path => "Null path pointer in array",
        TextRole::Document => "Null document pointer in array",
        TextRole::Query => "Null query pointer in array",
        TextRole::ModelName => "Null model name pointer in array",
    }
}

/// The words of `invalid_encoding_prefix`.
fn invalid_encoding_words(role: TextRole) -> (words: &'static str)
    ensures
        words@ == invalid_encoding_prefix(role),
{
    match role {
        TextRole::Text => "Invalid UTF-8 in text: ",
        TextRole::Path => "Invalid UTF-8 in path: ",
        TextRole::Document => "Invalid UTF-8 in document: ",
        TextRole::Query => "Invalid UTF-8 in query: ",
        TextRole::ModelName => "Invalid model name: ",
    }
}

/// No message for a null entry holds a NUL.
pub proof fn lemma_null_element_message_has_no_nul(role: TextRole)
    ensures
        !has_nul(null_element_message(role)),
{
    reveal_strlit("Null text pointer in array");
    reveal_strlit("Null path pointer in array");
    reveal_strlit("Null document pointer in array");
    reveal_strlit("Null query pointer in array");
    reveal_strlit("Null model name pointer in array");
    let s = null_element_message(role);
    assert forall|i: int| 0 <= i < s.len() implies s[i] != '\0' by {}
}

/// Decodes one text.
pub fn decode_text(bytes: &[u8], role: TextRole) -> (r: Result<String, Box<FastEmbedError>>)
    ensures
        match r {
            Ok(text) => decode_text_result(bytes@, role) == Ok::<Seq<char>, ErrorView>(text@),
            Err(e) => decode_text_result(bytes@, role) == Err::<Seq<char>, ErrorView>(e@) && e.wf(),
        },
{
    match utf8_text(bytes) {
        Ok(text) => Ok(text),
        Err(detail) => Err(
            FastEmbedError::with_detail(
                ErrorKind::InvalidEncoding,
                invalid_encoding_words(role),
                detail.as_str(),
            ),
        ),
    }
}

/// Decodes an array of texts, in order. The first element that is null or
/// not UTF-8 ends the call with its error.
pub fn decode_array(texts: &[Option<&[u8]>], role: TextRole) -> (r: Result<
    Vec<String>,
    Box<FastEmbedError>,
>)
    ensures
        match r {
            Ok(strings) => decode_array_result(foreign_texts(texts@), role) == Ok::<
                Seq<Seq<char>>,
                ErrorView,
            >(texts_of(strings@)),
            Err(e) => decode_array_result(foreign_texts(texts@), role) == Err::<
                Seq<Seq<char>>,
                ErrorView,
            >(e@) && e.wf(),
        },
{
    let ghost foreign = foreign_texts(texts@);
    let mut strings: Vec<String> = Vec::new();
    let mut i: usize = 0;
    while i < texts.len()
        invariant
            i <= texts.len(),
            foreign == foreign_texts(texts@),
            strings.len() == i,
            forall|j: int| 0 <= j < i ==> accepted(#[trigger] foreign[j]),
            forall|j: int| 0 <= j < i ==> strings[j]@ == decode_utf8(foreign[j].unwrap()),
        decreases texts.len() - i,
    {
        match texts[i] {
            None => {
                proof {
                    assert(foreign[i as int] is None);
                    lemma_decode_array_stops_at_first_rejected(foreign, role, i as int);
                    lemma_null_element_message_has_no_nul(role);
                }
                return Err(
                    FastEmbedError::from_string(
                        ErrorKind::NullElement,
                        String::from_str(null_element_words(role)),
                    ),
                );
            },
            Some(bytes) => {
                assert(foreign[i as int] == Some(bytes@));
                match decode_text(bytes, role) {
                    Ok(text) => {
                        strings.push(text);
                    },
                    Err(e) => {
                        proof {
                            lemma_decode_array_stops_at_first_rejected(foreign, role, i as int);
                        }
                        return Err(e);
                    },
                }
            },
        }
        i += 1;
    }
    proof {
        assert(all_accepted(foreign));
        assert(texts_of(strings@) =~= decoded(foreign));
    }
    Ok(strings)
}

} // verus!
