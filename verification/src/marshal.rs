//! Text on its way across the boundary.
//!
//! Text comes in behind a handle that the host owns: the native side has to
//! ask the host runtime whether the handle refers to anything and for the
//! bytes behind it, and each of those questions may fail or fault. Text
//! goes out as host text, which the host takes ownership of and which can
//! hold any text, or as a C string, which is terminated by a NUL and so
//! cannot hold one of its own.

use vstd::prelude::*;
use vstd::string::*;
use vstd::utf8::*;
use crate::fault::Contained;

verus! {

/// Why text could not cross the boundary.
#[derive(Clone, Copy, Debug, PartialEq, Eq, Structural)]
pub enum MarshalError {
    /// The handle is a null reference or refers to the null object.
    NullHandle,
    /// The host runtime refused to hand out the bytes behind the handle.
    HostFailure,
    /// A question put to the host runtime terminated abnormally.
    Faulted,
    /// The handle was not read to its end.
    NotRead,
    /// The bytes behind the handle are not UTF-8.
    InvalidEncoding,
    /// The text holds a NUL and cannot be terminated by one.
    InteriorNul,
    /// The text is empty where some text is needed.
    Empty,
}

/// A question the native side puts to the host runtime about a handle.
#[derive(Clone, Copy, Debug, PartialEq, Eq, Structural)]
pub enum HostCall {
    /// Is the handle the same object as the null object?
    IsSameObject,
    /// Which bytes lie behind the handle?
    GetString,
}

/// A text handle of the host, as far as the native side has read it.
///
/// The handle is only good for the call that supplied it. It is read in
/// order: first the reference itself, then whether it is the null object,
/// then the bytes; the bytes are never asked for before both checks are done.
pub enum TextHandle {
    /// The reference is not null; nothing has been asked of the host yet.
    Unchecked,
    /// The handle does not refer to the null object, as far as the host
    /// could tell.
    Present,
    /// Nothing is left to ask: the bytes, or the reason why there are none.
    Settled(Result<Vec<u8>, MarshalError>),
}

impl TextHandle {
    /// The handle behind a reference that is null or not.
    pub open spec fn of_reference(is_null: bool) -> TextHandle {
        if is_null {
            TextHandle::Settled(Err(MarshalError::NullHandle))
        } else {
            TextHandle::Unchecked
        }
    }

    /// The handle after the host compared it with the null object. A
    /// handle that is not waiting for that answer stays as it is. Where the
    /// host could not tell, the handle counts as present.
    pub open spec fn after_identity(self, outcome: Contained<Result<bool, ()>>) -> TextHandle {
        match self {
            TextHandle::Unchecked => match outcome {
                Contained::Faulted => TextHandle::Settled(Err(MarshalError::Faulted)),
                Contained::Returned(Ok(true)) => TextHandle::Settled(Err(MarshalError::NullHandle)),
                Contained::Returned(Ok(false)) => TextHandle::Present,
                Contained::Returned(Err(_)) => TextHandle::Present,
            },
            _ => self,
        }
    }

    /// The handle after the host was asked for its bytes. A handle that is
    /// not waiting for them stays as it is.
    pub open spec fn after_content(self, outcome: Contained<Result<Vec<u8>, ()>>) -> TextHandle {
        match self {
            TextHandle::Present => match outcome {
                Contained::Faulted => TextHandle::Settled(Err(MarshalError::Faulted)),
                Contained::Returned(Err(_)) => TextHandle::Settled(Err(MarshalError::HostFailure)),
                Contained::Returned(Ok(bytes)) => TextHandle::Settled(Ok(bytes)),
            },
            _ => self,
        }
    }

    /// The question to put to the host next, if any is left.
    pub open spec fn next_call(self) -> Option<HostCall> {
        match self {
            TextHandle::Unchecked => Some(HostCall::IsSameObject),
            TextHandle::Present => Some(HostCall::GetString),
            TextHandle::Settled(_) => None,
        }
    }

    /// Starts to read a handle, from the one thing known without asking the
    /// host: whether its reference is null.
    pub fn from_reference(is_null: bool) -> (handle: TextHandle)
        ensures
            handle == TextHandle::of_reference(is_null),
    {
        if is_null {
            TextHandle::Settled(Err(MarshalError::NullHandle))
        } else {
            TextHandle::Unchecked
        }
    }

    /// Takes the host's answer to `HostCall::IsSameObject`.
    pub fn identity_checked(self, outcome: Contained<Result<bool, ()>>) -> (handle: TextHandle)
        ensures
            handle == self.after_identity(outcome),
    {
        match self {
            TextHandle::Unchecked => match outcome {
                Contained::Faulted => TextHandle::Settled(Err(MarshalError::Faulted)),
                Contained::Returned(Ok(true)) => TextHandle::Settled(Err(MarshalError::NullHandle)),
                Contained::Returned(Ok(false)) => TextHandle::Present,
                Contained::Returned(Err(_)) => TextHandle::Present,
            },
            other => other,
        }
    }

    /// Takes the host's answer to `HostCall::GetString`.
    pub fn content_fetched(self, outcome: Contained<Result<Vec<u8>, ()>>) -> (handle: TextHandle)
        ensures
            handle == self.after_content(outcome),
    {
        match self {
            TextHandle::Present => match outcome {
                Contained::Faulted => TextHandle::Settled(Err(MarshalError::Faulted)),
                Contained::Returned(Err(_)) => TextHandle::Settled(Err(MarshalError::HostFailure)),
                Contained::Returned(Ok(bytes)) => TextHandle::Settled(Ok(bytes)),
            },
            other => other,
        }
    }

    /// The question to put to the host next; `None` once the handle is
    /// settled.
    pub fn pending(&self) -> (call: Option<HostCall>)
        ensures
            call == self.next_call(),
    {
        match self {
            TextHandle::Unchecked => Some(HostCall::IsSameObject),
            TextHandle::Present => Some(HostCall::GetString),
            TextHandle::Settled(_) => None,
        }
    }
}

/// The native text behind a handle: the decoded bytes of a handle that was
/// read to its end and holds UTF-8, an error in every other case.
pub open spec fn native_text(handle: TextHandle) -> Result<Seq<char>, MarshalError> {
    match handle {
        TextHandle::Unchecked => Err(MarshalError::NotRead),
        TextHandle::Present => Err(MarshalError::NotRead),
        TextHandle::Settled(Err(reason)) => Err(reason),
        TextHandle::Settled(Ok(bytes)) => if valid_utf8(bytes@) {
            Ok(decode_utf8(bytes@))
        } else {
            Err(MarshalError::InvalidEncoding)
        },
    }
}

/// The text a C string can hold for `text`: `text` itself, unless it holds
/// a NUL.
pub open spec fn c_text(text: Seq<char>) -> Result<Seq<char>, MarshalError> {
    if text.contains('\0') {
        Err(MarshalError::InteriorNul)
    } else {
        Ok(text)
    }
}

/// `std::str::from_utf8`: the text whose UTF-8 encoding is `bytes`, where
/// `bytes` is the UTF-8 encoding of some text, and nothing otherwise.
#[verifier::external_body]
pub(crate) fn text_of(bytes: &[u8]) -> (text: Option<&str>)
    ensures
        text is Some <==> valid_utf8(bytes@),
        text matches Some(found) ==> found.spec_bytes() == bytes@,
{
    match std::str::from_utf8(bytes) {
        Ok(found) => Some(found),
        Err(_) => None,
    }
}

/// Converts the text behind a handle to native text. It succeeds exactly
/// on a handle that was read to its end and whose bytes are UTF-8.
pub fn to_native(handle: &TextHandle) -> (text: Result<String, MarshalError>)
    ensures
        match native_text(*handle) {
            Ok(expected) => text matches Ok(found) && found@ == expected,
            Err(reason) => text matches Err(given) && given == reason,
        },
{
    match handle {
        TextHandle::Unchecked => Err(MarshalError::NotRead),
        TextHandle::Present => Err(MarshalError::NotRead),
        TextHandle::Settled(Err(reason)) => Err(*reason),
        TextHandle::Settled(Ok(bytes)) => match text_of(bytes.as_slice()) {
            Some(found) => {
                proof {
                    encode_utf8_decode_utf8(found@);
                }
                Ok(found.to_owned())
            },
            None => Err(MarshalError::InvalidEncoding),
        },
    }
}

/// The native text behind a handle, or why there is none. A handle that
/// gave no text is told apart from one that gave the empty text.
pub fn jstring_to_string(handle: &TextHandle) -> (text: Result<String, MarshalError>)
    ensures
        match native_text(*handle) {
            Ok(expected) => text matches Ok(found) && found@ == expected,
            Err(reason) => text matches Err(given) && given == reason,
        },
{
    to_native(handle)
}

/// Text on its way to the host. It can hold any text. It is handed over at
/// most once: it cannot be copied, and handing it over consumes it.
pub struct HostText {
    text: String,
}

impl View for HostText {
    type V = Seq<char>;

    closed spec fn view(&self) -> Seq<char> {
        self.text@
    }
}

impl HostText {
    /// The text, to read.
    pub fn as_str(&self) -> (text: &str)
        ensures
            text@ == self@,
    {
        self.text.as_str()
    }

    /// Hands the text over: its UTF-8 bytes, which the receiver owns from
    /// now on.
    pub fn into_bytes(self) -> (bytes: Vec<u8>)
        ensures
            bytes@ == encode_utf8(self@),
    {
        self.text.as_str().as_bytes_vec()
    }
}

/// Makes host text of native text: the same text, whatever it holds. The
/// empty text gives the empty host text. Nothing can fail here; whether
/// the host can allocate the text is known only when it is handed over.
pub fn to_host(text: &str) -> (made: Result<HostText, MarshalError>)
    ensures
        made matches Ok(found) && found@ == text@,
{
    Ok(HostText { text: text.to_owned() })
}

/// The host text for `string`: the same text, whatever it holds.
pub fn string_to_jstring(string: &str) -> (made: Option<HostText>)
    ensures
        made matches Some(found) && found@ == string@,
{
    match to_host(string) {
        Ok(found) => Some(found),
        Err(_) => None,
    }
}

/// Text as a C string: it holds no NUL, so that one NUL can end it. It is
/// handed over at most once: it cannot be copied, and handing it over
/// consumes it.
pub struct CText {
    text: String,
}

impl View for CText {
    type V = Seq<char>;

    closed spec fn view(&self) -> Seq<char> {
        self.text@
    }
}

impl CText {
    #[verifier::type_invariant]
    spec fn nul_free(self) -> bool {
        !self.text@.contains('\0')
    }

    /// The text, to read.
    pub fn as_str(&self) -> (text: &str)
        ensures
            text@ == self@,
            !self@.contains('\0'),
    {
        proof {
            use_type_invariant(self);
        }
        self.text.as_str()
    }

    /// Hands the text over: its UTF-8 bytes, none of them zero, which the
    /// receiver terminates and owns from now on.
    pub fn into_bytes(self) -> (bytes: Vec<u8>)
        ensures
            bytes@ == encode_utf8(self@),
            !bytes@.contains(0u8),
    {
        proof {
            use_type_invariant(&self);
            lemma_nul_char_iff_nul_byte(self.text@);
        }
        self.text.as_str().as_bytes_vec()
    }
}

/// Makes a C string of native text. It fails exactly on text that holds a
/// NUL; the empty text gives the empty C string.
pub fn to_c_text(text: &str) -> (made: Result<CText, MarshalError>)
    ensures
        match c_text(text@) {
            Ok(expected) => made matches Ok(found) && found@ == expected,
            Err(reason) => made matches Err(given) && given == reason,
        },
{
    let bytes = text.as_bytes();
    let mut at: usize = 0;
    while at < bytes.len()
        invariant
            at <= bytes@.len(),
            bytes@ == encode_utf8(text@),
            forall|i: int| 0 <= i < at ==> bytes@[i] != 0u8,
        decreases bytes@.len() - at,
    {
        if bytes[at] == 0u8 {
            proof {
                assert(bytes@.contains(0u8));
                lemma_nul_char_iff_nul_byte(text@);
            }
            return Err(MarshalError::InteriorNul);
        }
        at = at + 1;
    }
    proof {
        assert(!bytes@.contains(0u8));
        lemma_nul_char_iff_nul_byte(text@);
    }
    Ok(CText { text: text.to_owned() })
}

/// The UTF-8 encoding of one character holds a zero byte exactly where the
/// character is NUL.
pub proof fn lemma_nul_scalar(c: char)
    ensures
        encode_scalar(c as u32).contains(0u8) <==> c == '\0',
{
    let s = c as u32;
    char_is_scalar(c);
    let encoded = encode_scalar(s);
    if has_width_1_encoding(s) {
        assert(leading_byte_width_1(s) == 0u8 <==> s == 0u32) by (bit_vector)
            requires
                has_width_1_encoding(s),
        ;
        assert(encoded[0] == leading_byte_width_1(s));
        if s == 0u32 {
            char_u32_cast(c, s);
            assert(encoded.contains(0u8));
        }
    } else if has_width_2_encoding(s) {
        assert(leading_byte_width_2(s) != 0u8 && last_continuation_byte(s) != 0u8)
            by (bit_vector);
    } else if has_width_3_encoding(s) {
        assert(leading_byte_width_3(s) != 0u8 && second_last_continuation_byte(s) != 0u8
            && last_continuation_byte(s) != 0u8) by (bit_vector);
    } else {
        assert(leading_byte_width_4(s) != 0u8 && third_last_continuation_byte(s) != 0u8
            && second_last_continuation_byte(s) != 0u8 && last_continuation_byte(s) != 0u8)
            by (bit_vector);
    }
}

/// Text holds a NUL exactly where its UTF-8 encoding holds a zero byte.
pub proof fn lemma_nul_char_iff_nul_byte(text: Seq<char>)
    ensures
        text.contains('\0') <==> encode_utf8(text).contains(0u8),
    decreases text.len(),
{
    if text.len() > 0 {
        let head = encode_scalar(text[0] as u32);
        let rest = text.drop_first();
        let tail = encode_utf8(rest);
        lemma_nul_scalar(text[0]);
        lemma_nul_char_iff_nul_byte(rest);
        assert(encode_utf8(text) == head + tail);
        if text.contains('\0') {
            let i = choose|i: int| 0 <= i < text.len() && text[i] == '\0';
            if i == 0 {
                let j = choose|j: int| 0 <= j < head.len() && head[j] == 0u8;
                assert((head + tail)[j] == 0u8);
            } else {
                assert(rest[i - 1] == '\0');
                let j = choose|j: int| 0 <= j < tail.len() && tail[j] == 0u8;
                assert((head + tail)[head.len() + j] == 0u8);
            }
        }
        if (head + tail).contains(0u8) {
            let j = choose|j: int| 0 <= j < (head + tail).len() && (head + tail)[j] == 0u8;
            if j < head.len() {
                assert(head[j] == 0u8);
                assert(text[0] == '\0');
            } else {
                assert(tail[j - head.len()] == 0u8);
                let i = choose|i: int| 0 <= i < rest.len() && rest[i] == '\0';
                assert(text[i + 1] == '\0');
            }
        }
    }
}

/// Text that came from the host as UTF-8 goes back to the host byte for
/// byte, whatever it holds: the native text behind the handle is the text
/// the bytes encode, host text made of it holds the same text, and the
/// bytes handed over are those that came.
pub proof fn lemma_native_then_host(bytes: Vec<u8>)
    requires
        valid_utf8(bytes@),
    ensures
        native_text(TextHandle::Settled(Ok(bytes))) matches Ok(text) && encode_utf8(text)
            == bytes@,
{
    decode_utf8_encode_utf8(bytes@);
}

/// Native text that went to the host comes back from the host as it was.
pub proof fn lemma_host_then_native(text: Seq<char>, bytes: Vec<u8>)
    requires
        bytes@ == encode_utf8(text),
    ensures
        native_text(TextHandle::Settled(Ok(bytes))) == Ok::<Seq<char>, MarshalError>(text),
{
    encode_utf8_valid_utf8(text);
    encode_utf8_decode_utf8(text);
}

/// The bytes behind a handle are only taken from a handle that stood both
/// checks: whatever is offered to a handle that is known to be null, has
/// faulted or is still unchecked leaves it as it was.
pub proof fn lemma_bytes_only_after_checks(
    handle: TextHandle,
    outcome: Contained<Result<Vec<u8>, ()>>,
)
    requires
        handle != TextHandle::Present,
    ensures
        handle.after_content(outcome) == handle,
{
}

} // verus!
