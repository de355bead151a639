//! Which files count as text documents: those named `.md`, `.markdown`
//! or `.txt`, in any letter case.

use crate::text::{lowercase, lowercase_of};
use vstd::prelude::*;
use vstd::utf8::*;

verus! {

/// Why a file is not read.
#[derive(Debug, Clone, Copy, PartialEq, Eq)]
pub enum ReadRefusal {
    /// There is no file at the path.
    Missing,
    /// The extension of the file is not one of a text document.
    UnsupportedType,
}

/// `text` ends with `suffix`.
pub open spec fn ends_with(text: Seq<char>, suffix: Seq<char>) -> bool {
    suffix.len() <= text.len() && text.subrange(text.len() - suffix.len(), text.len() as int)
        == suffix
}

/// A lower-case extension, without its dot, is that of a text document.
pub open spec fn is_document_extension(lower: Seq<char>) -> bool {
    lower == "md"@ || lower == "markdown"@ || lower == "txt"@
}

/// A lower-case name ends like that of a text document.
pub open spec fn has_document_suffix(lower: Seq<char>) -> bool {
    ends_with(lower, ".md"@) || ends_with(lower, ".markdown"@) || ends_with(lower, ".txt"@)
}

/// The decision on reading a file, from whether it exists and from its
/// extension: a missing file is reported before a wrong extension.
pub open spec fn read_decision(exists: bool, extension: Seq<char>) -> Result<(), ReadRefusal> {
    if !exists {
        Err(ReadRefusal::Missing)
    } else if !is_document_extension(lowercase_of(extension)) {
        Err(ReadRefusal::UnsupportedType)
    } else {
        Ok(())
    }
}

/// Encoding distributes over concatenation.
proof fn lemma_encode_concat(a: Seq<char>, b: Seq<char>)
    ensures
        encode_utf8(a + b) == encode_utf8(a) + encode_utf8(b),
    decreases a.len(),
{
    if a.len() > 0 {
        lemma_encode_concat(a.drop_first(), b);
        assert((a + b).drop_first() =~= a.drop_first() + b);
    }
}

/// Two texts are equal exactly when their encodings are.
proof fn lemma_same_encoding(a: Seq<char>, b: Seq<char>)
    ensures
        (encode_utf8(a) == encode_utf8(b)) == (a == b),
{
    encode_utf8_decode_utf8(a);
    encode_utf8_decode_utf8(b);
}

/// A text ends with a suffix exactly when its encoding ends with the
/// encoding of the suffix.
proof fn lemma_suffix_of_encoding(text: Seq<char>, suffix: Seq<char>)
    ensures
        ends_with(text, suffix) == ({
            let bytes = encode_utf8(text);
            let tail = encode_utf8(suffix);
            tail.len() <= bytes.len() && bytes.subrange(bytes.len() - tail.len(), bytes.len() as int)
                == tail
        }),
{
    let bytes = encode_utf8(text);
    let tail = encode_utf8(suffix);
    encode_utf8_valid_utf8(text);
    encode_utf8_valid_utf8(suffix);
    encode_utf8_decode_utf8(text);
    encode_utf8_decode_utf8(suffix);
    if ends_with(text, suffix) {
        let head = text.subrange(0, text.len() - suffix.len());
        assert(text =~= head + suffix);
        lemma_encode_concat(head, suffix);
        assert(bytes.subrange(bytes.len() - tail.len(), bytes.len() as int) =~= tail);
    }
    if tail.len() <= bytes.len() && bytes.subrange(bytes.len() - tail.len(), bytes.len() as int)
        == tail {
        let cut = bytes.len() - tail.len();
        if tail.len() == 0 {
            assert(suffix.len() == 0) by {
                if suffix.len() > 0 {
                    encode_utf8_first_scalar(suffix);
                }
            }
            assert(text.subrange(text.len() as int, text.len() as int) =~= suffix);
        } else {
            is_char_boundary_start_end_of_seq(tail);
            is_char_boundary_iff_not_is_continuation_byte(tail, 0);
            is_char_boundary_iff_not_is_continuation_byte(bytes, cut);
            valid_utf8_split(bytes, cut);
            decode_utf8_split(bytes, cut);
            assert(text.subrange(text.len() - suffix.len(), text.len() as int) =~= suffix);
        }
    }
}

/// Compares two byte strings.
fn same_bytes(a: &[u8], b: &[u8]) -> (r: bool)
    ensures
        r == (a@ == b@),
{
    if a.len() != b.len() {
        return false;
    }
    let mut i: usize = 0;
    while i < a.len()
        invariant
            a@.len() == b@.len(),
            i <= a@.len(),
            forall|j: int| 0 <= j < i ==> a@[j] == b@[j],
        decreases a@.len() - i,
    {
        if a[i] != b[i] {
            return false;
        }
        i = i + 1;
    }
    assert(a@ =~= b@);
    true
}

/// Tells whether two texts are the same.
pub fn same_text(a: &str, b: &str) -> (r: bool)
    ensures
        r == (a@ == b@),
{
    proof {
        lemma_same_encoding(a@, b@);
    }
    same_bytes(a.as_bytes(), b.as_bytes())
}

/// Tells whether `text` ends with `suffix`.
pub fn text_ends_with(text: &str, suffix: &str) -> (r: bool)
    ensures
        r == ends_with(text@, suffix@),
{
    proof {
        lemma_suffix_of_encoding(text@, suffix@);
    }
    let bytes = text.as_bytes();
    let tail = suffix.as_bytes();
    if tail.len() > bytes.len() {
        return false;
    }
    let cut: usize = bytes.len() - tail.len();
    same_bytes(vstd::slice::slice_subrange(bytes, cut, bytes.len()), tail)
}

/// Tells whether an extension that is already in lower case is that of
/// a text document.
pub fn is_lowercase_document_extension(lower: &str) -> (r: bool)
    ensures
        r == is_document_extension(lower@),
{
    same_text(lower, "md") || same_text(lower, "markdown") || same_text(lower, "txt")
}

/// Tells whether a name that is already in lower case ends like that of
/// a text document.
pub fn has_lowercase_document_suffix(lower: &str) -> (r: bool)
    ensures
        r == has_document_suffix(lower@),
{
    text_ends_with(lower, ".md") || text_ends_with(lower, ".markdown") || text_ends_with(
        lower,
        ".txt",
    )
}

/// Tells whether a file extension, without its dot and in any letter
/// case, is that of a text document.
pub fn is_supported_extension(extension: &str) -> (r: bool)
    ensures
        r == is_document_extension(lowercase_of(extension@)),
{
    let lower = lowercase(extension);
    is_lowercase_document_extension(lower.as_str())
}

/// Tells whether a command-line argument names a text document: in
/// lower case it ends with `.md`, `.markdown` or `.txt`.
pub fn is_document_argument(argument: &str) -> (r: bool)
    ensures
        r == has_document_suffix(lowercase_of(argument@)),
{
    let lower = lowercase(argument);
    has_lowercase_document_suffix(lower.as_str())
}

/// Decides whether a file may be read, from whether it exists and from
/// its extension (empty when the path has none).
pub fn check_readable(exists: bool, extension: &str) -> (r: Result<(), ReadRefusal>)
    ensures
        r == read_decision(exists, extension@),
{
    if !exists {
        Err(ReadRefusal::Missing)
    } else if !is_supported_extension(extension) {
        Err(ReadRefusal::UnsupportedType)
    } else {
        Ok(())
    }
}

/// Keeps the arguments that name text documents, in their order.
pub fn document_arguments(arguments: &Vec<String>) -> (r: Vec<String>)
    ensures
        r.deep_view() == arguments.deep_view().filter(
            |argument: Seq<char>| has_document_suffix(lowercase_of(argument)),
        ),
{
    let ghost keep = |argument: Seq<char>| has_document_suffix(lowercase_of(argument));
    let mut kept: Vec<String> = Vec::new();
    let mut i: usize = 0;
    proof {
        reveal(Seq::filter);
    }
    while i < arguments.len()
        invariant
            i <= arguments@.len(),
            keep == |argument: Seq<char>| has_document_suffix(lowercase_of(argument)),
            kept.deep_view() == arguments.deep_view().take(i as int).filter(keep),
        decreases arguments@.len() - i,
    {
        let argument = &arguments[i];
        if is_document_argument(argument.as_str()) {
            kept.push(argument.clone());
        }
        proof {
            reveal(Seq::filter);
            let prefix = arguments.deep_view().take(i + 1);
            assert(prefix.drop_last() =~= arguments.deep_view().take(i as int));
        }
        i = i + 1;
    }
    assert(arguments.deep_view().take(i as int) =~= arguments.deep_view());
    kept
}

} // verus!
