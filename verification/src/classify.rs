//! The tree classifier: which entries of a template tree are rendered, and
//! whether a file is text or binary.

use vstd::prelude::*;
use crate::schema::texts;
use crate::text::same_text;

verus! {

/// How many bytes at the start of a file are looked at.
pub const SNIFF_LEN: usize = 8000;

/// What a file is taken to be.
#[derive(Clone, Copy, Debug, PartialEq, Eq, Structural)]
pub enum FileKind {
    /// Rendered as a template.
    Text,
    /// Copied byte for byte.
    Binary,
}

/// Whether a zero byte stands among the first 8000 bytes of `content`.
pub open spec fn has_zero_byte(content: Seq<u8>) -> bool {
    exists|i: int| 0 <= i < content.len() && i < SNIFF_LEN && content[i] == 0
}

/// Whether `content` is that of a binary file: a zero byte stands among its
/// first 8000 bytes. A shorter content is looked at whole.
pub fn is_binary(content: &[u8]) -> (binary: bool)
    ensures
        binary == has_zero_byte(content@),
{
    let mut i: usize = 0;
    while i < content.len() && i < SNIFF_LEN
        invariant
            i <= content@.len(),
            i <= SNIFF_LEN,
            forall|j: int| 0 <= j < i ==> content@[j] != 0,
        decreases content@.len() - i,
    {
        if content[i] == 0 {
            return true;
        }
        i += 1;
    }
    false
}

/// The kind of a file as a function of what could be read of it. A file that
/// could not be read counts as text: a failure is then reported when it is
/// rendered, where a binary copy would pass over it in silence.
pub open spec fn kind_of_file(content: Option<Seq<u8>>) -> FileKind {
    match content {
        Some(bytes) => if has_zero_byte(bytes) {
            FileKind::Binary
        } else {
            FileKind::Text
        },
        None => FileKind::Text,
    }
}

/// The bytes of an optional slice.
pub open spec fn optional_bytes(content: Option<&[u8]>) -> Option<Seq<u8>> {
    match content {
        Some(bytes) => Some(bytes@),
        None => None,
    }
}

/// Classifies a file by its content, or by the lack of it where the file
/// could not be read.
pub fn classify(content: Option<&[u8]>) -> (kind: FileKind)
    ensures
        kind == kind_of_file(optional_bytes(content)),
{
    match content {
        Some(bytes) => if is_binary(bytes) {
            FileKind::Binary
        } else {
            FileKind::Text
        },
        None => FileKind::Text,
    }
}

/// Two contents that agree on their first 8000 bytes are classified alike:
/// nothing behind that prefix is ever looked at.
pub proof fn lemma_classification_reads_the_prefix(a: Seq<u8>, b: Seq<u8>)
    requires
        a.len() >= SNIFF_LEN ==> b.len() >= SNIFF_LEN,
        a.len() < SNIFF_LEN ==> b.len() == a.len(),
        forall|i: int| 0 <= i < a.len() && i < SNIFF_LEN ==> a[i] == b[i],
    ensures
        has_zero_byte(a) == has_zero_byte(b),
        kind_of_file(Some(a)) == kind_of_file(Some(b)),
{
    if has_zero_byte(a) {
        let i = choose|i: int| 0 <= i < a.len() && i < SNIFF_LEN && a[i] == 0;
        assert(0 <= i < b.len() && i < SNIFF_LEN && b[i] == 0);
    }
    if has_zero_byte(b) {
        let i = choose|i: int| 0 <= i < b.len() && i < SNIFF_LEN && b[i] == 0;
        assert(0 <= i < a.len() && i < SNIFF_LEN && a[i] == 0);
    }
}

/// Whether an entry of the tree is left out, by the components of its path
/// below the root of the tree: the root itself, the version-control folder
/// `.git` with all that is in it, and the schema file `metadata.json` at the
/// root.
pub open spec fn excluded(path: Seq<Seq<char>>) -> bool {
    ||| path.len() == 0
    ||| path[0] == ".git"@
    ||| (path.len() == 1 && path[0] == "metadata.json"@)
}

/// Whether an entry of the tree is left out.
pub fn is_excluded(relative_path: &Vec<String>) -> (out: bool)
    ensures
        out == excluded(texts(relative_path@)),
{
    if relative_path.len() == 0 {
        return true;
    }
    let first = relative_path[0].as_str();
    same_text(first, ".git") || (relative_path.len() == 1 && same_text(first, "metadata.json"))
}

/// A file of the template tree that is to be rendered.
#[derive(Clone, Debug, PartialEq)]
pub struct SourceEntry {
    /// The components of the file's path below the root of the tree.
    pub relative_path: Vec<String>,
    pub kind: FileKind,
}

/// The entry for something found in the tree: none for what is left out and
/// for what is no file; else the path with the kind that the content gives.
pub fn source_entry(relative_path: Vec<String>, is_file: bool, content: Option<&[u8]>) -> (entry:
    Option<SourceEntry>)
    ensures
        entry is Some <==> is_file && !excluded(texts(relative_path@)),
        entry is Some ==> entry->Some_0.relative_path == relative_path && entry->Some_0.kind
            == kind_of_file(optional_bytes(content)),
{
    if is_excluded(&relative_path) || !is_file {
        None
    } else {
        let kind = classify(content);
        Some(SourceEntry { relative_path, kind })
    }
}

} // verus!
