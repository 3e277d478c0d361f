use vstd::prelude::*;
use vstd::string::StringExecFns;
use crate::error::QueryError;
use crate::paths::{file_name_chars, file_name_of};

verus! {

/// What the library reads of one directory entry's metadata: a regular
/// file with its byte length, a directory, or anything else.
#[derive(Clone, Copy, PartialEq, Eq, Structural, Debug)]
pub enum EntryMeta {
    File { len: u64 },
    Dir,
    Other,
}

/// The human-readable rendering of a byte count, a function of the count
/// alone.
pub uninterp spec fn size_chars(bytes: u64) -> Seq<char>;

/// Relies on size::Size::to_string: renders a byte count with a unit, in
/// the crate's default style ("200 bytes", "2.00 MiB"); the result is
/// never empty and depends on the count alone.
#[verifier::external_body]
fn size_display(bytes: u64) -> (r: String)
    ensures
        r@ == size_chars(bytes),
        r@.len() > 0,
{
    size::Size::from_bytes(bytes).to_string()
}

/// Relies on dir_size::get_size_in_bytes: walks the tree at the given
/// path and sums the contained files' sizes. The outcome depends on what
/// is on disk, so nothing is promised of it; an error carries the
/// reported reason.
#[verifier::external_body]
fn dir_size_bytes(path: &str) -> Result<u64, String> {
    match dir_size::get_size_in_bytes(std::path::Path::new(path)) {
        Ok(n) => Ok(n),
        Err(e) => Err(e.to_string()),
    }
}

/// The kind label shown for an entry.
pub open spec fn meta_kind_chars(m: EntryMeta) -> Seq<char> {
    match m {
        EntryMeta::File { .. } => "File"@,
        EntryMeta::Dir => "Directory"@,
        EntryMeta::Other => "Other"@,
    }
}

/// The byte count an entry shows without a directory walk: a file's own
/// length, and zero for anything that is neither file nor directory.
pub open spec fn meta_len(m: EntryMeta) -> u64 {
    match m {
        EntryMeta::File { len } => len,
        _ => 0,
    }
}

/// The detail panel text for one directory entry: its kind, its name, and
/// the rendering of its size.
pub open spec fn entry_detail_chars(name: Seq<char>, kind: Seq<char>, size_text: Seq<char>) -> Seq<
    char,
> {
    "Type: "@ + kind + "\nName: "@ + name + "\nSize: "@ + size_text
}

fn entry_detail_string(name: &str, kind: &str, size_text: &String) -> (r: String)
    ensures
        r@ == entry_detail_chars(name@, kind@, size_text@),
{
    let mut s = String::from_str("Type: ");
    s.append(kind);
    s.append("\nName: ");
    s.append(name);
    s.append("\nSize: ");
    s.append(size_text.as_str());
    proof {
        assert(s@ =~= entry_detail_chars(name@, kind@, size_text@));
    }
    s
}

/// Formats the detail for the entry at `path` with the given metadata.
/// The name shown is the path's final component (the path itself when no
/// component can be taken); a file shows its own byte length, a directory
/// the summed size of the tree below it, anything else a size of zero.
/// Only the directory walk can fail, and its error is passed on.
pub fn get_size(path: &str, meta: EntryMeta) -> (r: Result<String, QueryError>)
    ensures
        !(meta is Dir) ==> r is Ok && r->Ok_0@ == entry_detail_chars(
            file_name_chars(path@),
            meta_kind_chars(meta),
            size_chars(meta_len(meta)),
        ),
        meta is Dir && r is Ok ==> exists|n: u64|
            r->Ok_0@ == entry_detail_chars(file_name_chars(path@), "Directory"@, size_chars(n)),
        r is Err ==> meta is Dir && r->Err_0 is Io,
{
    let name = file_name_of(path);
    match meta {
        EntryMeta::File { len } => {
            let size_text = size_display(len);
            Ok(entry_detail_string(name, "File", &size_text))
        },
        EntryMeta::Dir => {
            match dir_size_bytes(path) {
                Ok(n) => {
                    let size_text = size_display(n);
                    Ok(entry_detail_string(name, "Directory", &size_text))
                },
                Err(e) => Err(QueryError::Io(e)),
            }
        },
        EntryMeta::Other => {
            let size_text = size_display(0);
            Ok(entry_detail_string(name, "Other", &size_text))
        },
    }
}

/// The right-panel text in files mode, from the entry's path and the
/// outcome of reading its metadata: the formatted detail (under the
/// path's final component), or the failure behind a fixed prefix.
pub fn entry_panel_text(name: &str, meta: Result<EntryMeta, String>) -> (r: String)
    ensures
        meta is Ok && !(meta->Ok_0 is Dir) ==> r@ == entry_detail_chars(
            file_name_chars(name@),
            meta_kind_chars(meta->Ok_0),
            size_chars(meta_len(meta->Ok_0)),
        ),
        meta is Ok && meta->Ok_0 is Dir ==> ((exists|n: u64|
            r@ == entry_detail_chars(file_name_chars(name@), "Directory"@, size_chars(n))) || (
        exists|e: Seq<char>|
            r@ == "File or folder error: "@ + e)),
        meta is Err ==> r@ == "File or folder error: "@ + meta->Err_0@,
{
    match meta {
        Ok(m) => {
            match get_size(name, m) {
                Ok(text) => text,
                Err(e) => {
                    let mut s = String::from_str("File or folder error: ");
                    s.append(e.message().as_str());
                    s
                },
            }
        },
        Err(e) => {
            let mut s = String::from_str("File or folder error: ");
            s.append(e.as_str());
            s
        },
    }
}

/// The right-panel text when the list is empty and nothing is selected.
pub fn no_selection_text() -> (r: String)
    ensures
        r@ == "No item selected."@,
{
    String::from_str("No item selected.")
}

} // verus!
