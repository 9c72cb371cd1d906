//! Attachment policy: how many files one message may carry, and how a
//! display name is edited and committed.
//!
//! A display name is shown without its `.pdf` suffix while it is edited and
//! gets the suffix back when the edit is committed. The file path that the
//! name belongs to is never touched by either step.

use vstd::prelude::*;
use vstd::string::*;
use crate::text::{trim, trimmed};

verus! {

/// The largest number of attachments one message may carry.
pub const MAX_ATTACHMENTS: usize = 5;

/// The characters of the suffix `.pdf`.
pub open spec fn pdf_suffix() -> Seq<char> {
    seq!['.', 'p', 'd', 'f']
}

/// Whether `name` ends in `.pdf`, in any mix of upper and lower case.
pub open spec fn has_pdf_suffix(name: Seq<char>) -> bool {
    let n = name.len() as int;
    &&& n >= 4
    &&& name[n - 4] == '.'
    &&& (name[n - 3] == 'p' || name[n - 3] == 'P')
    &&& (name[n - 2] == 'd' || name[n - 2] == 'D')
    &&& (name[n - 1] == 'f' || name[n - 1] == 'F')
}

/// `name` with `.pdf` appended unless it ends in it already.
pub open spec fn with_pdf_suffix(name: Seq<char>) -> Seq<char> {
    if has_pdf_suffix(name) {
        name
    } else {
        name + pdf_suffix()
    }
}

/// `name` as it is offered for editing: a trailing `.pdf` is left out.
pub open spec fn editable_name(name: Seq<char>) -> Seq<char> {
    if has_pdf_suffix(name) {
        name.take(name.len() - 4)
    } else {
        name
    }
}

/// The display name after an edit is committed: the trimmed buffer with
/// `.pdf` guaranteed, or the previous name where the buffer trims to nothing.
pub open spec fn committed_name(buffer: Seq<char>, previous: Seq<char>) -> Seq<char> {
    if trimmed(buffer).len() == 0 {
        previous
    } else {
        with_pdf_suffix(trimmed(buffer))
    }
}

/// Tests whether `name` ends in `.pdf`, ignoring case.
pub fn ends_with_pdf(name: &str) -> (r: bool)
    ensures
        r == has_pdf_suffix(name@),
{
    let n = name.unicode_len();
    if n < 4 {
        return false;
    }
    let dot = name.get_char(n - 4);
    let p = name.get_char(n - 3);
    let d = name.get_char(n - 2);
    let f = name.get_char(n - 1);
    dot == '.' && (p == 'p' || p == 'P') && (d == 'd' || d == 'D') && (f == 'f' || f == 'F')
}

/// Appends `.pdf` to `name` unless it ends in it already.
pub fn ensure_pdf_suffix(name: &str) -> (r: String)
    ensures
        r@ == with_pdf_suffix(name@),
{
    let mut out = String::from_str(name);
    if !ends_with_pdf(name) {
        proof {
            reveal_strlit(".pdf");
            assert(".pdf"@ =~= pdf_suffix());
        }
        out.append(".pdf");
    }
    out
}

/// Prepares `name` for the edit field by leaving out a trailing `.pdf`.
pub fn to_editable(name: &str) -> (r: String)
    ensures
        r@ == editable_name(name@),
{
    if ends_with_pdf(name) {
        let n = name.unicode_len();
        String::from_str(name.substring_char(0, n - 4))
    } else {
        String::from_str(name)
    }
}

/// Commits an edit: the new display name for what stands in `buffer`, given
/// the name that was shown before.
pub fn to_committed(buffer: &str, previous: &str) -> (r: String)
    ensures
        r@ == committed_name(buffer@, previous@),
{
    let candidate = trim(buffer);
    if candidate.as_str().unicode_len() == 0 {
        String::from_str(previous)
    } else {
        ensure_pdf_suffix(candidate.as_str())
    }
}

/// A committed edit never leaves a name without the suffix, never doubles
/// a suffix that is there in whatever case, and keeps the previous name
/// where the edit field holds nothing but whitespace.
pub proof fn lemma_committed_name(buffer: Seq<char>, previous: Seq<char>)
    ensures
        trimmed(buffer).len() == 0 ==> committed_name(buffer, previous) == previous,
        trimmed(buffer).len() > 0 ==> has_pdf_suffix(committed_name(buffer, previous)),
        has_pdf_suffix(trimmed(buffer)) ==> committed_name(buffer, previous) == trimmed(buffer),
        trimmed(buffer).len() > 0 && !has_pdf_suffix(trimmed(buffer)) ==> committed_name(
            buffer,
            previous,
        ) == trimmed(buffer) + pdf_suffix(),
{
    let name = trimmed(buffer);
    if name.len() > 0 && !has_pdf_suffix(name) {
        lemma_suffix_is_guaranteed(name);
    }
}

/// Guaranteeing the suffix gives a name that has it, and changes nothing
/// when done again.
pub proof fn lemma_suffix_is_guaranteed(name: Seq<char>)
    ensures
        has_pdf_suffix(with_pdf_suffix(name)),
        with_pdf_suffix(with_pdf_suffix(name)) == with_pdf_suffix(name),
{
    if !has_pdf_suffix(name) {
        let full = name + pdf_suffix();
        let n = full.len() as int;
        assert(full[n - 4] == '.');
        assert(full[n - 3] == 'p');
        assert(full[n - 2] == 'd');
        assert(full[n - 1] == 'f');
    }
}

/// What the edit field is offered never ends in the suffix twice over: a
/// name that is edited and committed unchanged ends in exactly one suffix,
/// and its stem is the same as before.
pub proof fn lemma_edit_keeps_stem(name: Seq<char>)
    requires
        has_pdf_suffix(name),
    ensures
        editable_name(name) + name.skip(name.len() - 4) == name,
        editable_name(name).len() == name.len() - 4,
{
    assert(name.take(name.len() - 4) + name.skip(name.len() - 4) =~= name);
}

} // verus!
