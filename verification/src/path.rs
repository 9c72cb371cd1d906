//! Paths of the file system, as the library carries them.
//!
//! A path is never looked into here. It is taken from the caller, kept,
//! and handed back when a file has to be read or written. What the rules
//! need to know of a path travels beside it as plain values: see
//! [`FilePath`] and [`PickedFile`](crate::app::messages::PickedFile).

use std::path::PathBuf;
use vstd::prelude::*;

verus! {

/// Makes std's `PathBuf` known as a type whose values are carried through.
#[verifier::external_type_specification]
#[verifier::external_body]
pub struct ExPathBuf(PathBuf);

/// Admits `Clone::clone` of std's `PathBuf`: the copy is the same path.
pub assume_specification[ <PathBuf as Clone>::clone ](path: &PathBuf) -> (r: PathBuf)
    ensures
        r == *path,
;

/// The path that std's `Path::join` gives for a path and the text of one
/// more component to put after it.
pub uninterp spec fn path_joined(base: PathBuf, name: Seq<char>) -> PathBuf;

/// Calls `Path::join` of std, which puts one more component after a path.
///
/// Relied on: the result depends on the path and the text alone.
#[verifier::external_body]
pub(crate) fn joined(base: &PathBuf, name: &str) -> (r: PathBuf)
    ensures
        r == path_joined(*base, name@),
{
    base.join(name)
}

/// A path together with the bytes by which it is told from other paths:
/// two paths are taken for the same file exactly when their keys are equal.
#[derive(Debug)]
pub struct FilePath {
    /// The path itself, for whoever opens the file.
    pub path: PathBuf,
    /// The identity of the path.
    pub key: Vec<u8>,
}

/// Mathematical model of a [`FilePath`].
pub struct FilePathView {
    pub path: PathBuf,
    pub key: Seq<u8>,
}

impl View for FilePath {
    type V = FilePathView;

    open spec fn view(&self) -> FilePathView {
        FilePathView { path: self.path, key: self.key@ }
    }
}

/// The models of a list of paths.
pub open spec fn paths_view(paths: Seq<FilePath>) -> Seq<FilePathView> {
    Seq::new(paths.len(), |i: int| paths[i]@)
}

/// The keys of a list of paths.
pub open spec fn keys_of(paths: Seq<FilePathView>) -> Seq<Seq<u8>> {
    paths.map_values(|p: FilePathView| p.key)
}

/// Copies a byte string.
pub fn copy_of_bytes(bytes: &Vec<u8>) -> (r: Vec<u8>)
    ensures
        r@ == bytes@,
{
    let mut copy: Vec<u8> = Vec::new();
    let mut i: usize = 0;
    while i < bytes.len()
        invariant
            i <= bytes.len(),
            copy@ == bytes@.take(i as int),
        decreases bytes.len() - i,
    {
        copy.push(bytes[i]);
        assert(bytes@.take(i as int + 1) == bytes@.take(i as int).push(bytes@[i as int]));
        i += 1;
    }
    assert(bytes@.take(bytes.len() as int) == bytes@);
    copy
}

/// Tests two byte strings for equality.
pub fn same_bytes(a: &Vec<u8>, b: &Vec<u8>) -> (r: bool)
    ensures
        r == (a@ == b@),
{
    if a.len() != b.len() {
        return false;
    }
    let mut i: usize = 0;
    while i < a.len()
        invariant
            i <= a.len(),
            a.len() == b.len(),
            forall|j: int| 0 <= j < i ==> a@[j] == b@[j],
        decreases a.len() - i,
    {
        if a[i] != b[i] {
            return false;
        }
        i += 1;
    }
    assert(a@ =~= b@);
    true
}

impl Clone for FilePath {
    fn clone(&self) -> (r: Self)
        ensures
            r@ == self@,
    {
        FilePath { path: self.path.clone(), key: copy_of_bytes(&self.key) }
    }
}

} // verus!
