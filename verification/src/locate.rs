//! Which of the files that a walk finds take part.
//!
//! A path is held by its components, from the root down, so that one path
//! lies under another exactly where the other's components are the first
//! of its own.

use vstd::prelude::*;
use vstd::string::*;
use crate::text::texts;

verus! {

/// The paths that a list holds, each by its components.
pub open spec fn paths(list: Seq<Vec<String>>) -> Seq<Seq<Seq<char>>> {
    list.map_values(|p: Vec<String>| texts(p@))
}

/// Whether `path` is `base` or lies under it.
pub open spec fn lies_under(path: Seq<Seq<char>>, base: Seq<Seq<char>>) -> bool {
    base.is_prefix_of(path)
}

/// Whether `path` is one of `exclusions` or lies under one of them.
pub open spec fn excluded_by(exclusions: Seq<Seq<Seq<char>>>, path: Seq<Seq<char>>) -> bool {
    exists|i: int| 0 <= i < exclusions.len() && lies_under(path, #[trigger] exclusions[i])
}

/// Whether `path` is `base` or lies under it: whether the components of
/// `base` are the first components of `path`.
pub fn starts_with(path: &Vec<String>, base: &Vec<String>) -> (under: bool)
    ensures
        under == lies_under(texts(path@), texts(base@)),
{
    if base.len() > path.len() {
        return false;
    }
    let mut i: usize = 0;
    while i < base.len()
        invariant
            i <= base.len(),
            base.len() <= path.len(),
            forall|k: int| 0 <= k < i ==> base@[k]@ == path@[k]@,
        decreases base.len() - i,
    {
        if base[i] != path[i] {
            assert(texts(base@)[i as int] != texts(path@)[i as int]);
            assert(texts(path@).subrange(0, texts(base@).len() as int)[i as int] == texts(path@)[i as int]);
            return false;
        }
        i = i + 1;
    }
    assert(texts(base@) =~= texts(path@).subrange(0, texts(base@).len() as int));
    true
}

/// Whether a file with the canonical path `path` is left out: whether
/// `path` is one of `exclusions` or lies under one of them.
pub fn is_excluded(path: &Vec<String>, exclusions: &Vec<Vec<String>>) -> (excluded: bool)
    ensures
        excluded == excluded_by(paths(exclusions@), texts(path@)),
{
    let mut i: usize = 0;
    while i < exclusions.len()
        invariant
            i <= exclusions.len(),
            forall|k: int| 0 <= k < i ==> !lies_under(texts(path@), #[trigger] paths(exclusions@)[k]),
        decreases exclusions.len() - i,
    {
        if starts_with(path, &exclusions[i]) {
            assert(lies_under(texts(path@), paths(exclusions@)[i as int]));
            return true;
        }
        assert(paths(exclusions@)[i as int] == texts(exclusions@[i as int]@));
        i = i + 1;
    }
    false
}

/// Whether a file of the name `file_name` is one that the walk is after.
pub fn is_target_manifest(file_name: &String, target_file_name: &str) -> (wanted: bool)
    ensures
        wanted == (file_name@ == target_file_name@),
{
    let target = String::from_str(target_file_name);
    *file_name == target
}

/// The directory of a manifest or lockfile that the walk found.
#[derive(Clone, Debug, PartialEq, Eq)]
pub struct ProjectLocation {
    /// The directory, as the walk names it.
    pub directory: String,
    /// The canonical absolute path of the file, by its components.
    pub canonical: Vec<String>,
    /// Whether the file is left out.
    pub excluded: bool,
}

/// What a [`ProjectLocation`] holds, as mathematical values.
pub ghost struct LocationModel {
    pub directory: Seq<char>,
    pub canonical: Seq<Seq<char>>,
    pub excluded: bool,
}

impl View for ProjectLocation {
    type V = LocationModel;

    open spec fn view(&self) -> LocationModel {
        LocationModel {
            directory: self.directory@,
            canonical: texts(self.canonical@),
            excluded: self.excluded,
        }
    }
}

/// Places a file that the walk found: notes its directory and its
/// canonical path, and whether that path is one of `exclusions` or lies
/// under one of them.  The file takes part exactly where it does not.
pub fn locate(directory: String, canonical: Vec<String>, exclusions: &Vec<Vec<String>>) -> (location:
    ProjectLocation)
    ensures
        location@ == (LocationModel {
            directory: directory@,
            canonical: texts(canonical@),
            excluded: excluded_by(paths(exclusions@), texts(canonical@)),
        }),
{
    let excluded = is_excluded(&canonical, exclusions);
    ProjectLocation { directory, canonical, excluded }
}

} // verus!
