//! What the library reads of a path: the name of the file, and that name parted at its last dot.

use vstd::prelude::*;
use vstd::slice::slice_subrange;

use crate::text::{chars_of, find_last, last_index, lemma_last_index, same_text, text_of};

verus! {

/// The text that an optional string holds.
pub open spec fn opt_text(text: Option<String>) -> Option<Seq<char>> {
    match text {
        Some(t) => Some(t@),
        None => None,
    }
}

/// The last component of a path whose components are separated by `/`. Empty components, and
/// components that stand for the directory they are in, do not count.
pub open spec fn last_component(path: Seq<char>) -> Option<Seq<char>>
    decreases path.len(),
{
    let k = last_index(path, '/');
    let segment = path.skip(k + 1);
    if segment.len() != 0 && segment != seq!['.'] {
        Some(segment)
    } else if 0 <= k < path.len() {
        last_component(path.take(k))
    } else {
        None
    }
}

/// The file name of a path: its last component, unless that is the parent directory.
pub open spec fn name_of(path: Seq<char>) -> Option<Seq<char>> {
    match last_component(path) {
        Some(name) => if name == seq!['.', '.'] {
            None
        } else {
            Some(name)
        },
        None => None,
    }
}

/// A file name up to its last dot: all of it where there is no dot but one at its start.
pub open spec fn stem_of(name: Seq<char>) -> Seq<char> {
    let k = last_index(name, '.');
    if k <= 0 {
        name
    } else {
        name.take(k)
    }
}

/// What stands behind the last dot of a file name that has one behind its first character.
pub open spec fn extension_of(name: Seq<char>) -> Option<Seq<char>> {
    let k = last_index(name, '.');
    if k <= 0 {
        None
    } else {
        Some(name.skip(k + 1))
    }
}

/// The parts of an [`AudioPath`] as sequences of characters.
pub ghost struct PathParts {
    pub file_name: Option<Seq<char>>,
    pub file_stem: Option<Seq<char>>,
    pub extension: Option<Seq<char>>,
}

/// The parts of the path that `path` spells.
pub open spec fn parts_of(path: Seq<char>) -> PathParts {
    match name_of(path) {
        Some(name) => PathParts {
            file_name: Some(name),
            file_stem: Some(stem_of(name)),
            extension: extension_of(name),
        },
        None => PathParts { file_name: None, file_stem: None, extension: None },
    }
}

/// The file name of a path, the name up to its last dot, and what stands behind that dot.
/// A part that the path lacks, or that is not Unicode text, is `None`.
#[derive(Debug, Clone)]
pub struct AudioPath {
    pub file_name: Option<String>,
    pub file_stem: Option<String>,
    pub extension: Option<String>,
}

impl View for AudioPath {
    type V = PathParts;

    open spec fn view(&self) -> PathParts {
        PathParts {
            file_name: opt_text(self.file_name),
            file_stem: opt_text(self.file_stem),
            extension: opt_text(self.extension),
        }
    }
}

/// Whether `part` can be a part of a file name, or the whole of it.
pub open spec fn plain_name(part: Seq<char>) -> bool {
    part.len() > 0 && !part.contains('/')
}

impl PathParts {
    /// Neither the file name nor its stem is empty or holds a separator.
    pub open spec fn well_formed(self) -> bool {
        &&& self.file_name is Some ==> plain_name(self.file_name->0)
        &&& self.file_stem is Some ==> plain_name(self.file_stem->0)
    }
}

proof fn lemma_last_component(path: Seq<char>)
    ensures
        last_component(path) is Some ==> plain_name(last_component(path)->0),
    decreases path.len(),
{
    let k = last_index(path, '/');
    lemma_last_index(path, '/');
    let segment = path.skip(k + 1);
    if segment.len() != 0 && segment != seq!['.'] {
        assert forall|i: int| 0 <= i < segment.len() implies segment[i] != '/' by {
            assert(segment[i] == path[k + 1 + i]);
        }
    } else if 0 <= k < path.len() {
        lemma_last_component(path.take(k));
    }
}

/// The parts of every path are well formed.
pub proof fn lemma_parts_well_formed(path: Seq<char>)
    ensures
        parts_of(path).well_formed(),
{
    lemma_last_component(path);
    if let Some(name) = name_of(path) {
        lemma_last_index(name, '.');
        let stem = stem_of(name);
        assert forall|i: int| 0 <= i < stem.len() implies stem[i] != '/' by {
            assert(stem[i] == name[i]);
        }
    }
}

/// A name without separators is the file name of the path that it spells, unless it stands for
/// a directory.
pub proof fn lemma_name_of_plain(name: Seq<char>)
    requires
        plain_name(name),
        name != seq!['.'],
        name != seq!['.', '.'],
    ensures
        name_of(name) == Some(name),
{
    lemma_last_index(name, '/');
    if last_index(name, '/') >= 0 {
        assert(name.contains('/'));
    }
    assert(name.skip(0) =~= name);
}

/// A stem, a dot and an extension spell a path with these parts.
pub proof fn lemma_dotted(stem: Seq<char>, extension: Seq<char>)
    requires
        plain_name(stem),
        extension.len() > 0,
        !extension.contains('/'),
        !extension.contains('.'),
    ensures
        name_of(stem + seq!['.'] + extension) == Some(stem + seq!['.'] + extension),
        stem_of(stem + seq!['.'] + extension) == stem,
        extension_of(stem + seq!['.'] + extension) == Some(extension),
{
    let name = stem + seq!['.'] + extension;
    assert forall|i: int| 0 <= i < name.len() implies name[i] != '/' by {
        if i < stem.len() {
            assert(stem.contains(stem[i]));
        } else if i > stem.len() {
            assert(extension.contains(extension[i - stem.len() - 1]));
        }
    }
    assert(name.len() >= 3);
    lemma_name_of_plain(name);
    assert forall|i: int| stem.len() < i < name.len() implies name[i] != '.' by {
        assert(extension.contains(extension[i - stem.len() - 1]));
    }
    crate::text::lemma_last_index_unique(name, '.', stem.len() as int);
    assert(name.take(stem.len() as int) =~= stem);
    assert(name.skip(stem.len() as int + 1) =~= extension);
}

/// The last component of the path that `chars` spells.
fn find_component(chars: &[char]) -> (r: Option<&[char]>)
    ensures
        match r {
            Some(segment) => last_component(chars@) == Some(segment@),
            None => last_component(chars@) is None,
        },
{
    let mut end: usize = chars.len();
    assert(chars@.take(end as int) =~= chars@);
    loop
        invariant
            end <= chars@.len(),
            last_component(chars@) == last_component(chars@.take(end as int)),
        decreases end,
    {
        let head = slice_subrange(chars, 0, end);
        assert(head@ =~= chars@.take(end as int));
        proof {
            reveal_strlit(".");
            assert("."@ =~= seq!['.']);
        }
        match find_last(head, '/') {
            Some(k) => {
                let segment = slice_subrange(head, k + 1, end);
                assert(segment@ =~= head@.skip(k + 1));
                if segment.len() != 0 && !same_text(segment, ".") {
                    return Some(segment);
                }
                assert(head@.take(k as int) =~= chars@.take(k as int));
                end = k;
            },
            None => {
                assert(head@.skip(0) =~= head@);
                if head.len() != 0 && !same_text(head, ".") {
                    return Some(head);
                }
                return None;
            },
        }
    }
}

impl AudioPath {
    /// The parts of the path that `path` spells, with `/` between its components. Where a
    /// system has other separators, its own paths are taken apart before they come here.
    pub fn new(path: &str) -> (r: Self)
        ensures
            r@ == parts_of(path@),
            r@.well_formed(),
    {
        let chars = chars_of(path);
        proof {
            lemma_parts_well_formed(path@);
            reveal_strlit("..");
            assert(".."@ =~= seq!['.', '.']);
        }
        match find_component(chars.as_slice()) {
            Some(name) => {
                if same_text(name, "..") {
                    return AudioPath { file_name: None, file_stem: None, extension: None };
                }
                let file_name = Some(text_of(name));
                let n: usize = name.len();
                match find_last(name, '.') {
                    Some(k) if k > 0 => {
                        let stem = slice_subrange(name, 0, k);
                        let extension = slice_subrange(name, k + 1, n);
                        assert(stem@ =~= name@.take(k as int));
                        assert(extension@ =~= name@.skip(k + 1));
                        AudioPath {
                            file_name,
                            file_stem: Some(text_of(stem)),
                            extension: Some(text_of(extension)),
                        }
                    },
                    _ => AudioPath { file_name, file_stem: Some(text_of(name)), extension: None },
                }
            },
            None => AudioPath { file_name: None, file_stem: None, extension: None },
        }
    }
}

} // verus!
