//! What the parts of a path are.

use vstd::prelude::*;

use crate::path::{lemma_name_of_plain, name_of, AudioPath};
use crate::promises::text::gives;
use crate::text::{last_index, lemma_last_index, lemma_last_index_unique};

verus! {

/// Whether a text is the name of a file, and stands for no directory by itself.
pub open spec fn is_file_name(name: Seq<char>) -> bool {
    name.len() > 0 && !name.contains('/') && name != seq!['.'] && name != seq!['.', '.']
}

proof fn lemma_after_separator(directory: Seq<char>, name: Seq<char>)
    requires
        !name.contains('/'),
    ensures
        last_index(directory + seq!['/'] + name, '/') == directory.len(),
        (directory + seq!['/'] + name).skip(directory.len() as int + 1) == name,
        (directory + seq!['/'] + name).take(directory.len() as int) == directory,
{
    let path = directory + seq!['/'] + name;
    let k = directory.len() as int;
    assert forall|i: int| k < i < path.len() implies path[i] != '/' by {
        assert(path[i] == name[i - k - 1]);
        assert(name.contains(name[i - k - 1]));
    }
    lemma_last_index_unique(path, '/', k);
    assert(path.skip(k + 1) =~= name);
    assert(path.take(k) =~= directory);
}

/// The file name of a path is what stands behind its last separator, or the whole of it.
pub proof fn the_file_name_stands_last(
    directory: Seq<char>,
    name: Seq<char>,
    bare: &str,
    path: &str,
    b: AudioPath,
    r: AudioPath,
)
    requires
        call_ensures(AudioPath::new, (bare,), b),
        call_ensures(AudioPath::new, (path,), r),
        is_file_name(name),
        bare@ == name,
        path@ == directory + seq!['/'] + name,
    ensures
        gives(b.file_name, name),
        gives(r.file_name, name),
{
    lemma_name_of_plain(name);
    lemma_after_separator(directory, name);
}

/// A separator at the end of a path, and the directory that a path is in, do not count.
pub proof fn separators_at_the_end_do_not_count(
    path: &str,
    longer: &str,
    r: AudioPath,
    q: AudioPath,
)
    requires
        call_ensures(AudioPath::new, (path,), r),
        call_ensures(AudioPath::new, (longer,), q),
        longer@ == path@ + seq!['/'] || longer@ == path@ + seq!['/', '.'],
    ensures
        q@ == r@,
{
    let end = longer@.skip(path@.len() as int + 1);
    assert(end =~= Seq::<char>::empty() || end =~= seq!['.']);
    assert(!end.contains('/'));
    assert(longer@ =~= path@ + seq!['/'] + end);
    lemma_after_separator(path@, end);
}

/// A path that ends in the parent directory has no file name, nor has one without components.
pub proof fn directories_have_no_file_name(directory: Seq<char>, path: &str, r: AudioPath)
    requires
        call_ensures(AudioPath::new, (path,), r),
        path@ == directory + seq!['/', '.', '.'] || path@ == seq!['.', '.'] || path@ == seq!['.']
            || path@.len() == 0,
    ensures
        r.file_name is None,
        r.file_stem is None,
        r.extension is None,
{
    let parent = seq!['.', '.'];
    assert(!parent.contains('/'));
    if path@ == directory + seq!['/', '.', '.'] {
        assert(path@ =~= directory + seq!['/'] + parent);
        lemma_after_separator(directory, parent);
    } else {
        lemma_last_index_unique(path@, '/', -1);
        assert(path@.skip(0) =~= path@);
    }
    assert(name_of(path@) is None);
}

/// A file name is parted at its last dot, unless that is its first character. A path without a
/// file name has no parts.
pub proof fn names_are_parted_at_the_last_dot(
    stem: Seq<char>,
    extension: Seq<char>,
    path: &str,
    r: AudioPath,
)
    requires
        call_ensures(AudioPath::new, (path,), r),
        stem.len() > 0,
        !extension.contains('.'),
    ensures
        gives(r.file_name, stem + seq!['.'] + extension) ==> gives(r.file_stem, stem) && gives(
            r.extension,
            extension,
        ),
        r.file_name is Some && (forall|i: int|
            0 < i < r.file_name->0@.len() ==> r.file_name->0@[i] != '.') ==> gives(
            r.file_stem,
            r.file_name->0@,
        ) && r.extension is None,
        r.file_name is None ==> r.file_stem is None && r.extension is None,
{
    if let Some(full) = r.file_name {
        let name = full@;
        if name == stem + seq!['.'] + extension {
            let k = stem.len() as int;
            assert forall|i: int| k < i < name.len() implies name[i] != '.' by {
                assert(extension.contains(extension[i - k - 1]));
            }
            lemma_last_index_unique(name, '.', k);
            assert(name.take(k) =~= stem);
            assert(name.skip(k + 1) =~= extension);
        }
        lemma_last_index(name, '.');
    }
}

} // verus!
