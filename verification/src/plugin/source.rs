//! Which directory entries are plugin sources, and what a source is called.
//!
//! An entry is a candidate when its file name holds the source suffix
//! somewhere. The plugin's logical name is the file name with the suffix
//! removed; where the suffix stands more than once, the last one goes.

use vstd::prelude::*;
use vstd::string::*;

verus! {

/// The suffix that marks a plugin source, as it stands in a file name.
pub const SOURCE_SUFFIX: &'static str = ".bfps";

/// The number of characters in the source suffix.
pub const SUFFIX_LEN: usize = 5;

/// Whether the suffix `.bfps` stands in `name` at position `at`.
pub open spec fn suffix_at(name: Seq<char>, at: int) -> bool {
    &&& 0 <= at
    &&& at + 5 <= name.len()
    &&& name[at] == '.'
    &&& name[at + 1] == 'b'
    &&& name[at + 2] == 'f'
    &&& name[at + 3] == 'p'
    &&& name[at + 4] == 's'
}

/// Whether `at` is the last position at which the suffix stands in `name`.
pub open spec fn last_suffix_at(name: Seq<char>, at: int) -> bool {
    &&& suffix_at(name, at)
    &&& forall|later: int| at < later ==> !suffix_at(name, later)
}

/// Whether a file of this name is a plugin candidate: the suffix stands
/// somewhere in it.
pub open spec fn is_candidate(file_name: Seq<char>) -> bool {
    exists|at: int| suffix_at(file_name, at)
}

/// `name` without the five characters that start at `at`.
pub open spec fn without_suffix(name: Seq<char>, at: int) -> Seq<char> {
    name.subrange(0, at) + name.subrange(at + 5, name.len() as int)
}

/// The logical name of the plugin in a file of this name: the file name with
/// the last suffix in it removed. Every candidate has one, and no other file.
pub open spec fn logical_name(file_name: Seq<char>) -> Option<Seq<char>> {
    if is_candidate(file_name) {
        Some(without_suffix(file_name, choose|at: int| last_suffix_at(file_name, at)))
    } else {
        None
    }
}

/// A directory entry: where the file is, and the final component of that path.
#[derive(Debug)]
pub struct PluginSource {
    pub path: String,
    pub file_name: String,
}

/// The texts of a directory entry.
pub struct PluginSourceView {
    pub path: Seq<char>,
    pub file_name: Seq<char>,
}

impl View for PluginSource {
    type V = PluginSourceView;

    open spec fn view(&self) -> PluginSourceView {
        PluginSourceView { path: self.path@, file_name: self.file_name@ }
    }
}

impl PluginSource {
    /// The entry at `path` whose final component is `file_name`.
    pub fn new(path: &str, file_name: &str) -> (source: PluginSource)
        ensures
            source@.path == path@,
            source@.file_name == file_name@,
    {
        PluginSource { path: path.to_owned(), file_name: file_name.to_owned() }
    }

    /// The logical name of the plugin in this entry, if it is a candidate.
    pub fn name(&self) -> (name: Option<String>)
        ensures
            name is Some == is_candidate(self@.file_name),
            name matches Some(text) ==> logical_name(self@.file_name) == Some(text@),
    {
        derive_name(self.file_name.as_str())
    }
}

/// The last position at which the suffix stands in `file_name`, counted in
/// characters, if it stands there at all.
pub fn find_suffix(file_name: &str) -> (found: Option<usize>)
    ensures
        found is Some == is_candidate(file_name@),
        found matches Some(at) ==> last_suffix_at(file_name@, at as int),
{
    let len: usize = file_name.unicode_len();
    if len < SUFFIX_LEN {
        assert(forall|at: int| !suffix_at(file_name@, at));
        return None;
    }
    let mut at: usize = len - SUFFIX_LEN;
    loop
        invariant
            len == file_name@.len(),
            at + 5 <= len,
            forall|later: int| at < later ==> !suffix_at(file_name@, later),
        decreases at,
    {
        if file_name.get_char(at) == '.' && file_name.get_char(at + 1) == 'b'
            && file_name.get_char(at + 2) == 'f' && file_name.get_char(at + 3) == 'p'
            && file_name.get_char(at + 4) == 's' {
            assert(suffix_at(file_name@, at as int));
            return Some(at);
        }
        if at == 0 {
            assert(forall|any: int| !suffix_at(file_name@, any));
            return None;
        }
        at = at - 1;
    }
}

/// Whether the source suffix stands somewhere in `file_name`.
pub fn contains_suffix(file_name: &str) -> (found: bool)
    ensures
        found == is_candidate(file_name@),
{
    find_suffix(file_name).is_some()
}

/// Derives the logical name of the plugin in a file of the given name.
pub fn derive_name(file_name: &str) -> (name: Option<String>)
    ensures
        name is Some == is_candidate(file_name@),
        name matches Some(text) ==> logical_name(file_name@) == Some(text@),
{
    match find_suffix(file_name) {
        None => None,
        Some(at) => {
            let len: usize = file_name.unicode_len();
            let mut name = file_name.substring_char(0, at).to_owned();
            name.append(file_name.substring_char(at + SUFFIX_LEN, len));
            proof {
                last_suffix_is_unique(
                    file_name@,
                    at as int,
                    choose|other: int| last_suffix_at(file_name@, other),
                );
            }
            Some(name)
        },
    }
}

/// The suffix has one last position: two positions that are both the last
/// are the same.
pub proof fn last_suffix_is_unique(name: Seq<char>, at: int, other: int)
    requires
        last_suffix_at(name, at),
        last_suffix_at(name, other),
    ensures
        at == other,
{
}

/// A file name made of `front`, the suffix and `back`, where the suffix does
/// not stand in `back`, is a candidate, and its plugin's logical name is
/// `front` followed by `back`.
pub proof fn suffix_is_removed(front: Seq<char>, back: Seq<char>)
    requires
        !is_candidate(back),
    ensures
        is_candidate(front + SOURCE_SUFFIX@ + back),
        logical_name(front + SOURCE_SUFFIX@ + back) == Some(front + back),
{
    reveal_strlit(".bfps");
    let name = front + SOURCE_SUFFIX@ + back;
    let at = front.len() as int;
    assert(suffix_at(name, at));
    assert forall|later: int| at < later implies !suffix_at(name, later) by {
        if suffix_at(name, later) {
            if later < at + 5 {
                assert(name[later] == SOURCE_SUFFIX@[later - at]);
            } else {
                assert(name[later] == back[later - at - 5]);
                assert(name[later + 1] == back[later + 1 - at - 5]);
                assert(name[later + 2] == back[later + 2 - at - 5]);
                assert(name[later + 3] == back[later + 3 - at - 5]);
                assert(name[later + 4] == back[later + 4 - at - 5]);
                assert(suffix_at(back, later - at - 5));
            }
        }
    }
    assert(last_suffix_at(name, at));
    last_suffix_is_unique(name, at, choose|other: int| last_suffix_at(name, other));
    assert(without_suffix(name, at) =~= front + back);
}

/// A file named by a stem followed by the suffix is a candidate, and the
/// stem is its plugin's logical name.
pub proof fn stem_is_logical_name(stem: Seq<char>)
    ensures
        is_candidate(stem + SOURCE_SUFFIX@),
        logical_name(stem + SOURCE_SUFFIX@) == Some(stem),
{
    let nothing = Seq::<char>::empty();
    assert(!is_candidate(nothing));
    suffix_is_removed(stem, nothing);
    assert(stem + SOURCE_SUFFIX@ + nothing =~= stem + SOURCE_SUFFIX@);
    assert(stem + nothing =~= stem);
}

} // verus!
