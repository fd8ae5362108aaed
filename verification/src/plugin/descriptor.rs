//! The descriptor a plugin hands to its host.
//!
//! A plugin names itself by a null-terminated text, so a name ends where the
//! first NUL stands.

use vstd::prelude::*;
use vstd::string::*;

verus! {

/// Where the name in `text` ends: at the first NUL, or at the end of the
/// text when it holds none.
pub open spec fn name_end(text: Seq<char>) -> int
    decreases text.len(),
{
    if text.len() == 0 || text[0] == '\0' {
        0
    } else {
        1 + name_end(text.drop_first())
    }
}

/// The name in `text`: what stands before the first NUL.
pub open spec fn name_in(text: Seq<char>) -> Seq<char> {
    text.subrange(0, name_end(text))
}

/// The name ends at the first position that holds a NUL or lies at the end
/// of the text.
pub proof fn name_ends_at_first_nul(text: Seq<char>, end: int)
    requires
        0 <= end <= text.len(),
        forall|i: int| 0 <= i < end ==> text[i] != '\0',
        end == text.len() || text[end] == '\0',
    ensures
        name_end(text) == end,
    decreases text.len(),
{
    if end > 0 {
        let rest = text.drop_first();
        assert forall|i: int| 0 <= i < end - 1 implies rest[i] != '\0' by {
            assert(rest[i] == text[i + 1]);
        }
        name_ends_at_first_nul(rest, end - 1);
    }
}

/// A text without a NUL is a name as it stands.
pub proof fn text_without_nul_is_its_name(text: Seq<char>)
    requires
        forall|i: int| 0 <= i < text.len() ==> text[i] != '\0',
    ensures
        name_in(text) == text,
{
    name_ends_at_first_nul(text, text.len() as int);
    assert(text.subrange(0, text.len() as int) =~= text);
}

/// A name holds no NUL, and taking the name of a name changes nothing.
pub proof fn name_holds_no_nul(text: Seq<char>)
    ensures
        0 <= name_end(text) <= text.len(),
        forall|i: int| 0 <= i < name_in(text).len() ==> name_in(text)[i] != '\0',
        name_in(name_in(text)) == name_in(text),
    decreases text.len(),
{
    if text.len() == 0 || text[0] == '\0' {
        assert(name_in(text) =~= Seq::<char>::empty());
        assert(name_in(name_in(text)) =~= name_in(text));
    } else {
        let rest = text.drop_first();
        name_holds_no_nul(rest);
        assert forall|i: int| 0 <= i < name_in(text).len() implies name_in(text)[i] != '\0' by {
            if i > 0 {
                assert(name_in(text)[i] == name_in(rest)[i - 1]);
            }
        }
        text_without_nul_is_its_name(name_in(text));
    }
}

/// A plugin's descriptor, holding its own copy of the plugin's name.
///
/// The name is copied out of the loaded library when the descriptor is
/// extracted, so a `Plugin` stays valid after its library is unloaded.
#[derive(Debug)]
pub struct Plugin {
    name: String,
}

impl View for Plugin {
    type V = Seq<char>;

    closed spec fn view(&self) -> Seq<char> {
        self.name@
    }
}

impl Plugin {
    /// A descriptor for the plugin named in `name`: the name is what stands
    /// before the first NUL, or all of `name` when it holds none.
    pub fn new(name: &str) -> (p: Plugin)
        ensures
            p@ == name@.subrange(0, name_end(name@)),
    {
        let len: usize = name.unicode_len();
        let mut end: usize = 0;
        while end < len && name.get_char(end) != '\0'
            invariant
                len == name@.len(),
                end <= len,
                forall|i: int| 0 <= i < end ==> name@[i] != '\0',
            decreases len - end,
        {
            end = end + 1;
        }
        proof {
            name_ends_at_first_nul(name@, end as int);
        }
        Plugin { name: name.substring_char(0, end).to_owned() }
    }

    /// The plugin's name.
    pub fn name(&self) -> (n: &str)
        ensures
            n@ == self@,
    {
        self.name.as_str()
    }

    /// An independent copy of the descriptor.
    pub fn duplicate(&self) -> (p: Plugin)
        ensures
            p@ == self@,
    {
        Plugin { name: self.name.clone() }
    }
}

} // verus!
