//! The capability set of a driver: the names listed in the string that the
//! driver reports once, separated by commas and spaces.

use vstd::prelude::*;

verus! {

/// The characters that separate names in a capability string.
pub open spec fn is_separator(c: char) -> bool {
    c == ',' || c == ' '
}

/// Whether `text[start..end]` is one of the pieces into which the separators
/// cut `text`: it holds no separator, and on each side it touches either a
/// separator or the end of the text. Two separators in a row enclose an
/// empty piece.
pub open spec fn is_piece(text: Seq<char>, start: int, end: int) -> bool {
    &&& 0 <= start <= end <= text.len()
    &&& start == 0 || is_separator(text[start - 1])
    &&& end == text.len() || is_separator(text[end])
    &&& forall|i: int| start <= i < end ==> !is_separator(#[trigger] text[i])
}

/// The set of names that a capability string lists.
pub open spec fn names_in(text: Seq<char>) -> Set<Seq<char>> {
    Set::new(
        |name: Seq<char>|
            exists|start: int, end: int|
                is_piece(text, start, end) && #[trigger] text.subrange(start, end) == name,
    )
}

/// The set of the strings held in a list.
spec fn string_set(names: Seq<String>) -> Set<Seq<char>> {
    Set::new(|name: Seq<char>| exists|i: int| 0 <= i < names.len() && (#[trigger] names[i])@ == name)
}

/// Every piece that ends before `limit` is in `names`, and `names` holds
/// pieces only.
spec fn collected(text: Seq<char>, names: Seq<String>, limit: int) -> bool {
    &&& forall|start: int, end: int|
        is_piece(text, start, end) && end < limit ==> string_set(names).contains(
            #[trigger] text.subrange(start, end),
        )
    &&& forall|i: int|
        0 <= i < names.len() ==> names_in(text).contains((#[trigger] names[i])@)
}

/// Cuts a capability string into the names it lists.
fn split_names(text: &str) -> (names: Vec<String>)
    ensures
        string_set(names@) == names_in(text@),
{
    let len: usize = text.unicode_len();
    let mut names: Vec<String> = Vec::new();
    let mut start: usize = 0;
    let mut k: usize = 0;
    for c in it: text.chars()
        invariant
            len == text@.len(),
            it.seq() == text@,
            k == it.index(),
            start <= k <= len,
            start == 0 || is_separator(text@[start - 1]),
            forall|i: int| start <= i < k ==> !is_separator(#[trigger] text@[i]),
            collected(text@, names@, start as int),
    {
        assert(c == text@[k as int]);
        if c == ',' || c == ' ' {
            let name = text.substring_char(start, k).to_owned();
            proof {
                assert(is_piece(text@, start as int, k as int));
                lemma_collect(text@, names@, name, start as int, k as int);
            }
            names.push(name);
            start = k + 1;
        }
        k = k + 1;
    }
    let name = text.substring_char(start, len).to_owned();
    proof {
        assert(is_piece(text@, start as int, len as int));
        lemma_collect(text@, names@, name, start as int, len as int);
    }
    names.push(name);
    proof {
        let all = names@;
        assert forall|name: Seq<char>| names_in(text@).contains(name) implies string_set(
            all,
        ).contains(name) by {
            let (s, e) = choose|s: int, e: int|
                is_piece(text@, s, e) && #[trigger] text@.subrange(s, e) == name;
            assert(e < len + 1);
        }
        assert forall|name: Seq<char>| string_set(all).contains(name) implies names_in(
            text@,
        ).contains(name) by {
            let i = choose|i: int| 0 <= i < all.len() && (#[trigger] all[i])@ == name;
            assert(names_in(text@).contains(all[i]@));
        }
        assert(string_set(all) =~= names_in(text@));
    }
    names
}

/// Adding the piece that runs from `start` to `end` to the names collected
/// up to `start` gives the names collected up to the place after `end`.
proof fn lemma_collect(text: Seq<char>, names: Seq<String>, name: String, start: int, end: int)
    requires
        collected(text, names, start),
        is_piece(text, start, end),
        name@ == text.subrange(start, end),
    ensures
        collected(text, names.push(name), end + 1),
{
    let grown = names.push(name);
    assert forall|s: int, e: int| is_piece(text, s, e) && e < end + 1 implies string_set(
        grown,
    ).contains(#[trigger] text.subrange(s, e)) by {
        if e < start {
            let i = choose|i: int|
                0 <= i < names.len() && (#[trigger] names[i])@ == text.subrange(s, e);
            assert(grown[i] == names[i]);
        } else {
            // A piece cannot end inside another piece, nor begin inside one.
            if e < end {
                assert(!is_separator(text[e]));
            }
            assert(e == end);
            if s < start {
                assert(!is_separator(text[start - 1]));
            }
            if s > start {
                assert(!is_separator(text[s - 1]));
            }
            assert(s == start);
            assert(grown[names.len() as int]@ == text.subrange(s, e));
        }
    }
    assert forall|i: int| 0 <= i < grown.len() implies names_in(text).contains(
        (#[trigger] grown[i])@,
    ) by {
        if i < names.len() {
            assert(grown[i] == names[i]);
        } else {
            assert(grown[i]@ == text.subrange(start, end));
        }
    }
}

/// Whether `gl_extensions` holds at least one of `names`.
pub open spec fn any_listed(gl_extensions: Set<Seq<char>>, names: Seq<Seq<char>>) -> bool {
    exists|i: int| 0 <= i < names.len() && gl_extensions.contains(#[trigger] names[i])
}

/// The texts of a list of string slices.
pub open spec fn str_views(names: Seq<&str>) -> Seq<Seq<char>> {
    Seq::new(names.len(), |i: int| names[i]@)
}

/// The capabilities that a driver has reported: a set of names.
pub struct CapabilitySet {
    names: Vec<String>,
}

impl View for CapabilitySet {
    type V = Set<Seq<char>>;

    closed spec fn view(&self) -> Set<Seq<char>> {
        string_set(self.names@)
    }
}

impl CapabilitySet {
    /// The capabilities of a driver that has not been asked yet: none.
    pub fn new() -> (capabilities: CapabilitySet)
        ensures
            capabilities@ == Set::<Seq<char>>::empty(),
    {
        let capabilities = CapabilitySet { names: Vec::new() };
        assert(capabilities@ =~= Set::empty());
        capabilities
    }

    /// The capabilities that the capability string `text` lists.
    pub fn parse(text: &str) -> (capabilities: CapabilitySet)
        ensures
            capabilities@ == names_in(text@),
    {
        CapabilitySet { names: split_names(text) }
    }

    /// Whether the driver has reported the capability `name`, letter for
    /// letter.
    pub fn contains(&self, name: &str) -> (found: bool)
        ensures
            found == self@.contains(name@),
    {
        let wanted = name.to_owned();
        let mut i: usize = 0;
        while i < self.names.len()
            invariant
                i <= self.names@.len(),
                wanted@ == name@,
                forall|j: int| 0 <= j < i ==> (#[trigger] self.names@[j])@ != name@,
            decreases self.names@.len() - i,
        {
            if self.names[i] == wanted {
                return true;
            }
            i = i + 1;
        }
        false
    }

    /// Whether the driver has reported at least one of the capabilities
    /// `names`.
    pub fn contains_any(&self, names: &[&str]) -> (found: bool)
        ensures
            found == any_listed(self@, str_views(names@)),
    {
        let mut i: usize = 0;
        while i < names.len()
            invariant
                i <= names@.len(),
                forall|j: int| 0 <= j < i ==> !self@.contains(#[trigger] str_views(names@)[j]),
            decreases names@.len() - i,
        {
            if self.contains(names[i]) {
                assert(self@.contains(str_views(names@)[i as int]));
                return true;
            }
            i = i + 1;
        }
        false
    }
}

} // verus!
