//! The members of an opened archive container, as a finite sequence that can
//! be walked again from any index and that passes over members without a
//! name.

use vstd::prelude::*;
use vstd::string::StrSliceExecFns;
use crate::text::has_suffix;

verus! {

/// One member of an archive: its name, if the archive records one, and its
/// content.
#[derive(Debug)]
pub struct ArchiveMember {
    pub name: Option<String>,
    pub data: Vec<u8>,
}

/// The index of the first member at or after `from` that bears `name`.
pub open spec fn position_from(members: Seq<ArchiveMember>, name: Seq<char>, from: int) -> Option<int>
    decreases members.len() - from,
{
    if from < 0 || from >= members.len() {
        None
    } else if members[from].name is Some && members[from].name->Some_0@ == name {
        Some(from)
    } else {
        position_from(members, name, from + 1)
    }
}

/// Whether two texts are the same, character by character.
pub fn same_text(a: &str, b: &str) -> (r: bool)
    ensures
        r == (a@ == b@),
{
    if a.unicode_len() != b.unicode_len() {
        return false;
    }
    let r = has_suffix(a, b);
    proof {
        assert(a@.subrange(0, a@.len() as int) =~= a@);
    }
    r
}

/// The members of one archive, in the order of the archive.
#[derive(Debug)]
pub struct Archive {
    members: Vec<ArchiveMember>,
}

impl Archive {
    /// The members, nameless ones included.
    pub closed spec fn members(&self) -> Seq<ArchiveMember> {
        self.members@
    }

    /// The member at `i` has a name.
    pub open spec fn is_named(&self, i: int) -> bool {
        0 <= i < self.members().len() && self.members()[i].name is Some
    }

    /// An archive of the given members.
    pub fn new(members: Vec<ArchiveMember>) -> (a: Archive)
        ensures
            a.members() == members@,
    {
        Archive { members }
    }

    /// The number of members, nameless ones included.
    pub fn len(&self) -> (n: usize)
        ensures
            n == self.members().len(),
    {
        self.members.len()
    }

    /// The index of the first member at or after `from` that has a name;
    /// `None` where no such member is left.
    pub fn next_named(&self, from: usize) -> (r: Option<usize>)
        ensures
            match r {
                Some(i) => from <= i && self.is_named(i as int) && forall|j: int|
                    from <= j < i ==> !self.is_named(j),
                None => forall|j: int| from <= j ==> !self.is_named(j),
            },
    {
        let mut i: usize = from;
        while i < self.members.len()
            invariant
                from <= i,
                forall|j: int| from <= j < i ==> !self.is_named(j),
            decreases self.members.len() - i,
        {
            if self.members[i].name.is_some() {
                return Some(i);
            }
            i += 1;
        }
        None
    }

    /// The member at `i` bears `name`.
    pub open spec fn has_name(&self, i: int, name: Seq<char>) -> bool {
        self.is_named(i) && self.members()[i].name->Some_0@ == name
    }

    /// The content of the first member that bears `name`, if there is one.
    pub open spec fn blob(&self, name: Seq<char>) -> Option<Seq<u8>> {
        match position_from(self.members(), name, 0) {
            Some(i) => Some(self.members()[i].data@),
            None => None,
        }
    }

    /// The index of the first member that bears `name`; `None` where no
    /// member does.
    pub fn find(&self, name: &str) -> (r: Option<usize>)
        ensures
            match r {
                Some(i) => self.has_name(i as int, name@) && forall|j: int|
                    0 <= j < i ==> !self.has_name(j, name@),
                None => forall|j: int| !self.has_name(j, name@),
            },
            match r {
                Some(i) => position_from(self.members(), name@, 0) == Some(i as int),
                None => position_from(self.members(), name@, 0) is None,
            },
    {
        let mut i: usize = 0;
        while i < self.members.len()
            invariant
                forall|j: int| 0 <= j < i ==> !self.has_name(j, name@),
                position_from(self.members(), name@, 0) == position_from(
                    self.members(),
                    name@,
                    i as int,
                ),
            decreases self.members.len() - i,
        {
            let found = match &self.members[i].name {
                Some(own) => same_text(own.as_str(), name),
                None => false,
            };
            if found {
                return Some(i);
            }
            i += 1;
        }
        None
    }

    /// The name of the named member at `i`.
    pub fn name(&self, i: usize) -> (name: &str)
        requires
            self.is_named(i as int),
        ensures
            name@ == self.members()[i as int].name->Some_0@,
    {
        match &self.members[i].name {
            Some(name) => name.as_str(),
            None => "",
        }
    }

    /// The content of the member at `i`.
    pub fn data(&self, i: usize) -> (data: &[u8])
        requires
            i < self.members().len(),
        ensures
            data@ == self.members()[i as int].data@,
    {
        self.members[i].data.as_slice()
    }
}

} // verus!
