use vstd::prelude::*;

verus! {

/// Identifier of a tab inside a workspace.
#[derive(Clone, Copy, Debug, PartialEq, Eq, Hash, PartialOrd, Ord, Structural)]
pub struct TabId(pub u32);

impl TabId {
    pub fn new(n: u32) -> (id: TabId)
        ensures
            id.0 == n,
    {
        TabId(n)
    }

    pub fn get(&self) -> (n: u32)
        ensures
            n == self.0,
    {
        self.0
    }
}

/// Identifier of an explicit tab group inside a workspace.
#[derive(Clone, Copy, Debug, PartialEq, Eq, Hash, PartialOrd, Ord, Structural)]
pub struct GroupId(pub u32);

impl GroupId {
    pub fn new(n: u32) -> (id: GroupId)
        ensures
            id.0 == n,
    {
        GroupId(n)
    }

    pub fn get(&self) -> (n: u32)
        ensures
            n == self.0,
    {
        self.0
    }
}

} // verus!
