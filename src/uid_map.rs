use vstd::prelude::*;

use crate::name_map::NameMap;

verus! {

/// The identifier of a path that was never given one.
pub const UNASSIGNED_UID: i64 = -1;

/// The identifier that the table `m` gives `path`.
pub open spec fn uid_of(m: Map<Seq<char>, i64>, path: Seq<char>) -> i64 {
    if m.contains_key(path) {
        m[path]
    } else {
        UNASSIGNED_UID
    }
}

/// The identifiers that saving assigns to resource paths, consulted when
/// loading. It lives for the session only.
pub struct UidMap {
    uids: NameMap<i64>,
}

impl UidMap {
    pub closed spec fn wf(&self) -> bool {
        self.uids.wf()
    }

    pub closed spec fn view(&self) -> Map<Seq<char>, i64> {
        self.uids.view()
    }

    /// A table in which no path has an identifier.
    pub fn new() -> (r: Self)
        ensures
            r.wf(),
            r@ == Map::<Seq<char>, i64>::empty(),
    {
        UidMap { uids: NameMap::new() }
    }

    /// Gives `path` the identifier `uid`, replacing any earlier one.
    pub fn set_uid(&mut self, path: String, uid: i64)
        requires
            old(self).wf(),
        ensures
            final(self).wf(),
            final(self)@ == old(self)@.insert(path@, uid),
    {
        if self.uids.contains(&path) {
            self.uids.set(path, uid);
        } else {
            self.uids.declare(path, uid);
        }
    }

    /// The identifier of `path`, or `UNASSIGNED_UID` where it has none.
    pub fn get_uid(&self, path: &String) -> (r: i64)
        requires
            self.wf(),
        ensures
            r == uid_of(self@, path@),
    {
        match self.uids.get(path) {
            Some(uid) => *uid,
            None => UNASSIGNED_UID,
        }
    }
}

/// After a path is given an identifier, looking it up gives that identifier,
/// and every other path keeps the identifier it had.
pub proof fn lemma_set_then_get_uid(
    m: Map<Seq<char>, i64>,
    path: Seq<char>,
    uid: i64,
    other: Seq<char>,
)
    ensures
        uid_of(m.insert(path, uid), path) == uid,
        other != path ==> uid_of(m.insert(path, uid), other) == uid_of(m, other),
{
}

/// A path that was never given an identifier has none.
pub proof fn lemma_unknown_path(path: Seq<char>)
    ensures
        uid_of(Map::<Seq<char>, i64>::empty(), path) == UNASSIGNED_UID,
{
}

} // verus!
