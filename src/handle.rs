use vstd::prelude::*;

use crate::error::{reports, win32_error, Error, LastError, Result, Win32Function};

verus! {

/// One native handle and the number of strong owners it has left.
struct Slot {
    raw: usize,
    strong: u64,
}

/// The table of native handles this library owns. Each entry holds a raw token and
/// its count of strong owners; an entry whose count has fallen to zero has been
/// released and stays released, so a weak handle to it never upgrades again.
pub struct HandleTable {
    slots: Vec<Slot>,
}

/// A strong owner of a table entry. The last one released hands back the raw token
/// for its one teardown call.
#[derive(Debug)]
pub struct Strong {
    index: usize,
}

/// A weak observer of a table entry: it keeps nothing alive.
#[derive(Debug, Clone, Copy, PartialEq, Eq, Hash)]
pub struct Weak {
    index: usize,
}

impl Strong {
    /// The entry this owner refers to.
    pub closed spec fn id(&self) -> int {
        self.index as int
    }
}

impl Weak {
    /// The entry this observer refers to.
    pub closed spec fn id(&self) -> int {
        self.index as int
    }
}

/// Whether entry `i` of a table still has a strong owner.
pub open spec fn live(t: Seq<(usize, u64)>, i: int) -> bool {
    0 <= i < t.len() && t[i].1 > 0
}

/// The table after one strong owner of entry `i` is released.
pub open spec fn after_release(t: Seq<(usize, u64)>, i: int) -> Seq<(usize, u64)> {
    t.update(i, (t[i].0, (t[i].1 - 1) as u64))
}

/// The table after entry `i` gains a strong owner.
pub open spec fn after_share(t: Seq<(usize, u64)>, i: int) -> Seq<(usize, u64)> {
    t.update(i, (t[i].0, (t[i].1 + 1) as u64))
}

impl View for HandleTable {
    type V = Seq<(usize, u64)>;

    /// Each entry's raw token and count of strong owners.
    closed spec fn view(&self) -> Seq<(usize, u64)> {
        self.slots@.map_values(|s: Slot| (s.raw, s.strong))
    }
}

impl HandleTable {
    /// Whether `s` is a live owner in this table.
    pub open spec fn holds(&self, s: &Strong) -> bool {
        live(self@, s.id())
    }

    /// An empty table.
    pub fn new() -> (r: HandleTable)
        ensures
            r@ == Seq::<(usize, u64)>::empty(),
    {
        let r = HandleTable { slots: Vec::new() };
        assert(r@ =~= Seq::<(usize, u64)>::empty());
        r
    }

    /// The number of entries ever made.
    pub fn len(&self) -> (r: usize)
        ensures
            r == self@.len(),
    {
        self.slots.len()
    }

    /// Takes ownership of a raw token: a new entry with one strong owner.
    pub fn insert(&mut self, raw: usize) -> (s: Strong)
        requires
            old(self)@.len() < usize::MAX,
        ensures
            final(self)@ == old(self)@.push((raw, 1u64)),
            s.id() == old(self)@.len(),
    {
        let index = self.slots.len();
        self.slots.push(Slot { raw, strong: 1 });
        assert(self@ =~= old(self)@.push((raw, 1u64)));
        Strong { index }
    }

    /// Takes ownership of what a creation call returned: a null token is the
    /// call's failure, reported from what the platform gave in `last`.
    pub fn acquire(&mut self, raw: usize, function: Win32Function, last: &LastError) -> (r: Result<Strong>)
        requires
            old(self)@.len() < usize::MAX,
        ensures
            r is Ok <==> raw != 0,
            r matches Ok(s) ==> final(self)@ == old(self)@.push((raw, 1u64)) && s.id() == old(
                self,
            )@.len(),
            r matches Err(e) ==> final(self)@ == old(self)@ && reports(e, function, *last),
    {
        if raw == 0 {
            Err(win32_error(function, last))
        } else {
            Ok(self.insert(raw))
        }
    }

    /// A weak observer of the same entry; never fails.
    pub fn downgrade(&self, s: &Strong) -> (w: Weak)
        ensures
            w.id() == s.id(),
    {
        Weak { index: s.index }
    }

    /// The number of strong owners left for the entry a weak handle observes.
    pub fn strong_count(&self, w: &Weak) -> (r: u64)
        ensures
            0 <= w.id() < self@.len() ==> r == self@[w.id()].1,
            !(0 <= w.id() < self@.len()) ==> r == 0,
    {
        if w.index < self.slots.len() {
            self.slots[w.index].strong
        } else {
            0
        }
    }

    /// Another strong owner of the same entry.
    pub fn share(&mut self, s: &Strong) -> (r: Strong)
        requires
            old(self).holds(s),
            old(self)@[s.id()].1 < u64::MAX,
        ensures
            final(self)@ == after_share(old(self)@, s.id()),
            r.id() == s.id(),
    {
        let i = s.index;
        let n = self.slots[i].strong;
        let raw = self.slots[i].raw;
        self.slots.set(i, Slot { raw, strong: n + 1 });
        assert(self@ =~= after_share(old(self)@, s.id()));
        Strong { index: i }
    }

    /// A strong owner of the entry a weak handle observes, while one survives.
    pub fn upgrade(&mut self, w: &Weak) -> (r: Result<Strong>)
        requires
            live(old(self)@, w.id()) ==> old(self)@[w.id()].1 < u64::MAX,
        ensures
            r is Ok <==> live(old(self)@, w.id()),
            r matches Ok(s) ==> s.id() == w.id() && final(self)@ == after_share(old(self)@, w.id()),
            r matches Err(e) ==> e == Error::ExpiredWeakPtr && final(self)@ == old(self)@,
    {
        if w.index < self.slots.len() && self.slots[w.index].strong > 0 {
            let s = Strong { index: w.index };
            Ok(self.share(&s))
        } else {
            Err(Error::ExpiredWeakPtr)
        }
    }

    /// The raw token of a live entry, for passing to a native call.
    pub fn raw(&self, s: &Strong) -> (r: usize)
        requires
            self.holds(s),
        ensures
            r == self@[s.id()].0,
    {
        self.slots[s.index].raw
    }

    /// The raw token of the entry a weak handle observes, while it is live.
    pub fn raw_of_weak(&self, w: &Weak) -> (r: Result<usize>)
        ensures
            r is Ok <==> live(self@, w.id()),
            r matches Ok(raw) ==> raw == self@[w.id()].0,
            r matches Err(e) ==> e == Error::ExpiredWeakPtr,
    {
        if w.index < self.slots.len() && self.slots[w.index].strong > 0 {
            Ok(self.slots[w.index].raw)
        } else {
            Err(Error::ExpiredWeakPtr)
        }
    }

    /// Releases one strong owner. The release of the last one hands back the raw token,
    /// which the caller passes to the handle's teardown call; no other release does.
    pub fn release(&mut self, s: Strong) -> (r: Option<usize>)
        requires
            old(self).holds(&s),
        ensures
            final(self)@ == after_release(old(self)@, s.id()),
            r is Some <==> old(self)@[s.id()].1 == 1,
            r matches Some(raw) ==> raw == old(self)@[s.id()].0,
    {
        let i = s.index;
        let n = self.slots[i].strong;
        let raw = self.slots[i].raw;
        self.slots.set(i, Slot { raw, strong: n - 1 });
        assert(self@ =~= after_release(old(self)@, s.id()));
        if n == 1 {
            Some(raw)
        } else {
            None
        }
    }
}

/// A weak handle taken from a fresh strong owner upgrades while that owner lives,
/// and no longer once it has been released; every further release attempt finds the
/// entry dead, so its teardown token is handed out once only.
pub proof fn law_weak_expires(t: Seq<(usize, u64)>, raw: usize)
    ensures
        live(t.push((raw, 1u64)), t.len() as int),
        !live(after_release(t.push((raw, 1u64)), t.len() as int), t.len() as int),
        after_release(t.push((raw, 1u64)), t.len() as int)[t.len() as int].0 == raw,
{
}

/// Sharing an entry and releasing one owner leaves it as it was; an entry with two
/// owners stays live after one of them is released.
pub proof fn law_share_release(t: Seq<(usize, u64)>, i: int)
    requires
        live(t, i),
        t[i].1 < u64::MAX,
    ensures
        after_release(after_share(t, i), i) == t,
        live(after_release(after_share(t, i), i), i),
{
    assert(after_release(after_share(t, i), i) =~= t);
}

} // verus!
