use vstd::prelude::*;

verus! {

/// The abstract contents of an [`AttrMap`]: its entries in insertion order.
pub type AttrSeq = Seq<(Seq<char>, Seq<char>)>;

/// Whether no name occurs twice among the entries.
pub open spec fn names_unique(s: AttrSeq) -> bool {
    forall|i: int, j: int|
        0 <= i < s.len() && 0 <= j < s.len() && i != j ==> #[trigger] s[i].0 != #[trigger] s[j].0
}

/// The position of the entry called `name`, if any.
pub open spec fn index_of(s: AttrSeq, name: Seq<char>) -> Option<int> {
    if exists|i: int| 0 <= i < s.len() && s[i].0 == name {
        Some(choose|i: int| 0 <= i < s.len() && s[i].0 == name)
    } else {
        None
    }
}

/// `s` with `name` bound to `value`: an existing entry keeps its place,
/// a new one goes last.
pub open spec fn attr_set(s: AttrSeq, name: Seq<char>, value: Seq<char>) -> AttrSeq {
    match index_of(s, name) {
        Some(i) => s.update(i, (name, value)),
        None => s.push((name, value)),
    }
}

/// `s` without the entry called `name`.
pub open spec fn attr_unset(s: AttrSeq, name: Seq<char>) -> AttrSeq {
    match index_of(s, name) {
        Some(i) => s.remove(i),
        None => s,
    }
}

/// The value bound to `name`, if any.
pub open spec fn attr_get(s: AttrSeq, name: Seq<char>) -> Option<Seq<char>> {
    match index_of(s, name) {
        Some(i) => Some(s[i].1),
        None => None,
    }
}

/// The abstract form of a list of string pairs.
pub open spec fn view_of(v: Seq<(String, String)>) -> AttrSeq {
    v.map_values(|p: (String, String)| (p.0@, p.1@))
}

/// A string-to-string map of certificate attributes (extensions or critical
/// options). Names are unique; entries keep the order of first insertion.
pub struct AttrMap {
    entries: Vec<(String, String)>,
}

impl View for AttrMap {
    type V = AttrSeq;

    closed spec fn view(&self) -> AttrSeq {
        view_of(self.entries@)
    }
}

impl AttrMap {
    #[verifier::type_invariant]
    spec fn inv(&self) -> bool {
        names_unique(self@)
    }

    pub fn new() -> (r: AttrMap)
        ensures
            r@ == Seq::<(Seq<char>, Seq<char>)>::empty(),
    {
        let r = AttrMap { entries: Vec::new() };
        assert(r@ =~= Seq::<(Seq<char>, Seq<char>)>::empty());
        r
    }

    pub fn len(&self) -> (r: usize)
        ensures
            r == self@.len(),
            names_unique(self@),
    {
        proof {
            use_type_invariant(self);
        }
        self.entries.len()
    }

    /// Finds the position of `name`.
    fn find(&self, name: &String) -> (r: Option<usize>)
        ensures
            match r {
                Some(i) => index_of(self@, name@) == Some(i as int),
                None => index_of(self@, name@) is None,
            },
    {
        proof {
            use_type_invariant(self);
        }
        let mut i: usize = 0;
        while i < self.entries.len()
            invariant
                0 <= i <= self.entries@.len(),
                names_unique(self@),
                self@.len() == self.entries@.len(),
                forall|j: int| 0 <= j < i ==> #[trigger] self@[j].0 != name@,
            decreases self.entries@.len() - i,
        {
            if self.entries[i].0 == *name {
                assert(self@[i as int].0 == name@);
                proof {
                    let k = choose|k: int| 0 <= k < self@.len() && self@[k].0 == name@;
                    if k != i as int {
                        assert(self@[k].0 != self@[i as int].0);
                    }
                }
                return Some(i);
            }
            i = i + 1;
        }
        None
    }

    /// The value bound to `name`.
    pub fn get(&self, name: &String) -> (r: Option<&String>)
        ensures
            match r {
                Some(v) => attr_get(self@, name@) == Some(v@),
                None => attr_get(self@, name@) is None,
            },
    {
        match self.find(name) {
            Some(i) => Some(&self.entries[i].1),
            None => None,
        }
    }

    /// Binds `name` to `value`, replacing an earlier value in place.
    pub fn set(&mut self, name: String, value: String)
        ensures
            final(self)@ == attr_set(old(self)@, name@, value@),
    {
        proof {
            use_type_invariant(&*self);
        }
        let ghost s0 = self@;
        match self.find(&name) {
            Some(i) => {
                let mut entries: Vec<(String, String)> = Vec::new();
                std::mem::swap(&mut entries, &mut self.entries);
                entries.set(i, (name, value));
                assert(view_of(entries@) =~= attr_set(s0, name@, value@));
                assert(names_unique(view_of(entries@))) by {
                    assert forall|a: int, b: int|
                        0 <= a < entries@.len() && 0 <= b < entries@.len() && a != b implies
                        view_of(entries@)[a].0 != view_of(entries@)[b].0 by {
                        if a != i && b != i {
                            assert(s0[a].0 != s0[b].0);
                        } else if a == i {
                            assert(s0[i as int].0 != s0[b].0);
                        } else {
                            assert(s0[a].0 != s0[i as int].0);
                        }
                    }
                }
                self.entries = entries;
            },
            None => {
                let mut entries: Vec<(String, String)> = Vec::new();
                std::mem::swap(&mut entries, &mut self.entries);
                entries.push((name, value));
                assert(view_of(entries@) =~= attr_set(s0, name@, value@));
                assert(names_unique(view_of(entries@))) by {
                    assert forall|a: int, b: int|
                        0 <= a < entries@.len() && 0 <= b < entries@.len() && a != b implies
                        view_of(entries@)[a].0 != view_of(entries@)[b].0 by {
                        if a < s0.len() && b < s0.len() {
                            assert(s0[a].0 != s0[b].0);
                        } else if a < s0.len() {
                            assert(s0[a].0 != name@);
                        } else {
                            assert(s0[b].0 != name@);
                        }
                    }
                }
                self.entries = entries;
            },
        }
    }

    /// Removes the entry called `name`, if there is one.
    pub fn unset(&mut self, name: &String)
        ensures
            final(self)@ == attr_unset(old(self)@, name@),
    {
        proof {
            use_type_invariant(&*self);
        }
        let ghost s0 = self@;
        match self.find(name) {
            Some(i) => {
                let mut entries: Vec<(String, String)> = Vec::new();
                std::mem::swap(&mut entries, &mut self.entries);
                entries.remove(i);
                assert(view_of(entries@) =~= attr_unset(s0, name@));
                assert(names_unique(view_of(entries@))) by {
                    assert forall|a: int, b: int|
                        0 <= a < entries@.len() && 0 <= b < entries@.len() && a != b implies
                        view_of(entries@)[a].0 != view_of(entries@)[b].0 by {
                        let a0 = if a < i { a } else { a + 1 };
                        let b0 = if b < i { b } else { b + 1 };
                        assert(s0[a0].0 != s0[b0].0);
                    }
                }
                self.entries = entries;
            },
            None => {},
        }
    }

    /// Removes every entry.
    pub fn clear(&mut self)
        ensures
            final(self)@ == Seq::<(Seq<char>, Seq<char>)>::empty(),
    {
        self.entries = Vec::new();
        assert(self@ =~= Seq::<(Seq<char>, Seq<char>)>::empty());
    }

    /// The entries, in order.
    pub fn entries(&self) -> (r: &Vec<(String, String)>)
        ensures
            r@.map_values(|p: (String, String)| (p.0@, p.1@)) == self@,
            names_unique(self@),
    {
        proof {
            use_type_invariant(self);
        }
        &self.entries
    }

    /// A copy of this map.
    pub fn duplicate(&self) -> (r: AttrMap)
        ensures
            r@ == self@,
    {
        proof {
            use_type_invariant(self);
        }
        let mut out: Vec<(String, String)> = Vec::new();
        let mut i: usize = 0;
        while i < self.entries.len()
            invariant
                0 <= i <= self.entries@.len(),
                out@.len() == i,
                forall|j: int| 0 <= j < i ==> (#[trigger] out@[j]).0@ == self.entries@[j].0@
                    && out@[j].1@ == self.entries@[j].1@,
            decreases self.entries@.len() - i,
        {
            let name = self.entries[i].0.clone();
            let value = self.entries[i].1.clone();
            out.push((name, value));
            i = i + 1;
        }
        assert(view_of(out@) =~= self@);
        AttrMap { entries: out }
    }
}

} // verus!
