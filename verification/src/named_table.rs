//! A table of values by name, in which every name occurs once.
use vstd::prelude::*;
use crate::text::same_text;

verus! {

/// Values by name.
pub struct NamedTable<T> {
    pub entries: Vec<(String, T)>,
}

/// The position of a name in a list of entries, if it occurs.
pub open spec fn position<T>(entries: Seq<(String, T)>, name: Seq<char>, i: int) -> bool {
    0 <= i < entries.len() && entries[i].0@ == name
}

/// Whether some entry has the name.
pub open spec fn named<T>(entries: Seq<(String, T)>, name: Seq<char>) -> bool {
    exists|i: int| position(entries, name, i)
}

impl<T> View for NamedTable<T> {
    type V = Map<Seq<char>, T>;

    open spec fn view(&self) -> Map<Seq<char>, T> {
        let entries = self.entries@;
        Map::new(
            |name: Seq<char>| named(entries, name),
            |name: Seq<char>| entries[choose|i: int| position(entries, name, i)].1,
        )
    }
}

impl<T> NamedTable<T> {
    /// No name occurs twice.
    pub open spec fn wf(&self) -> bool {
        forall|i: int, j: int|
            0 <= i < j < self.entries.len() ==> (#[trigger] self.entries[i]).0@ != (
            #[trigger] self.entries[j]).0@
    }

    /// An entry is the value of its name.
    proof fn entry_is_value(&self, i: int)
        requires
            self.wf(),
            0 <= i < self.entries.len(),
        ensures
            self@.contains_key(self.entries[i].0@),
            self@[self.entries[i].0@] == self.entries[i].1,
    {
        let name = self.entries[i].0@;
        assert(position(self.entries@, name, i));
        let k = choose|k: int| position(self.entries@, name, k);
        assert(k == i);
    }

    /// An empty table.
    pub fn new() -> (t: Self)
        ensures
            t.wf(),
            t@ == Map::<Seq<char>, T>::empty(),
    {
        let t = NamedTable { entries: Vec::new() };
        proof {
            assert(t@ =~= Map::<Seq<char>, T>::empty());
        }
        t
    }

    /// The position of a name.
    fn find(&self, name: &str) -> (r: Option<usize>)
        requires
            self.wf(),
        ensures
            match r {
                Some(i) => position(self.entries@, name@, i as int),
                None => !named(self.entries@, name@),
            },
    {
        let mut i: usize = 0;
        while i < self.entries.len()
            invariant
                i <= self.entries.len(),
                forall|k: int| 0 <= k < i ==> (#[trigger] self.entries[k]).0@ != name@,
            decreases self.entries.len() - i,
        {
            if same_text(self.entries[i].0.as_str(), name) {
                return Some(i);
            }
            i += 1;
        }
        None
    }

    /// The value of a name.
    pub fn get(&self, name: &str) -> (r: Option<&T>)
        requires
            self.wf(),
        ensures
            self@.contains_key(name@) ==> r == Some(&self@[name@]),
            !self@.contains_key(name@) ==> r is None,
    {
        match self.find(name) {
            Some(i) => {
                proof {
                    self.entry_is_value(i as int);
                }
                Some(&self.entries[i].1)
            },
            None => None,
        }
    }

    /// Whether a name has a value.
    pub fn contains(&self, name: &str) -> (b: bool)
        requires
            self.wf(),
        ensures
            b == self@.contains_key(name@),
    {
        self.find(name).is_some()
    }

    /// Takes a name out; returns its value.
    pub fn remove(&mut self, name: &str) -> (r: Option<T>)
        requires
            old(self).wf(),
        ensures
            final(self).wf(),
            final(self)@ == old(self)@.remove(name@),
            old(self)@.contains_key(name@) ==> r == Some(old(self)@[name@]),
            !old(self)@.contains_key(name@) ==> r is None,
    {
        match self.find(name) {
            Some(i) => {
                proof {
                    self.entry_is_value(i as int);
                }
                let ghost pre = *self;
                let (_, value) = self.entries.remove(i);
                proof {
                    let post = *self;
                    assert forall|a: int, b: int| 0 <= a < b < post.entries.len() implies (
                    #[trigger] post.entries[a]).0@ != (#[trigger] post.entries[b]).0@ by {
                        let a0 = if a < i {
                            a
                        } else {
                            a + 1
                        };
                        let b0 = if b < i {
                            b
                        } else {
                            b + 1
                        };
                        assert(post.entries[a] == pre.entries[a0]);
                        assert(post.entries[b] == pre.entries[b0]);
                    }
                    let want = pre@.remove(name@);
                    assert forall|n: Seq<char>|
                        #![trigger post@.dom().contains(n)]
                        #![trigger want.dom().contains(n)]
                        post@.dom().contains(n) == want.dom().contains(n) && (
                        post@.dom().contains(n) ==> post@[n] == want[n]) by {
                        if post@.contains_key(n) {
                            let k = choose|k: int| position(post.entries@, n, k);
                            let k0 = if k < i {
                                k
                            } else {
                                k + 1
                            };
                            assert(post.entries[k] == pre.entries[k0]);
                            pre.entry_is_value(k0);
                            post.entry_is_value(k);
                        }
                        if want.contains_key(n) {
                            let k0 = choose|k: int| position(pre.entries@, n, k);
                            let k = if k0 < i {
                                k0
                            } else {
                                k0 - 1
                            };
                            assert(post.entries[k] == pre.entries[k0]);
                            assert(position(post.entries@, n, k));
                        }
                    }
                    assert(post@ =~= want);
                }
                Some(value)
            },
            None => {
                proof {
                    assert(self@.remove(name@) =~= self@);
                }
                None
            },
        }
    }

    /// Sets the value of a name; returns the value that it had.
    pub fn insert(&mut self, name: String, value: T) -> (r: Option<T>)
        requires
            old(self).wf(),
        ensures
            final(self).wf(),
            final(self)@ == old(self)@.insert(name@, value),
            old(self)@.contains_key(name@) ==> r == Some(old(self)@[name@]),
            !old(self)@.contains_key(name@) ==> r is None,
    {
        let prev = self.remove(name.as_str());
        let ghost pre = *self;
        let ghost n = name@;
        self.entries.push((name, value));
        proof {
            let post = *self;
            let last = pre.entries.len() as int;
            assert(!pre@.contains_key(n));
            assert forall|a: int, b: int| 0 <= a < b < post.entries.len() implies (
            #[trigger] post.entries[a]).0@ != (#[trigger] post.entries[b]).0@ by {
                assert(post.entries[a] == pre.entries[a]);
                if b == last {
                    pre.entry_is_value(a);
                } else {
                    assert(post.entries[b] == pre.entries[b]);
                }
            }
            post.entry_is_value(last);
            let want = pre@.insert(n, value);
            assert forall|m: Seq<char>|
                #![trigger post@.dom().contains(m)]
                #![trigger want.dom().contains(m)]
                post@.dom().contains(m) == want.dom().contains(m) && (post@.dom().contains(m)
                    ==> post@[m] == want[m]) by {
                if post@.contains_key(m) {
                    let k = choose|k: int| position(post.entries@, m, k);
                    post.entry_is_value(k);
                    if k < last {
                        assert(post.entries[k] == pre.entries[k]);
                        pre.entry_is_value(k);
                    }
                }
                if pre@.contains_key(m) {
                    let k = choose|k: int| position(pre.entries@, m, k);
                    assert(post.entries[k] == pre.entries[k]);
                    post.entry_is_value(k);
                }
            }
            assert(post@ =~= want);
            assert(want =~= old(self)@.insert(n, value));
        }
        prev
    }
}

} // verus!
