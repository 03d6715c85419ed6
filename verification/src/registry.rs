//! Values registered under a name, the later registration of a name
//! replacing the earlier one: the font atlases of an overlay and the handlers
//! of its platform channels.
use vstd::prelude::*;
use vstd::string::StringExecFns;

verus! {

/// The value registered under `name` in `entries`, if any.
pub open spec fn entry_of<F>(entries: Seq<(String, F)>, name: Seq<char>) -> Option<F>
    decreases entries.len(),
{
    if entries.len() == 0 {
        None
    } else if entries.last().0@ == name {
        Some(entries.last().1)
    } else {
        entry_of(entries.drop_last(), name)
    }
}

/// Values by name.
pub struct NamedRegistry<F> {
    entries: Vec<(String, F)>,
}

/// The font atlases of an overlay's 3D text, by font id.
pub type FontAtlases<F> = NamedRegistry<F>;

/// The handlers of an overlay's platform channels, by channel name.
pub type ChannelHandlers<F> = NamedRegistry<F>;

impl<F> NamedRegistry<F> {
    /// The registered values as a map from names.
    pub closed spec fn view(&self) -> Map<Seq<char>, F> {
        Map::new(|n: Seq<char>| entry_of(self.entries@, n) is Some, |n: Seq<char>| entry_of(self.entries@, n)->0)
    }

    pub fn new() -> (r: Self)
        ensures
            r.view() == Map::<Seq<char>, F>::empty(),
    {
        let r = NamedRegistry { entries: Vec::new() };
        assert(r.view() =~= Map::<Seq<char>, F>::empty());
        r
    }

    fn position(&self, name: &str) -> (r: Option<usize>)
        ensures
            match r {
                Some(i) => i < self.entries@.len() && self.entries@[i as int].0@ == name@
                    && forall|j: int| i < j < self.entries@.len() ==> #[trigger] self.entries@[j].0@ != name@,
                None => forall|j: int| 0 <= j < self.entries@.len() ==> #[trigger] self.entries@[j].0@ != name@,
            },
    {
        let key = String::from_str(name);
        let mut i: usize = self.entries.len();
        while i > 0
            invariant
                key@ == name@,
                i <= self.entries@.len(),
                forall|j: int| i <= j < self.entries@.len() ==> #[trigger] self.entries@[j].0@ != name@,
            decreases i,
        {
            if self.entries[i - 1].0 == key {
                return Some(i - 1);
            }
            i = i - 1;
        }
        None
    }

    proof fn lemma_entry_absent(entries: Seq<(String, F)>, name: Seq<char>)
        requires
            forall|j: int| 0 <= j < entries.len() ==> #[trigger] entries[j].0@ != name,
        ensures
            entry_of(entries, name) is None,
        decreases entries.len(),
    {
        if entries.len() > 0 {
            assert(entries.last().0@ != name);
            Self::lemma_entry_absent(entries.drop_last(), name);
        }
    }

    proof fn lemma_entry_at(entries: Seq<(String, F)>, name: Seq<char>, i: int)
        requires
            0 <= i < entries.len(),
            entries[i].0@ == name,
            forall|j: int| i < j < entries.len() ==> #[trigger] entries[j].0@ != name,
        ensures
            entry_of(entries, name) == Some(entries[i].1),
        decreases entries.len(),
    {
        if i < entries.len() - 1 {
            assert(entries.last().0@ != name);
            Self::lemma_entry_at(entries.drop_last(), name, i);
        }
    }

    /// The value registered under `name`.
    pub fn get(&self, name: &str) -> (r: Option<&F>)
        ensures
            match r {
                Some(v) => self.view().contains_key(name@) && self.view()[name@] == *v,
                None => !self.view().contains_key(name@),
            },
    {
        match self.position(name) {
            Some(i) => {
                proof {
                    Self::lemma_entry_at(self.entries@, name@, i as int);
                }
                Some(&self.entries[i].1)
            },
            None => {
                proof {
                    Self::lemma_entry_absent(self.entries@, name@);
                }
                None
            },
        }
    }

    /// Registers `value` under `name`, replacing what was registered there.
    pub fn register(&mut self, name: &str, value: F)
        ensures
            final(self).view() == old(self).view().insert(name@, value),
    {
        let _ = self.unregister(name);
        let ghost mid = self.entries@;
        self.entries.push((String::from_str(name), value));
        proof {
            let e = self.entries@;
            assert forall|n: Seq<char>| #![auto] entry_of(e, n) == (if n == name@ { Some(value) } else { entry_of(mid, n) }) by {
                assert(e.drop_last() =~= mid);
            }
            assert forall|n: Seq<char>| n != name@ implies #[trigger] entry_of(mid, n) == entry_of(old(self).entries@, n) by {
                let vm = Map::new(|k: Seq<char>| entry_of(mid, k) is Some, |k: Seq<char>| entry_of(mid, k)->0);
                let vo = old(self).view();
                assert(vm == vo.remove(name@));
                assert(vm.contains_key(n) == vo.contains_key(n));
                if vm.contains_key(n) {
                    assert(vm[n] == vo[n]);
                }
            }
            assert(self.view() =~= old(self).view().insert(name@, value));
        }
    }

    /// Forgets what was registered under `name`; true when something was.
    pub fn unregister(&mut self, name: &str) -> (removed: bool)
        ensures
            removed == old(self).view().contains_key(name@),
            final(self).view() == old(self).view().remove(name@),
    {
        let ghost before = self.entries@;
        let key = String::from_str(name);
        let mut kept: Vec<(String, F)> = Vec::new();
        let mut removed = false;
        let mut rest: Vec<(String, F)> = Vec::new();
        std::mem::swap(&mut rest, &mut self.entries);
        let ghost mut k: int = 0;
        while rest.len() > 0
            invariant
                key@ == name@,
                0 <= k <= before.len(),
                rest@ == before.subrange(k, before.len() as int),
                removed == exists|j: int| 0 <= j < k && #[trigger] before[j].0@ == name@,
                forall|j: int| 0 <= j < kept@.len() ==> #[trigger] kept@[j].0@ != name@,
                forall|n: Seq<char>| n != name@ ==> #[trigger] entry_of(kept@, n) == entry_of(before.subrange(0, k), n),
            decreases rest@.len(),
        {
            let e = rest.remove(0);
            let ghost pre = before.subrange(0, k);
            let ghost next = before.subrange(0, k + 1);
            let ghost kept_before = kept@;
            proof {
                assert(next.drop_last() =~= pre);
                assert(next.last() == e);
            }
            if e.0 == key {
                removed = true;
                proof {
                    assert(before[k].0@ == name@);
                    assert forall|n: Seq<char>| n != name@ implies #[trigger] entry_of(kept@, n) == entry_of(next, n) by {
                        assert(entry_of(next, n) == entry_of(pre, n));
                    }
                }
            } else {
                kept.push(e);
                proof {
                    assert(kept@.drop_last() =~= kept_before);
                    assert(kept@.last() == e);
                    assert forall|n: Seq<char>| n != name@ implies #[trigger] entry_of(kept@, n) == entry_of(next, n) by {
                        if e.0@ == n {
                        } else {
                            assert(entry_of(kept@, n) == entry_of(kept_before, n));
                            assert(entry_of(next, n) == entry_of(pre, n));
                        }
                    }
                    assert(forall|j: int| 0 <= j < kept_before.len() ==> kept@[j] == kept_before[j]);
                }
            }
            proof {
                k = k + 1;
                assert(rest@ =~= before.subrange(k, before.len() as int));
            }
        }
        proof {
            assert(before.subrange(0, before.len() as int) =~= before);
            Self::lemma_entry_absent(kept@, name@);
            if removed {
                let j = choose|j: int| 0 <= j < before.len() && #[trigger] before[j].0@ == name@;
                Self::lemma_entry_present(before, name@, j);
            } else {
                assert forall|j: int| 0 <= j < before.len() implies #[trigger] before[j].0@ != name@ by {}
                Self::lemma_entry_absent(before, name@);
            }
        }
        self.entries = kept;
        proof {
            assert(self.view() =~= old(self).view().remove(name@));
        }
        removed
    }

    proof fn lemma_entry_present(entries: Seq<(String, F)>, name: Seq<char>, i: int)
        requires
            0 <= i < entries.len(),
            entries[i].0@ == name,
        ensures
            entry_of(entries, name) is Some,
        decreases entries.len(),
    {
        if entries.last().0@ != name {
            assert(i < entries.len() - 1);
            Self::lemma_entry_present(entries.drop_last(), name, i);
        }
    }
}

} // verus!
