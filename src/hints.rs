//! The map from hint labels to the windows they select.
use vstd::prelude::*;
use crate::window::DesktopWindow;

verus! {

/// One label and the window that it selects.
pub struct Hint {
    pub label: String,
    pub window: DesktopWindow,
}

/// Labels, each unique, with the window that each selects.
pub struct HintMap {
    entries: Vec<Hint>,
}

impl HintMap {
    #[verifier::type_invariant]
    spec fn labels_unique(self) -> bool {
        forall|i: int, j: int|
            0 <= i < self.entries.len() && 0 <= j < self.entries.len()
                && (#[trigger] self.entries@[i]).label@ == (#[trigger] self.entries@[j]).label@
                ==> i == j
    }

    spec fn has_label(self, l: Seq<char>) -> bool {
        exists|i: int| 0 <= i < self.entries.len() && (#[trigger] self.entries@[i]).label@ == l
    }

    spec fn index_of(self, l: Seq<char>) -> int {
        choose|i: int| 0 <= i < self.entries.len() && (#[trigger] self.entries@[i]).label@ == l
    }
}

impl View for HintMap {
    type V = Map<Seq<char>, DesktopWindow>;

    closed spec fn view(&self) -> Map<Seq<char>, DesktopWindow> {
        Map::new(|l: Seq<char>| self.has_label(l), |l: Seq<char>| self.entries@[self.index_of(l)].window)
    }
}

impl HintMap {
    /// A map with no labels.
    pub fn new() -> (r: HintMap)
        ensures
            r@ == Map::<Seq<char>, DesktopWindow>::empty(),
    {
        let r = HintMap { entries: Vec::new() };
        assert(r@ =~= Map::<Seq<char>, DesktopWindow>::empty());
        r
    }

    fn position(&self, label: &String) -> (r: Option<usize>)
        ensures
            match r {
                Some(i) => i < self.entries.len() && self.entries@[i as int].label@ == label@,
                None => !self.has_label(label@),
            },
    {
        let mut i: usize = 0;
        while i < self.entries.len()
            invariant
                i <= self.entries.len(),
                forall|j: int| 0 <= j < i ==> (#[trigger] self.entries@[j]).label@ != label@,
            decreases self.entries.len() - i,
        {
            if self.entries[i].label == *label {
                return Some(i);
            }
            i += 1;
        }
        None
    }

    /// The window that `label` selects, if it is a label of the map.
    pub fn get(&self, label: &String) -> (r: Option<DesktopWindow>)
        ensures
            r == (if self@.contains_key(label@) {
                Some(self@[label@])
            } else {
                None::<DesktopWindow>
            }),
    {
        proof {
            use_type_invariant(self);
        }
        match self.position(label) {
            Some(i) => {
                assert(self.has_label(label@));
                assert(self.index_of(label@) == i);
                Some(self.entries[i].window)
            },
            None => None,
        }
    }

    /// Makes `label` select `window`, in place of any window it selected before.
    pub fn insert(&mut self, label: String, window: DesktopWindow)
        ensures
            final(self)@ == old(self)@.insert(label@, window),
    {
        proof {
            use_type_invariant(&*self);
        }
        let ghost before = *self;
        match self.position(&label) {
            Some(i) => {
                let ghost l = label@;
                let mut entries: Vec<Hint> = Vec::new();
                std::mem::swap(&mut entries, &mut self.entries);
                entries.set(i, Hint { label, window });
                assert forall|a: int, b: int|
                    0 <= a < entries.len() && 0 <= b < entries.len()
                        && (#[trigger] entries@[a]).label@ == (#[trigger] entries@[b]).label@
                    implies a == b by {
                    assert(before.entries@[a].label@ == entries@[a].label@);
                    assert(before.entries@[b].label@ == entries@[b].label@);
                }
                *self = HintMap { entries };
                assert forall|m: Seq<char>| #[trigger] self.has_label(m) == before.has_label(m) by {
                    if self.has_label(m) {
                        let j = choose|j: int| 0 <= j < self.entries.len() && (#[trigger] self.entries@[j]).label@ == m;
                        assert(before.entries@[j].label@ == m);
                    }
                    if before.has_label(m) {
                        let j = choose|j: int| 0 <= j < before.entries.len() && (#[trigger] before.entries@[j]).label@ == m;
                        assert(self.entries@[j].label@ == m);
                    }
                }
                assert(self@ =~= before@.insert(l, window)) by {
                    assert forall|m: Seq<char>| #[trigger] self@.contains_key(m) implies self@[m] == before@.insert(l, window)[m] by {
                        let j = self.index_of(m);
                        let k = before.index_of(m);
                        assert(self.entries@[j].label@ == m);
                        assert(before.entries@[k].label@ == m);
                        assert(self.entries@[k].label@ == m);
                        assert(j == k);
                        if m == l {
                            assert(j == i);
                        }
                    }
                }
            },
            None => {
                let ghost l = label@;
                let mut entries: Vec<Hint> = Vec::new();
                std::mem::swap(&mut entries, &mut self.entries);
                entries.push(Hint { label, window });
                let n = entries.len() - 1;
                assert forall|a: int, b: int|
                    0 <= a < entries.len() && 0 <= b < entries.len()
                        && (#[trigger] entries@[a]).label@ == (#[trigger] entries@[b]).label@
                    implies a == b by {
                    if a < n && b == n {
                        assert(before.entries@[a].label@ == l);
                    }
                    if b < n && a == n {
                        assert(before.entries@[b].label@ == l);
                    }
                }
                *self = HintMap { entries };
                assert forall|m: Seq<char>| #[trigger] self.has_label(m) == (before.has_label(m) || m == l) by {
                    if self.has_label(m) {
                        let j = choose|j: int| 0 <= j < self.entries.len() && (#[trigger] self.entries@[j]).label@ == m;
                        if j < n {
                            assert(before.entries@[j].label@ == m);
                        }
                    }
                    if before.has_label(m) {
                        let j = choose|j: int| 0 <= j < before.entries.len() && (#[trigger] before.entries@[j]).label@ == m;
                        assert(self.entries@[j].label@ == m);
                    }
                    if m == l {
                        assert(self.entries@[n as int].label@ == m);
                    }
                }
                assert(self@ =~= before@.insert(l, window)) by {
                    assert forall|m: Seq<char>| #[trigger] self@.contains_key(m) implies self@[m] == before@.insert(l, window)[m] by {
                        let j = self.index_of(m);
                        assert(self.entries@[j].label@ == m);
                        if m == l {
                            assert(self.entries@[n as int].label@ == m);
                            assert(j == n);
                        } else {
                            let k = before.index_of(m);
                            assert(before.entries@[k].label@ == m);
                            assert(self.entries@[k].label@ == m);
                            assert(j == k);
                        }
                    }
                }
            },
        }
    }
}

} // verus!
