//! A registry of windows: each key has at most one window, and the windows
//! stay in the order in which they were opened.

use vstd::prelude::*;
use vstd::string::*;

verus! {

/// What a registry asks of a window: whether it is still shown.
pub trait Window: Sized {
    /// The window is shown.
    spec fn visible(&self) -> bool;

    /// Whether the window is shown.
    fn is_visible(&self) -> (r: bool)
        ensures
            r == self.visible(),
    ;
}

/// A key and its window.
#[derive(Debug)]
pub struct Entry<W> {
    pub key: String,
    pub window: W,
}

/// The windows that are open, by key.
#[derive(Debug)]
pub struct Registry<W> {
    entries: Vec<Entry<W>>,
}

/// The keys after `key` was selected: a key that has a window is not
/// entered again.
pub open spec fn registered(keys: Seq<Seq<char>>, key: Seq<char>) -> Seq<Seq<char>> {
    if keys.contains(key) {
        keys
    } else {
        keys.push(key)
    }
}

/// The number of windows that a selection of `key` opens, and so the number
/// of fetches that it causes: one if the key has no window, else none.
pub open spec fn opened(keys: Seq<Seq<char>>, key: Seq<char>) -> nat {
    if keys.contains(key) {
        0
    } else {
        1
    }
}

/// Selecting a key a second time enters nothing and opens nothing, and the
/// keys stay free of duplicates through any selection.
pub proof fn lemma_registered_once(keys: Seq<Seq<char>>, key: Seq<char>)
    ensures
        registered(keys, key).contains(key),
        registered(registered(keys, key), key) == registered(keys, key),
        opened(registered(keys, key), key) == 0,
        registered(keys, key).len() == keys.len() + opened(keys, key),
        keys.no_duplicates() ==> registered(keys, key).no_duplicates(),
{
    let after = registered(keys, key);
    if !keys.contains(key) {
        assert(after[keys.len() as int] == key);
        if keys.no_duplicates() {
            assert forall|i: int, j: int|
                0 <= i < after.len() && 0 <= j < after.len() && i != j implies after[i]
                != after[j] by {
                if i < keys.len() && j < keys.len() {
                    assert(keys[i] != keys[j]);
                } else {
                    let o = if i < keys.len() {
                        i
                    } else {
                        j
                    };
                    assert(keys.contains(keys[o]));
                }
            }
        }
    }
}

/// The entries whose window is shown, in their order.
pub open spec fn shown_only<W: Window>(entries: Seq<(Seq<char>, W)>) -> Seq<(Seq<char>, W)>
    decreases entries.len(),
{
    if entries.len() == 0 {
        entries
    } else if entries.last().1.visible() {
        shown_only(entries.drop_last()).push(entries.last())
    } else {
        shown_only(entries.drop_last())
    }
}

/// The keys of entries.
pub open spec fn keys_of<W>(entries: Seq<(Seq<char>, W)>) -> Seq<Seq<char>> {
    entries.map_values(|e: (Seq<char>, W)| e.0)
}

/// The windows of entries.
pub open spec fn windows_of<W>(entries: Seq<(Seq<char>, W)>) -> Seq<W> {
    entries.map_values(|e: (Seq<char>, W)| e.1)
}

/// What is left of entries when the hidden windows go: exactly the entries
/// whose window is shown. No key comes in, and none comes twice if none did.
pub proof fn lemma_shown_only<W: Window>(entries: Seq<(Seq<char>, W)>)
    ensures
        forall|e: (Seq<char>, W)| #[trigger]
            shown_only(entries).contains(e) <==> entries.contains(e) && e.1.visible(),
        keys_of(entries).no_duplicates() ==> keys_of(shown_only(entries)).no_duplicates(),
        shown_only(entries).len() <= entries.len(),
    decreases entries.len(),
{
    if entries.len() > 0 {
        let front = entries.drop_last();
        let last = entries.last();
        lemma_shown_only(front);
        let kept = shown_only(entries);
        let sf = shown_only(front);
        assert forall|e: (Seq<char>, W)| #[trigger]
            kept.contains(e) <==> entries.contains(e) && e.1.visible() by {
            if kept.contains(e) {
                let i = choose|i: int| 0 <= i < kept.len() && kept[i] == e;
                if last.1.visible() && i == sf.len() {
                    assert(kept[i] == last);
                    assert(entries[entries.len() - 1] == e);
                } else {
                    assert(sf[i] == e);
                    assert(sf.contains(e));
                    let j = choose|j: int| 0 <= j < front.len() && front[j] == e;
                    assert(entries[j] == e);
                }
            }
            if entries.contains(e) && e.1.visible() {
                let j = choose|j: int| 0 <= j < entries.len() && entries[j] == e;
                if j == entries.len() - 1 {
                    assert(kept[sf.len() as int] == e);
                } else {
                    assert(front[j] == e);
                    assert(front.contains(e));
                    assert(sf.contains(e));
                    let i = choose|i: int| 0 <= i < sf.len() && sf[i] == e;
                    assert(kept[i] == e);
                }
            }
        }
        if keys_of(entries).no_duplicates() {
            assert forall|i: int, j: int|
                0 <= i < front.len() && 0 <= j < front.len() && i != j implies keys_of(front)[i]
                != keys_of(front)[j] by {
                assert(keys_of(entries)[i] == front[i].0);
                assert(keys_of(entries)[j] == front[j].0);
            }
            let kk = keys_of(kept);
            assert forall|i: int, j: int| 0 <= i < kk.len() && 0 <= j < kk.len() && i != j implies kk[i]
                != kk[j] by {
                if last.1.visible() && (i == kept.len() - 1 || j == kept.len() - 1) {
                    let o = if i == kept.len() - 1 {
                        j
                    } else {
                        i
                    };
                    assert(kept[o] == sf[o]);
                    assert(sf.contains(sf[o]));
                    assert(front.contains(sf[o]));
                    let m = choose|m: int| 0 <= m < front.len() && front[m] == sf[o];
                    assert(keys_of(entries)[m] == sf[o].0);
                    assert(keys_of(entries)[entries.len() - 1] == last.0);
                } else {
                    assert(keys_of(sf)[i] == kk[i]);
                    assert(keys_of(sf)[j] == kk[j]);
                }
            }
        }
    }
}

/// A change of the window at a place leaves the keys as they are.
pub proof fn lemma_update_keeps_keys<W>(entries: Seq<(Seq<char>, W)>, place: int)
    requires
        0 <= place < entries.len(),
    ensures
        forall|window: W| #[trigger]
            keys_of(entries.update(place, (entries[place].0, window))) == keys_of(entries),
{
    assert forall|window: W| #[trigger]
        keys_of(entries.update(place, (entries[place].0, window))) == keys_of(entries) by {
        assert(keys_of(entries.update(place, (entries[place].0, window))) =~= keys_of(entries));
    }
}

impl<W> Registry<W> {
    /// The keys and their windows, in the order in which they were opened.
    pub closed spec fn view(&self) -> Seq<(Seq<char>, W)> {
        self.entries@.map_values(|e: Entry<W>| (e.key@, e.window))
    }

    /// The keys that have a window.
    pub open spec fn keys(&self) -> Seq<Seq<char>> {
        keys_of(self@)
    }

    /// The windows.
    pub open spec fn windows(&self) -> Seq<W> {
        windows_of(self@)
    }

    /// No key has two windows.
    pub open spec fn wf(&self) -> bool {
        self.keys().no_duplicates()
    }

    /// The key has a window.
    pub open spec fn has(&self, key: Seq<char>) -> bool {
        self.keys().contains(key)
    }

    /// The place of the window of a key.
    pub open spec fn place(&self, key: Seq<char>) -> int {
        self.keys().index_of(key)
    }

    /// The window of a key.
    pub open spec fn window(&self, key: Seq<char>) -> W {
        self@[self.place(key)].1
    }

    /// A registry without windows.
    pub fn new() -> (r: Self)
        ensures
            r@ == Seq::<(Seq<char>, W)>::empty(),
            r.wf(),
    {
        let r = Registry { entries: Vec::new() };
        assert(r@ =~= Seq::<(Seq<char>, W)>::empty());
        r
    }

    /// The number of windows.
    pub fn len(&self) -> (r: usize)
        ensures
            r == self@.len(),
    {
        self.entries.len()
    }

    /// The key at a place.
    pub fn key_at(&self, index: usize) -> (r: &String)
        requires
            index < self@.len(),
        ensures
            r@ == self@[index as int].0,
    {
        &self.entries[index].key
    }

    /// The window at a place.
    pub fn window_at(&self, index: usize) -> (r: &W)
        requires
            index < self@.len(),
        ensures
            *r == self@[index as int].1,
    {
        &self.entries[index].window
    }

    /// The window at a place, to be changed. The keys stay as they are.
    pub fn window_mut(&mut self, index: usize) -> (r: &mut W)
        requires
            index < old(self)@.len(),
        ensures
            *r == old(self)@[index as int].1,
            final(self)@ == old(self)@.update(
                index as int,
                (old(self)@[index as int].0, *final(r)),
            ),
            final(self).keys() == old(self).keys(),
    {
        proof {
            lemma_update_keeps_keys(self@, index as int);
        }
        let entry = &mut self.entries[index];
        &mut entry.window
    }

    /// The place of the window of a key, if it has one.
    pub fn position(&self, key: &str) -> (r: Option<usize>)
        ensures
            r.is_some() == self.has(key@),
            r.is_some() ==> r.unwrap() < self@.len() && self@[r.unwrap() as int].0 == key@,
            r.is_some() && self.wf() ==> r.unwrap() == self.place(key@),
    {
        let wanted = String::from_str(key);
        let mut i: usize = 0;
        while i < self.entries.len()
            invariant
                i <= self.entries.len(),
                wanted@ == key@,
                forall|j: int| 0 <= j < i ==> self@[j].0 != key@,
            decreases self.entries.len() - i,
        {
            if self.entries[i].key == wanted {
                assert(self.keys()[i as int] == key@);
                proof {
                    if self.wf() {
                        let p = self.place(key@);
                        assert(self.keys()[p] == key@);
                    }
                }
                return Some(i);
            }
            i = i + 1;
        }
        assert(!self.has(key@)) by {
            if self.has(key@) {
                let j = choose|j: int| 0 <= j < self.keys().len() && self.keys()[j] == key@;
                assert(self@[j].0 == key@);
            }
        }
        None
    }

    /// Whether a key has a window.
    pub fn contains_key(&self, key: &str) -> (r: bool)
        ensures
            r == self.has(key@),
    {
        self.position(key).is_some()
    }

    /// The window of a key, if it has one.
    pub fn get(&self, key: &str) -> (r: Option<&W>)
        requires
            self.wf(),
        ensures
            r.is_some() == self.has(key@),
            r.is_some() ==> *r.unwrap() == self.window(key@),
    {
        match self.position(key) {
            Some(i) => Some(&self.entries[i].window),
            None => None,
        }
    }

    /// Whether no key has two windows.
    pub fn is_wf(&self) -> (r: bool)
        ensures
            r == self.wf(),
    {
        let mut i: usize = 0;
        while i < self.entries.len()
            invariant
                i <= self.entries.len(),
                forall|a: int, b: int| 0 <= a < b < i ==> self.keys()[a] != self.keys()[b],
            decreases self.entries.len() - i,
        {
            let mut j: usize = 0;
            while j < i
                invariant
                    j <= i < self.entries.len(),
                    forall|a: int| 0 <= a < j ==> self.keys()[a] != self.keys()[i as int],
                decreases i - j,
            {
                if self.entries[j].key == self.entries[i].key {
                    assert(self.keys()[j as int] == self.keys()[i as int]);
                    return false;
                }
                j = j + 1;
            }
            i = i + 1;
        }
        assert forall|a: int, b: int|
            0 <= a < self.keys().len() && 0 <= b < self.keys().len() && a != b implies self.keys()[a]
            != self.keys()[b] by {
            if a < b {
                assert(self.keys()[a] != self.keys()[b]);
            } else {
                assert(self.keys()[b] != self.keys()[a]);
            }
        }
        true
    }

    /// Opens a window for a key that has none. A key that has a window
    /// keeps it, and the window given is dropped.
    pub fn insert_if_vacant(&mut self, key: String, window: W) -> (inserted: bool)
        requires
            old(self).wf(),
        ensures
            final(self).wf(),
            inserted == !old(self).has(key@),
            inserted ==> final(self)@ == old(self)@.push((key@, window)),
            !inserted ==> final(self)@ == old(self)@,
            final(self).keys() == registered(old(self).keys(), key@),
    {
        if self.position(key.as_str()).is_some() {
            return false;
        }
        let ghost before = self@;
        let ghost text = key@;
        self.entries.push(Entry { key, window });
        proof {
            assert(self@ =~= before.push((text, window)));
            assert(self.keys() =~= keys_of(before).push(text));
            assert forall|i: int, j: int|
                0 <= i < self.keys().len() && 0 <= j < self.keys().len() && i != j implies self.keys()[i]
                != self.keys()[j] by {
                if i < before.len() && j < before.len() {
                    assert(keys_of(before)[i] != keys_of(before)[j]);
                } else {
                    let o = if i < before.len() {
                        i
                    } else {
                        j
                    };
                    assert(keys_of(before)[o] == self.keys()[o]);
                    assert(keys_of(before).contains(keys_of(before)[o]));
                }
            }
        }
        true
    }

    /// Closes the window of a key, if it has one, and hands it out.
    pub fn remove(&mut self, key: &str) -> (r: Option<W>)
        requires
            old(self).wf(),
        ensures
            final(self).wf(),
            r.is_some() == old(self).has(key@),
            r.is_some() ==> r.unwrap() == old(self).window(key@),
            r.is_some() ==> final(self)@ == old(self)@.remove(old(self).place(key@)),
            r.is_none() ==> final(self)@ == old(self)@,
            !final(self).has(key@),
    {
        match self.position(key) {
            None => None,
            Some(i) => {
                let ghost before = self@;
                let entry = self.entries.remove(i);
                proof {
                    assert(self@ =~= before.remove(i as int));
                    assert(self.keys() =~= keys_of(before).remove(i as int));
                    assert forall|a: int, b: int|
                        0 <= a < self.keys().len() && 0 <= b < self.keys().len() && a != b implies self.keys()[a]
                        != self.keys()[b] by {
                        let a0 = if a < i { a } else { a + 1 };
                        let b0 = if b < i { b } else { b + 1 };
                        assert(keys_of(before)[a0] != keys_of(before)[b0]);
                    }
                    if self.has(key@) {
                        let a = choose|a: int| 0 <= a < self.keys().len() && self.keys()[a] == key@;
                        let a0 = if a < i { a } else { a + 1 };
                        assert(keys_of(before)[a0] == key@);
                        assert(keys_of(before)[i as int] == key@);
                    }
                }
                Some(entry.window)
            },
        }
    }
}

impl<W: Window> Registry<W> {
    /// Closes every window that is not shown.
    pub fn retain_visible(&mut self)
        requires
            old(self).wf(),
        ensures
            final(self).wf(),
            final(self)@ == shown_only(old(self)@),
    {
        let ghost before = self@;
        let mut kept: Vec<Entry<W>> = Vec::new();
        let mut rest: Vec<Entry<W>> = Vec::new();
        core::mem::swap(&mut self.entries, &mut rest);
        let n = rest.len();
        let mut taken: Vec<Entry<W>> = Vec::new();
        while rest.len() > 0
            invariant
                rest@.len() + taken@.len() == n,
                n == before.len(),
                forall|i: int|
                    0 <= i < rest@.len() ==> (#[trigger] rest@[i].key@, rest@[i].window)
                        == before[i],
                forall|i: int|
                    0 <= i < taken@.len() ==> (#[trigger] taken@[i].key@, taken@[i].window)
                        == before[n - 1 - i],
            decreases rest.len(),
        {
            let entry = rest.pop().unwrap();
            taken.push(entry);
        }
        while taken.len() > 0
            invariant
                taken@.len() <= n,
                n == before.len(),
                forall|i: int|
                    0 <= i < taken@.len() ==> (#[trigger] taken@[i].key@, taken@[i].window)
                        == before[n - 1 - i],
                kept@.map_values(|e: Entry<W>| (e.key@, e.window)) == shown_only(
                    before.subrange(0, n - taken@.len()),
                ),
            decreases taken.len(),
        {
            let ghost done = n - taken@.len();
            let entry = taken.pop().unwrap();
            proof {
                let next = before.subrange(0, done + 1);
                assert(next.drop_last() =~= before.subrange(0, done));
                assert(next.last() == before[done]);
                assert((entry.key@, entry.window) == before[done]);
            }
            if entry.window.is_visible() {
                let ghost old_kept = kept@;
                kept.push(entry);
                assert(kept@.map_values(|e: Entry<W>| (e.key@, e.window)) =~= old_kept.map_values(
                    |e: Entry<W>| (e.key@, e.window),
                ).push((entry.key@, entry.window)));
            }
        }
        self.entries = kept;
        proof {
            assert(before.subrange(0, n as int) =~= before);
            assert(self@ == shown_only(before));
            lemma_shown_only(before);
        }
    }
}

} // verus!
