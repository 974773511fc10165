//! The latch of keys that are held down.

use vstd::prelude::*;

verus! {

/// A key of the keyboard, as far as the game tells keys apart.
#[derive(Clone, Copy, Debug, PartialEq, Eq, Structural)]
pub enum Key {
    Up,
    Down,
    Left,
    Right,
    /// Fires the weapon.
    Space,
    /// Restarts the game.
    R,
    /// Any other key, by its scan code.
    Other(u32),
}

/// Whether the window has the attention of the player: input counts only
/// while the window has the focus and the pointer is over it.
#[derive(Clone, Copy, Debug, PartialEq, Eq, Structural)]
pub struct Attention {
    pub focused: bool,
    pub hovered: bool,
}

impl Attention {
    /// Whether input counts.
    pub open spec fn spec_accepts(self) -> bool {
        self.focused && self.hovered
    }

    #[verifier::when_used_as_spec(spec_accepts)]
    pub fn accepts(self) -> (r: bool)
        ensures
            r == self.spec_accepts(),
    {
        self.focused && self.hovered
    }
}

/// The keys that are held down, in the order in which they were pressed.
pub struct Input {
    keys_down: Vec<Key>,
}

/// No key occurs twice in `keys`.
pub open spec fn distinct(keys: Seq<Key>) -> bool {
    forall|i: int, j: int| 0 <= i < j < keys.len() ==> keys[i] != keys[j]
}

impl View for Input {
    type V = Seq<Key>;

    closed spec fn view(&self) -> Seq<Key> {
        self.keys_down@
    }
}

impl Input {
    /// Whether no key occurs twice.
    pub open spec fn wf(&self) -> bool {
        distinct(self@)
    }

    /// A latch with no key down.
    pub fn new() -> (r: Input)
        ensures
            r@.len() == 0,
            r.wf(),
    {
        Self { keys_down: Vec::new() }
    }

    /// Releases every key.
    pub fn clear(&mut self)
        ensures
            final(self)@.len() == 0,
            final(self).wf(),
    {
        self.keys_down.clear();
    }

    /// Number of keys that are down.
    pub fn len(&self) -> (n: usize)
        ensures
            n == self@.len(),
    {
        self.keys_down.len()
    }

    /// The key that was pressed as number `i` of those still down.
    pub fn key(&self, i: usize) -> (k: Key)
        requires
            i < self@.len(),
        ensures
            k == self@[i as int],
    {
        self.keys_down[i]
    }

    fn position(&self, key: Key) -> (r: Option<usize>)
        ensures
            r is None ==> !self@.contains(key),
            r matches Some(i) ==> i < self@.len() && self@[i as int] == key,
    {
        let mut i: usize = 0;
        while i < self.keys_down.len()
            invariant
                i <= self.keys_down.len(),
                forall|k: int| 0 <= k < i ==> self@[k] != key,
            decreases self.keys_down.len() - i,
        {
            if self.keys_down[i] == key {
                return Some(i);
            }
            i = i + 1;
        }
        None
    }

    /// Whether `key` is down.
    pub fn contains(&self, key: Key) -> (r: bool)
        ensures
            r == self@.contains(key),
    {
        self.position(key).is_some()
    }

    /// Records that `key` went down. A key that is down already stays where it is.
    pub fn press(&mut self, key: Key)
        requires
            old(self).wf(),
        ensures
            final(self).wf(),
            final(self)@ == if old(self)@.contains(key) {
                old(self)@
            } else {
                old(self)@.push(key)
            },
    {
        if self.position(key).is_none() {
            self.keys_down.push(key);
        }
    }

    /// Records that `key` went up.
    pub fn release(&mut self, key: Key)
        requires
            old(self).wf(),
        ensures
            final(self).wf(),
            !final(self)@.contains(key),
            final(self)@ == old(self)@.filter(|k: Key| k != key),
    {
        match self.position(key) {
            Some(i) => {
                self.keys_down.remove(i);
                proof {
                    lemma_remove_is_filter(old(self)@, key, i as int);
                }
            },
            None => {
                proof {
                    lemma_absent_filter(old(self)@, key);
                }
            },
        }
    }
}

/// Filtering out a key that does not occur changes nothing.
pub proof fn lemma_absent_filter(keys: Seq<Key>, key: Key)
    requires
        !keys.contains(key),
    ensures
        keys.filter(|k: Key| k != key) == keys,
    decreases keys.len(),
{
    let pred = |k: Key| k != key;
    reveal(Seq::filter);
    if keys.len() > 0 {
        assert(keys.drop_last().len() < keys.len());
        assert forall|k: Key| keys.drop_last().contains(k) implies keys.contains(k) by {
            let i = choose|i: int| 0 <= i < keys.drop_last().len() && keys.drop_last()[i] == k;
            assert(keys[i] == k);
        }
        lemma_absent_filter(keys.drop_last(), key);
        assert(keys.contains(keys.last())) by {
            assert(keys[keys.len() - 1] == keys.last());
        }
        assert(pred(keys.last()));
        assert(keys.drop_last().push(keys.last()) =~= keys);
    }
}

/// In a sequence without repetition, removing the one occurrence of a key is
/// the same as filtering the key out.
pub proof fn lemma_remove_is_filter(keys: Seq<Key>, key: Key, i: int)
    requires
        distinct(keys),
        0 <= i < keys.len(),
        keys[i] == key,
    ensures
        keys.filter(|k: Key| k != key) == keys.remove(i),
        distinct(keys.remove(i)),
        !keys.remove(i).contains(key),
    decreases keys.len(),
{
    let pred = |k: Key| k != key;
    reveal(Seq::filter);
    let rest = keys.drop_last();
    assert(!keys.remove(i).contains(key)) by {
        if keys.remove(i).contains(key) {
            let j = choose|j: int| 0 <= j < keys.remove(i).len() && keys.remove(i)[j] == key;
            if j < i {
                assert(keys[j] == key);
            } else {
                assert(keys[j + 1] == key);
            }
        }
    }
    assert(distinct(keys.remove(i))) by {
        assert forall|a: int, b: int| 0 <= a < b < keys.remove(i).len() implies keys.remove(
            i,
        )[a] != keys.remove(i)[b] by {
            let a2 = if a < i { a } else { a + 1 };
            let b2 = if b < i { b } else { b + 1 };
            assert(keys.remove(i)[a] == keys[a2]);
            assert(keys.remove(i)[b] == keys[b2]);
        }
    }
    if i == keys.len() - 1 {
        assert(!rest.contains(key)) by {
            if rest.contains(key) {
                let j = choose|j: int| 0 <= j < rest.len() && rest[j] == key;
                assert(keys[j] == key);
            }
        }
        lemma_absent_filter(rest, key);
        assert(keys.remove(i) =~= rest);
        assert(!pred(keys.last()));
    } else {
        assert(distinct(rest));
        assert(rest[i] == key);
        lemma_remove_is_filter(rest, key, i);
        assert(keys.last() != key);
        assert(pred(keys.last()));
        assert(keys.remove(i) =~= rest.remove(i).push(keys.last()));
    }
}

} // verus!
