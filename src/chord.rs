//! Keyboard chords: a trigger key together with an exact set of held modifier keys.
use vstd::prelude::*;

use crate::input::{Key, KeyState, KeyboardEvent};

verus! {

/// The keys that are held to modify another key.
pub open spec fn is_modifier(k: Key) -> bool {
    k == Key::Control || k == Key::Alt
}

fn modifier(k: Key) -> (r: bool)
    ensures
        r == is_modifier(k),
{
    match k {
        Key::Control | Key::Alt => true,
        _ => false,
    }
}

/// A set of modifier keys.
#[derive(Clone, Copy, Debug, PartialEq, Eq, Structural)]
pub struct ModifierSet {
    control: bool,
    alt: bool,
}

impl View for ModifierSet {
    type V = Set<Key>;

    closed spec fn view(&self) -> Set<Key> {
        Set::new(|k: Key| (k == Key::Control && self.control) || (k == Key::Alt && self.alt))
    }
}

impl ModifierSet {
    /// The empty set.
    pub fn empty() -> (r: ModifierSet)
        ensures
            r@ == Set::<Key>::empty(),
    {
        let r = ModifierSet { control: false, alt: false };
        assert(r@ =~= Set::<Key>::empty());
        r
    }

    /// The set of `keys`, when every one of them is a modifier key.
    pub fn from_keys(keys: &[Key]) -> (r: Option<ModifierSet>)
        ensures
            r is Some <==> (forall|i: int| 0 <= i < keys@.len() ==> is_modifier(#[trigger] keys@[i])),
            r matches Some(m) ==> m@ == keys@.to_set(),
    {
        let mut m = ModifierSet::empty();
        let mut i: usize = 0;
        while i < keys.len()
            invariant
                i <= keys@.len(),
                forall|j: int| 0 <= j < i ==> is_modifier(#[trigger] keys@[j]),
                m@ == keys@.subrange(0, i as int).to_set(),
            decreases keys@.len() - i,
        {
            let k = keys[i];
            if !modifier(k) {
                return None;
            }
            m = m.with(k, true);
            i = i + 1;
            assert(m@ =~= keys@.subrange(0, i as int).to_set()) by {
                assert forall|x: Key| m@.contains(x) == keys@.subrange(0, i as int).to_set().contains(x) by {
                    let s = keys@.subrange(0, i as int);
                    if s.contains(x) {
                        let j = choose|j: int| 0 <= j < s.len() && #[trigger] s[j] == x;
                        if j < i - 1 {
                            assert(keys@.subrange(0, i - 1).contains(x)) by {
                                assert(keys@.subrange(0, i - 1)[j] == x);
                            }
                        }
                    }
                    let p = keys@.subrange(0, i - 1);
                    if p.contains(x) {
                        let j = choose|j: int| 0 <= j < p.len() && #[trigger] p[j] == x;
                        assert(s[j] == x);
                    }
                    if x == k {
                        assert(s[i - 1] == x);
                    }
                }
            }
        }
        assert(keys@.subrange(0, i as int) =~= keys@);
        Some(m)
    }

    /// This set with `k` put in or taken out; a key that is not a modifier is ignored.
    pub fn with(self, k: Key, held: bool) -> (r: ModifierSet)
        ensures
            r@ == if !is_modifier(k) {
                self@
            } else if held {
                self@.insert(k)
            } else {
                self@.remove(k)
            },
    {
        let r = match k {
            Key::Control => ModifierSet { control: held, alt: self.alt },
            Key::Alt => ModifierSet { control: self.control, alt: held },
            _ => self,
        };
        assert(r@ =~= if !is_modifier(k) {
            self@
        } else if held {
            self@.insert(k)
        } else {
            self@.remove(k)
        });
        r
    }

    /// Whether `k` is in the set.
    pub fn contains(&self, k: Key) -> (r: bool)
        ensures
            r == self@.contains(k),
    {
        match k {
            Key::Control => self.control,
            Key::Alt => self.alt,
            _ => false,
        }
    }

    /// Set equality.
    pub fn same_as(&self, other: &ModifierSet) -> (r: bool)
        ensures
            r == (self@ == other@),
    {
        let r = self.control == other.control && self.alt == other.alt;
        if !r {
            if self.control != other.control {
                assert(self@.contains(Key::Control) != other@.contains(Key::Control));
            } else {
                assert(self@.contains(Key::Alt) != other@.contains(Key::Alt));
            }
        } else {
            assert(self@ =~= other@);
        }
        r
    }

    pub proof fn lemma_only_modifiers(&self)
        ensures
            forall|k: Key| #[trigger] self@.contains(k) ==> is_modifier(k),
    {
    }
}

/// The held set after `key` goes down (`down`) or up; keys that are not modifiers leave it as it is.
pub open spec fn held_after(held: Set<Key>, key: Key, down: bool) -> Set<Key> {
    if !is_modifier(key) {
        held
    } else if down {
        held.insert(key)
    } else {
        held.remove(key)
    }
}

/// The live set of held modifier keys.
#[derive(Clone, Copy, Debug)]
pub struct ModifierTracker {
    held: ModifierSet,
}

impl View for ModifierTracker {
    type V = Set<Key>;

    closed spec fn view(&self) -> Set<Key> {
        self.held@
    }
}

impl ModifierTracker {
    /// Nothing held.
    pub fn new() -> (r: ModifierTracker)
        ensures
            r@ == Set::<Key>::empty(),
    {
        ModifierTracker { held: ModifierSet::empty() }
    }

    /// Records that `key` went down (`is_down`) or up.
    pub fn on_key_event(&mut self, key: Key, is_down: bool)
        ensures
            final(self)@ == held_after(old(self)@, key, is_down),
    {
        self.held = self.held.with(key, is_down);
    }

    /// The modifier keys held now.
    pub fn current_set(&self) -> (r: ModifierSet)
        ensures
            r@ == self@,
    {
        self.held
    }
}

/// A registered chord: `action` fires when `trigger` goes down while exactly
/// `modifiers` are held.
#[derive(Debug)]
pub struct Chord<A> {
    pub action: A,
    pub trigger: Key,
    pub modifiers: ModifierSet,
}

/// Whether `c` fires on `key` going down with exactly `held` held.
pub open spec fn chord_matches<A>(c: Chord<A>, key: Key, held: Set<Key>) -> bool {
    c.trigger == key && c.modifiers@ == held
}

/// Whether `chords[i]` is the first chord that fires on `key` with `held` held.
pub open spec fn first_match<A>(chords: Seq<Chord<A>>, key: Key, held: Set<Key>, i: int) -> bool {
    &&& 0 <= i < chords.len()
    &&& chord_matches(chords[i], key, held)
    &&& forall|j: int| 0 <= j < i ==> !chord_matches(#[trigger] chords[j], key, held)
}

/// The action of the first chord that fires on `key` with `held` held, if any.
pub open spec fn fired<A>(chords: Seq<Chord<A>>, key: Key, held: Set<Key>) -> Option<A> {
    if exists|i: int| first_match(chords, key, held, i) {
        Some(chords[choose|i: int| first_match(chords, key, held, i)].action)
    } else {
        None
    }
}

/// No chord is triggered by a modifier key, and no two chords share both trigger and modifiers.
pub open spec fn table_wf<A>(chords: Seq<Chord<A>>) -> bool {
    &&& forall|i: int| 0 <= i < chords.len() ==> !is_modifier(#[trigger] chords[i].trigger)
    &&& forall|i: int, j: int|
        0 <= i < chords.len() && 0 <= j < chords.len() && i != j && #[trigger] chords[i].trigger
            == #[trigger] chords[j].trigger ==> chords[i].modifiers@ != chords[j].modifiers@
}

/// Why a chord could not be registered.
#[derive(Clone, Copy, Debug, PartialEq, Eq, Structural)]
pub enum ChordError {
    /// The trigger key is itself a modifier key.
    ModifierTrigger,
    /// One of the required keys is not a modifier key.
    NotAModifier,
    /// A chord with the same trigger and the same modifiers is already registered.
    Duplicate,
}

/// The error registering a chord of `key` and `keys` in `chords` gives, if any.
pub open spec fn registration_error<A>(chords: Seq<Chord<A>>, key: Key, keys: Seq<Key>) -> Option<ChordError> {
    if is_modifier(key) {
        Some(ChordError::ModifierTrigger)
    } else if exists|i: int| 0 <= i < keys.len() && !is_modifier(#[trigger] keys[i]) {
        Some(ChordError::NotAModifier)
    } else if exists|i: int| 0 <= i < chords.len() && chord_matches(#[trigger] chords[i], key, keys.to_set()) {
        Some(ChordError::Duplicate)
    } else {
        None
    }
}

/// What a recognizer is: its chords in registration order and the modifier keys held.
pub struct RecognizerModel<A> {
    pub chords: Seq<Chord<A>>,
    pub held: Set<Key>,
}

/// Turns key events into actions by matching registered chords.
#[derive(Debug)]
pub struct KeyCombos<A> {
    chords: Vec<Chord<A>>,
    modifiers: ModifierTracker,
}

impl<A> View for KeyCombos<A> {
    type V = RecognizerModel<A>;

    closed spec fn view(&self) -> RecognizerModel<A> {
        RecognizerModel { chords: self.chords@, held: self.modifiers@ }
    }
}

impl<A: Copy> KeyCombos<A> {
    pub open spec fn wf(&self) -> bool {
        table_wf(self@.chords)
    }

    /// No chords, nothing held.
    pub fn new() -> (r: KeyCombos<A>)
        ensures
            r.wf(),
            r@.chords.len() == 0,
            r@.held == Set::<Key>::empty(),
    {
        KeyCombos { chords: Vec::new(), modifiers: ModifierTracker::new() }
    }

    /// Registers `action` on `key` with exactly `modifiers` held, after the chords
    /// already there. Refuses a modifier as trigger, a required key that is not a
    /// modifier, and a chord that duplicates one already registered.
    pub fn register(&mut self, action: A, key: Key, modifiers: &[Key]) -> (r: Result<(), ChordError>)
        requires
            old(self).wf(),
        ensures
            final(self).wf(),
            final(self)@.held == old(self)@.held,
            r matches Err(e) ==> registration_error(old(self)@.chords, key, modifiers@) == Some(e)
                && final(self)@.chords == old(self)@.chords,
            r is Ok ==> registration_error(old(self)@.chords, key, modifiers@) is None
                && final(self)@.chords.len() == old(self)@.chords.len() + 1
                && final(self)@.chords.drop_last() == old(self)@.chords
                && final(self)@.chords.last().action == action
                && final(self)@.chords.last().trigger == key
                && final(self)@.chords.last().modifiers@ == modifiers@.to_set(),
    {
        if modifier(key) {
            return Err(ChordError::ModifierTrigger);
        }
        let set = match ModifierSet::from_keys(modifiers) {
            Some(set) => set,
            None => {
                return Err(ChordError::NotAModifier);
            },
        };
        let mut i: usize = 0;
        while i < self.chords.len()
            invariant
                i <= self.chords@.len(),
                self.chords@ == old(self).chords@,
                self.modifiers == old(self).modifiers,
                table_wf(self.chords@),
                !is_modifier(key),
                forall|j: int| 0 <= j < modifiers@.len() ==> is_modifier(#[trigger] modifiers@[j]),
                set@ == modifiers@.to_set(),
                forall|j: int| 0 <= j < i ==> !chord_matches(#[trigger] self.chords@[j], key, set@),
            decreases self.chords@.len() - i,
        {
            let c = &self.chords[i];
            if c.trigger == key && c.modifiers.same_as(&set) {
                assert(chord_matches(self.chords@[i as int], key, modifiers@.to_set()));
                return Err(ChordError::Duplicate);
            }
            i = i + 1;
        }
        self.chords.push(Chord { action, trigger: key, modifiers: set });
        assert(self@.chords.drop_last() =~= old(self)@.chords);
        Ok(())
    }

    /// Number of registered chords.
    pub fn len(&self) -> (r: usize)
        ensures
            r == self@.chords.len(),
    {
        self.chords.len()
    }

    /// The modifier keys held now.
    pub fn held(&self) -> (r: ModifierSet)
        ensures
            r@ == self@.held,
    {
        self.modifiers.current_set()
    }

    /// Handles one key event. The held set is updated first; a key going down then
    /// fires the first registered chord whose trigger is that key and whose modifiers
    /// are exactly the keys held apart from it. A key going up fires nothing.
    pub fn on_event(&mut self, event: KeyboardEvent) -> (r: Option<A>)
        requires
            old(self).wf(),
        ensures
            final(self).wf(),
            final(self)@.chords == old(self)@.chords,
            final(self)@.held == held_after(old(self)@.held, event.key, event.state == KeyState::Down),
            event.state == KeyState::Up ==> r is None,
            event.state == KeyState::Down ==> (r is None <==> forall|i: int|
                0 <= i < old(self)@.chords.len() ==> !chord_matches(
                    #[trigger] old(self)@.chords[i],
                    event.key,
                    final(self)@.held.remove(event.key),
                )),
            r matches Some(a) ==> exists|i: int|
                first_match(old(self)@.chords, event.key, final(self)@.held.remove(event.key), i)
                    && (#[trigger] old(self)@.chords[i]).action == a,
            r == if event.state == KeyState::Down {
                fired(old(self)@.chords, event.key, final(self)@.held.remove(event.key))
            } else {
                None
            },
    {
        let down = match event.state {
            KeyState::Down => true,
            KeyState::Up => false,
        };
        self.modifiers.on_key_event(event.key, down);
        if !down {
            return None;
        }
        let held = self.modifiers.current_set().with(event.key, false);
        let ghost h = self@.held.remove(event.key);
        let ghost tracker = self.modifiers;
        proof {
            self.modifiers.held.lemma_only_modifiers();
            assert(held@ =~= h);
        }
        let mut i: usize = 0;
        while i < self.chords.len()
            invariant
                i <= self.chords@.len(),
                self.chords@ == old(self)@.chords,
                self.modifiers == tracker,
                tracker@ == held_after(old(self)@.held, event.key, true),
                h == tracker@.remove(event.key),
                event.state == KeyState::Down,
                table_wf(self.chords@),
                held@ == h,
                forall|j: int| 0 <= j < i ==> !chord_matches(#[trigger] self.chords@[j], event.key, h),
            decreases self.chords@.len() - i,
        {
            let c = &self.chords[i];
            if c.trigger == event.key && c.modifiers.same_as(&held) {
                assert(first_match(self.chords@, event.key, h, i as int));
                proof {
                    let k = choose|k: int| first_match(self.chords@, event.key, h, k);
                    if k < i {
                        assert(!chord_matches(self.chords@[k], event.key, h));
                    } else if k > i {
                        assert(!chord_matches(self.chords@[i as int], event.key, h));
                    }
                }
                return Some(c.action);
            }
            i = i + 1;
        }
        proof {
            if exists|k: int| first_match(self.chords@, event.key, h, k) {
                let k = choose|k: int| first_match(self.chords@, event.key, h, k);
                assert(!chord_matches(self.chords@[k], event.key, h));
            }
        }
        None
    }
}

/// In a well-formed table at most one chord fires for a key and a held set: matching is
/// on the exact set, so a chord that asks for fewer modifiers than are held does not fire.
pub proof fn law_chord_match_is_exact<A>(chords: Seq<Chord<A>>, key: Key, held: Set<Key>, i: int, j: int)
    requires
        table_wf(chords),
        0 <= i < chords.len(),
        0 <= j < chords.len(),
        chord_matches(chords[i], key, held),
        chord_matches(chords[j], key, held),
    ensures
        i == j,
        chords[i].modifiers@ == held,
{
}

/// After a modifier goes down and up again, a key pressed next is matched against the
/// held set without that modifier.
pub proof fn law_release_before_press(held: Set<Key>, m: Key, key: Key)
    requires
        is_modifier(m),
        key != m,
    ensures
        held_after(held_after(held_after(held, m, true), m, false), key, true).remove(key) == held.remove(m).remove(key),
        !held_after(held_after(held_after(held, m, true), m, false), key, true).remove(key).contains(m),
{
    assert(held_after(held_after(held_after(held, m, true), m, false), key, true).remove(key) =~= held.remove(m).remove(key));
}

} // verus!
