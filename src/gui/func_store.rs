//! The table that maps an event to its handler.
use vstd::prelude::*;

verus! {

/// What a handler is registered for: a window message, or a notification
/// that a child control sends through `WM_COMMAND`.
#[derive(Clone, Copy, PartialEq, Eq, Structural, Debug)]
pub enum EventKey {
    Wm(u32),
    Cmd { ctrl_id: u16, code: u16 },
}

/// Low word of a message parameter.
pub open spec fn loword(w: usize) -> u16 {
    (w % 0x10000) as u16
}

/// High word of the low 32 bits of a message parameter.
pub open spec fn hiword(w: usize) -> u16 {
    ((w / 0x10000) % 0x10000) as u16
}

/// The key under which the message `msg` with first parameter `wparam` is
/// looked up: `WM_COMMAND` carries the control ID in the low word and the
/// notification code in the high word.
pub open spec fn key_of_msg(msg: u32, wparam: usize) -> EventKey {
    if msg == crate::co::WM::COMMAND {
        EventKey::Cmd { ctrl_id: loword(wparam), code: hiword(wparam) }
    } else {
        EventKey::Wm(msg)
    }
}

impl EventKey {
    /// The key under which an arriving message is looked up.
    pub fn from_msg(msg: u32, wparam: usize) -> (r: EventKey)
        ensures
            r == key_of_msg(msg, wparam),
    {
        if msg == crate::co::WM::COMMAND {
            EventKey::Cmd {
                ctrl_id: (wparam % 0x10000) as u16,
                code: ((wparam / 0x10000) % 0x10000) as u16,
            }
        } else {
            EventKey::Wm(msg)
        }
    }
}

/// The handler that the most recent registration under `k` left in `s`.
pub open spec fn last_for<F>(s: Seq<(EventKey, F)>, k: EventKey) -> Option<F>
    decreases s.len(),
{
    if s.len() == 0 {
        None
    } else if s.last().0 == k {
        Some(s.last().1)
    } else {
        last_for(s.drop_last(), k)
    }
}

/// Handlers in registration order. Each key has at most one live handler: a
/// later registration under the same key replaces the earlier one.
pub struct FuncStore<F> {
    elems: Vec<(EventKey, F)>,
}

impl<F> View for FuncStore<F> {
    type V = Map<EventKey, F>;

    closed spec fn view(&self) -> Map<EventKey, F> {
        Map::new(
            |k: EventKey| last_for(self.elems@, k) is Some,
            |k: EventKey| last_for(self.elems@, k)->Some_0,
        )
    }
}

impl<F> FuncStore<F> {
    /// A table with no handler.
    pub fn new() -> (r: FuncStore<F>)
        ensures
            r@ == Map::<EventKey, F>::empty(),
    {
        let r = FuncStore { elems: Vec::new() };
        assert(r@ =~= Map::<EventKey, F>::empty());
        r
    }

    /// Registers `f` under `key`, replacing any handler registered before.
    pub fn push(&mut self, key: EventKey, f: F)
        ensures
            final(self)@ == old(self)@.insert(key, f),
    {
        self.elems.push((key, f));
        proof {
            let s = self.elems@;
            assert(s.drop_last() =~= old(self).elems@);
            assert forall|k: EventKey| #[trigger] last_for(s, k) == (if k == key {
                Some(f)
            } else {
                last_for(old(self).elems@, k)
            }) by {}
            assert(self@ =~= old(self)@.insert(key, f));
        }
    }

    /// The handler registered under `key`, if any.
    pub fn find(&self, key: EventKey) -> (r: Option<&F>)
        ensures
            match r {
                Some(f) => self@.contains_key(key) && *f == self@[key],
                None => !self@.contains_key(key),
            },
    {
        let mut i: usize = self.elems.len();
        assert(self.elems@.take(i as int) =~= self.elems@);
        while i > 0
            invariant
                i <= self.elems@.len(),
                last_for(self.elems@, key) == last_for(self.elems@.take(i as int), key),
            decreases i,
        {
            let ghost t = self.elems@.take(i as int);
            if self.elems[i - 1].0 == key {
                return Some(&self.elems[i - 1].1);
            }
            assert(t.drop_last() =~= self.elems@.take(i - 1));
            i = i - 1;
        }
        None
    }
}

} // verus!
