use vstd::prelude::*;

use crate::key::Key;
use crate::keyboard_input::KeyboardInput;

verus! {

/// Number of frames the history keeps.
pub const INPUT_BUFFER_LENGTH: usize = 10;

/// The frames of a history, most recent first.
pub type Frames = Seq<Seq<Key>>;

/// A history in which every frame is empty.
pub open spec fn empty_history() -> Frames {
    Seq::new(INPUT_BUFFER_LENGTH as nat, |i: int| Seq::<Key>::empty())
}

/// `h` after `f` is added: `f` becomes the most recent frame and the oldest
/// frame is dropped.
pub open spec fn pushed(h: Frames, f: Seq<Key>) -> Frames {
    seq![f] + h.take(INPUT_BUFFER_LENGTH - 1)
}

/// `h` after each frame of `fs` is added, in order.
pub open spec fn pushed_all(h: Frames, fs: Seq<Seq<Key>>) -> Frames
    decreases fs.len(),
{
    if fs.len() == 0 {
        h
    } else {
        pushed(pushed_all(h, fs.drop_last()), fs.last())
    }
}

/// `k` is down in the most recent frame.
pub open spec fn down(h: Frames, k: Key) -> bool {
    h[0].contains(k)
}

/// `k` is down in the most recent frame and was not in the one before.
pub open spec fn newly_down(h: Frames, k: Key) -> bool {
    h[0].contains(k) && !h[1].contains(k)
}

/// `k` is up in the most recent frame and was down in the one before.
pub open spec fn newly_up(h: Frames, k: Key) -> bool {
    !h[0].contains(k) && h[1].contains(k)
}

/// A rolling window over the last frames of keyboard input, from which level
/// and edge queries on keys are answered.
#[derive(Debug)]
pub struct KeyboardSnapshot {
    inputs: Vec<KeyboardInput>,
    index: usize,
}

impl View for KeyboardSnapshot {
    type V = Frames;

    /// The frames held, most recent first: slot `index - 1` holds the most
    /// recent one, slot `index` the oldest.
    closed spec fn view(&self) -> Frames {
        Seq::new(
            INPUT_BUFFER_LENGTH as nat,
            |i: int| self.inputs@[(self.index + INPUT_BUFFER_LENGTH - 1 - i) % (INPUT_BUFFER_LENGTH as int)]@,
        )
    }
}

impl KeyboardSnapshot {
    /// A well-formed history holds `INPUT_BUFFER_LENGTH` frames, and its
    /// ring is in order.
    pub open spec fn wf(&self) -> bool {
        &&& self@.len() == INPUT_BUFFER_LENGTH
        &&& self.ring_ok()
    }

    /// The ring has its fixed number of slots and the cursor stands in it.
    pub closed spec fn ring_ok(&self) -> bool {
        &&& self.inputs@.len() == INPUT_BUFFER_LENGTH
        &&& self.index < INPUT_BUFFER_LENGTH
    }

    /// A history of empty frames.
    pub fn new() -> (r: Self)
        ensures
            r.wf(),
            r@ == empty_history(),
    {
        let mut inputs: Vec<KeyboardInput> = Vec::new();
        while inputs.len() < INPUT_BUFFER_LENGTH
            invariant
                inputs@.len() <= INPUT_BUFFER_LENGTH,
                forall|j: int| 0 <= j < inputs@.len() ==> (#[trigger] inputs@[j])@ == Seq::<Key>::empty(),
            decreases INPUT_BUFFER_LENGTH - inputs@.len(),
        {
            inputs.push(KeyboardInput::new());
        }
        let r = KeyboardSnapshot { inputs, index: 0 };
        assert(r@ =~= empty_history());
        r
    }

    /// Adds `input` as the most recent frame, in place of the oldest.
    pub fn add_input(&mut self, input: KeyboardInput)
        requires
            old(self).wf(),
        ensures
            final(self).wf(),
            final(self)@ == pushed(old(self)@, input@),
    {
        let ghost before = self@;
        let ghost f = input@;
        let i = self.index;
        self.inputs[i] = input;
        self.advance_index();
        assert(self@ =~= pushed(before, f));
    }

    /// Whether `key` went down with the most recent frame.
    pub fn is_key_down(&self, key: Key) -> (r: bool)
        requires
            self.wf(),
        ensures
            r == newly_down(self@, key),
    {
        self.inputs[self.head()].is_key_down(key) && !self.inputs[self.last_frame()].is_key_down(key)
    }

    /// Whether `key` is down in the most recent frame.
    pub fn is_key_pressed(&self, key: Key) -> (r: bool)
        requires
            self.wf(),
        ensures
            r == down(self@, key),
    {
        self.inputs[self.head()].is_key_down(key)
    }

    /// Whether `key` is down in the most recent frame; the same query as
    /// [`KeyboardSnapshot::is_key_pressed`].
    pub fn is_key(&self, key: Key) -> (r: bool)
        requires
            self.wf(),
        ensures
            r == down(self@, key),
    {
        self.is_key_pressed(key)
    }

    /// Whether `key` came up with the most recent frame.
    pub fn is_key_up(&self, key: Key) -> (r: bool)
        requires
            self.wf(),
        ensures
            r == newly_up(self@, key),
    {
        !self.inputs[self.head()].is_key_down(key) && self.inputs[self.last_frame()].is_key_down(key)
    }

    fn advance_index(&mut self)
        requires
            old(self).index < INPUT_BUFFER_LENGTH,
        ensures
            final(self).index == (old(self).index + 1) % (INPUT_BUFFER_LENGTH as int),
            final(self).inputs == old(self).inputs,
    {
        self.index = if self.index == INPUT_BUFFER_LENGTH - 1 {
            0
        } else {
            self.index + 1
        };
    }

    /// Slot of the frame added just before the most recent one.
    fn last_frame(&self) -> (r: usize)
        requires
            self.wf(),
        ensures
            r == (self.index + INPUT_BUFFER_LENGTH - 2) % (INPUT_BUFFER_LENGTH as int),
            self.inputs@[r as int]@ == self@[1],
    {
        match self.index {
            0 => INPUT_BUFFER_LENGTH - 2,
            1 => INPUT_BUFFER_LENGTH - 1,
            _ => self.index - 2,
        }
    }

    /// Slot of the most recent frame.
    fn head(&self) -> (r: usize)
        requires
            self.wf(),
        ensures
            r == (self.index + INPUT_BUFFER_LENGTH - 1) % (INPUT_BUFFER_LENGTH as int),
            self.inputs@[r as int]@ == self@[0],
    {
        if self.index == 0 {
            INPUT_BUFFER_LENGTH - 1
        } else {
            self.index - 1
        }
    }
}

/// Edge queries on a history: nothing is newly down or up before any frame
/// is added; after a frame with `k` and then one without it, `k` is newly up
/// and not newly down; in the reverse order `k` is newly down.
pub proof fn lemma_edges(h: Frames, with_k: Seq<Key>, without_k: Seq<Key>, k: Key)
    requires
        h.len() == INPUT_BUFFER_LENGTH,
        with_k.contains(k),
        !without_k.contains(k),
    ensures
        !newly_down(empty_history(), k),
        !newly_up(empty_history(), k),
        newly_up(pushed(pushed(h, with_k), without_k), k),
        !newly_down(pushed(pushed(h, with_k), without_k), k),
        newly_down(pushed(pushed(h, without_k), with_k), k),
        !newly_up(pushed(pushed(h, without_k), with_k), k),
{
    assert(empty_history()[0] == Seq::<Key>::empty());
    assert(empty_history()[1] == Seq::<Key>::empty());
    assert(pushed(pushed(h, with_k), without_k)[1] == with_k);
    assert(pushed(pushed(h, without_k), with_k)[1] == without_k);
}

/// However many frames are added, the history keeps its length and its most
/// recent frame is the one added last, followed by the ones before it.
pub proof fn lemma_pushed_all(h: Frames, fs: Seq<Seq<Key>>)
    requires
        h.len() == INPUT_BUFFER_LENGTH,
        fs.len() > 0,
    ensures
        pushed_all(h, fs).len() == INPUT_BUFFER_LENGTH,
        pushed_all(h, fs)[0] == fs.last(),
        fs.len() > 1 ==> pushed_all(h, fs)[1] == fs[fs.len() - 2],
    decreases fs.len(),
{
    let prev = pushed_all(h, fs.drop_last());
    if fs.len() > 1 {
        lemma_pushed_all(h, fs.drop_last());
        assert(fs.drop_last().last() == fs[fs.len() - 2]);
    } else {
        assert(prev == h);
    }
    assert(prev.len() == INPUT_BUFFER_LENGTH);
    assert(pushed(prev, fs.last())[1] == prev[0]);
}

} // verus!
