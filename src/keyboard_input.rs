use vstd::prelude::*;

use crate::input_type::{InputError, InputType, KEYBOARD_TAG};
use crate::key::{lemma_from_code_inverse, Key, KEY_COUNT};

verus! {

/// Whether bit `bit` of `byte` is set.
pub open spec fn bit_of(byte: u8, bit: u8) -> bool {
    (byte >> bit) & 1u8 == 1u8
}

/// Number of key codes a buffer carries: eight per byte after the tag byte.
pub open spec fn code_capacity(buf: Seq<u8>) -> int {
    8 * (buf.len() - 1)
}

/// Whether the bit for code `c` is set in `buf`: bit `c % 8` of byte `1 + c / 8`.
pub open spec fn code_bit(buf: Seq<u8>, c: int) -> bool {
    bit_of(buf[1 + c / 8], (c % 8) as u8)
}

/// Every set bit of `buf` names a key of the catalog.
pub open spec fn codes_in_catalog(buf: Seq<u8>) -> bool {
    forall|c: int| 0 <= c < code_capacity(buf) && #[trigger] code_bit(buf, c) ==> c < KEY_COUNT
}

/// The keys whose bits are set among the first `n` codes of `buf`, in code order.
pub open spec fn decoded_prefix(buf: Seq<u8>, n: nat) -> Seq<Key>
    decreases n,
{
    if n == 0 {
        Seq::empty()
    } else {
        let rest = decoded_prefix(buf, (n - 1) as nat);
        if code_bit(buf, n - 1) {
            rest.push(Key::spec_from_code((n - 1) as u8))
        } else {
            rest
        }
    }
}

/// The keys that a keyboard buffer marks as down, in code order.
pub open spec fn decoded(buf: Seq<u8>) -> Seq<Key> {
    decoded_prefix(buf, code_capacity(buf) as nat)
}

/// The keys decoded from the first `n` codes are exactly those whose bits are
/// set, each given once, in increasing order of code.
pub proof fn lemma_decoded_prefix(buf: Seq<u8>, n: nat)
    requires
        n <= code_capacity(buf),
        codes_in_catalog(buf),
    ensures
        forall|i: int| 0 <= i < decoded_prefix(buf, n).len() ==> (#[trigger] decoded_prefix(buf, n)[i]).code() < n,
        forall|i: int, j: int|
            0 <= i < j < decoded_prefix(buf, n).len() ==> (#[trigger] decoded_prefix(buf, n)[i]).code()
                < (#[trigger] decoded_prefix(buf, n)[j]).code(),
        forall|k: Key| decoded_prefix(buf, n).contains(k) <==> (k.code() < n && code_bit(buf, k.code() as int)),
        decoded_prefix(buf, n).no_duplicates(),
    decreases n,
{
    if n > 0 {
        let m = (n - 1) as nat;
        lemma_decoded_prefix(buf, m);
        let rest = decoded_prefix(buf, m);
        let res = decoded_prefix(buf, n);
        if code_bit(buf, m as int) {
            assert(m < KEY_COUNT);
            lemma_from_code_inverse(m as u8);
            let nk = Key::spec_from_code(m as u8);
            assert(res == rest.push(nk));
            assert(res[res.len() - 1] == nk);
            assert forall|k: Key| res.contains(k) <==> (k.code() < n && code_bit(buf, k.code() as int)) by {
                if k == nk {
                } else {
                    crate::key::lemma_code_injective(k, nk);
                    if res.contains(k) {
                        let j = choose|j: int| 0 <= j < res.len() && res[j] == k;
                        assert(rest[j] == k);
                    }
                    if rest.contains(k) {
                        let j = choose|j: int| 0 <= j < rest.len() && rest[j] == k;
                        assert(res[j] == k);
                    }
                }
            }
        } else {
            assert forall|k: Key| res.contains(k) <==> (k.code() < n && code_bit(buf, k.code() as int)) by {
                if k.code() == m {
                    assert(!code_bit(buf, k.code() as int));
                }
            }
        }
        let r = res;
        assert forall|i: int, j: int| 0 <= i < r.len() && 0 <= j < r.len() && i != j implies r[i] != r[j] by {
            if i < j {
                assert(r[i].code() < r[j].code());
            } else {
                assert(r[j].code() < r[i].code());
            }
        }
    }
}

/// A keyboard buffer in which only the bit of key `k` is set decodes to
/// exactly `k`.
pub proof fn lemma_single_key_buffer(buf: Seq<u8>, k: Key)
    requires
        1 + k.code() / 8 < buf.len(),
        buf[0] == KEYBOARD_TAG,
        buf[1 + k.code() / 8] == 1u8 << (k.code() % 8),
        forall|i: int| 1 <= i < buf.len() && i != 1 + k.code() / 8 ==> buf[i] == 0,
    ensures
        codes_in_catalog(buf),
        decoded(buf) == seq![k],
{
    let kc = k.code() as int;
    assert forall|c: int| 0 <= c < code_capacity(buf) implies #[trigger] code_bit(buf, c) == (c == kc) by {
        let b = (c % 8) as u8;
        let kb = (kc % 8) as u8;
        assert(b < 8 && kb < 8);
        if 1 + c / 8 == 1 + kc / 8 {
            assert(bit_of(1u8 << kb, b) == (b == kb)) by (bit_vector)
                requires
                    b < 8u8,
                    kb < 8u8,
            ;
        } else {
            assert(bit_of(0u8, b) == false) by (bit_vector);
            assert(c != kc);
        }
    }
    let n = code_capacity(buf) as nat;
    lemma_decoded_prefix(buf, n);
    let r = decoded(buf);
    assert(r.contains(k));
    assert forall|i: int| 0 <= i < r.len() implies r[i] == k by {
        assert(r.contains(r[i]));
        crate::key::lemma_code_injective(r[i], k);
    }
    if r.len() > 1 {
        assert(r[0] == r[1]);
    }
    assert(r =~= seq![k]);
}

/// `s` with `k` added at the end, unless `k` is already in it.
pub open spec fn with_key(s: Seq<Key>, k: Key) -> Seq<Key> {
    if s.contains(k) {
        s
    } else {
        s.push(k)
    }
}

/// Setting a key a second time changes nothing: the frame holds the key once.
pub proof fn lemma_set_key_idempotent(s: Seq<Key>, k: Key)
    ensures
        with_key(with_key(s, k), k) == with_key(s, k),
        with_key(s, k).contains(k),
        with_key(with_key(s, k), k).len() == with_key(s, k).len(),
{
    if !s.contains(k) {
        assert(s.push(k)[s.len() as int] == k);
    }
}

/// `s` with later repetitions of a key left out.
pub open spec fn dedup(s: Seq<Key>) -> Seq<Key>
    decreases s.len(),
{
    if s.len() == 0 {
        Seq::empty()
    } else {
        let d = dedup(s.drop_last());
        if d.contains(s.last()) {
            d
        } else {
            d.push(s.last())
        }
    }
}

/// The set of keys that are down in one frame of input.
#[derive(Debug)]
pub struct KeyboardInput {
    keys: Vec<Key>,
}

impl View for KeyboardInput {
    type V = Seq<Key>;

    /// The keys that are down, in the order they were added.
    closed spec fn view(&self) -> Seq<Key> {
        self.keys@
    }
}

impl Default for KeyboardInput {
    /// A frame with no key down.
    fn default() -> (r: Self)
        ensures
            r@ == Seq::<Key>::empty(),
    {
        KeyboardInput::new()
    }
}

impl KeyboardInput {
    /// A frame holds each key at most once.
    pub open spec fn wf(&self) -> bool {
        self@.no_duplicates()
    }

    /// A frame with no key down.
    pub fn new() -> (r: Self)
        ensures
            r@ == Seq::<Key>::empty(),
            r.wf(),
    {
        KeyboardInput { keys: Vec::new() }
    }

    /// Marks `key` as down; a key already down is left as it is.
    pub fn set_key(&mut self, key: Key)
        ensures
            final(self)@ == with_key(old(self)@, key),
            old(self).wf() ==> final(self).wf(),
    {
        if self.is_key_down(key) {
            return;
        }
        self.keys.push(key);
        proof {
            assert(final(self)@.drop_last() == old(self)@);
        }
    }

    /// Whether `key` is down in this frame.
    pub fn is_key_down(&self, key: Key) -> (r: bool)
        ensures
            r == self@.contains(key),
    {
        let mut i: usize = 0;
        while i < self.keys.len()
            invariant
                i <= self.keys@.len(),
                forall|j: int| 0 <= j < i ==> self.keys@[j] != key,
            decreases self.keys@.len() - i,
        {
            if self.keys[i] == key {
                return true;
            }
            i += 1;
        }
        false
    }

    /// The keys that are down, in the order they were added.
    pub fn keys(&self) -> (r: &[Key])
        ensures
            r@ == self@,
    {
        self.keys.as_slice()
    }

    /// How many keys are down.
    pub fn len(&self) -> (r: usize)
        ensures
            r == self@.len(),
    {
        self.keys.len()
    }

    /// Decodes a keyboard buffer: its first byte must be the keyboard tag, and
    /// bit `b` of byte `1 + i` is set exactly when the key of code `8 * i + b`
    /// is down. Keys come out in increasing order of code. In a buffer tagged
    /// as keyboard input, a set bit that names no key of the catalog is a
    /// caller's error; a buffer with another tag is refused whatever it holds.
    pub fn from_bytes(buffer: &[u8]) -> (r: Result<KeyboardInput, InputError>)
        requires
            buffer@.len() >= 1,
            buffer@[0] == KEYBOARD_TAG ==> codes_in_catalog(buffer@),
        ensures
            r is Ok <==> buffer@[0] == KEYBOARD_TAG,
            !(r is Ok) ==> r == Err::<KeyboardInput, InputError>(
                InputError::InvalidInputKind { expected: KEYBOARD_TAG, actual: buffer@[0] },
            ),
            r matches Ok(f) ==> f@ == decoded(buffer@) && f.wf(),
    {
        let tag = InputType::Keyboard.tag();
        if buffer[0] != tag {
            return Err(InputError::InvalidInputKind { expected: tag, actual: buffer[0] });
        }
        let ghost buf = buffer@;
        let mut keys: Vec<Key> = Vec::new();
        let mut byte_index: usize = 0;
        while byte_index < buffer.len() - 1
            invariant
                buf == buffer@,
                buf.len() >= 1,
                codes_in_catalog(buf),
                byte_index <= buf.len() - 1,
                keys@ == decoded_prefix(buf, (8 * byte_index) as nat),
            decreases buf.len() - 1 - byte_index,
        {
            let byte = buffer[byte_index + 1];
            let mut bit: u8 = 0;
            while bit < 8
                invariant
                    buf == buffer@,
                    buf.len() >= 1,
                    codes_in_catalog(buf),
                    byte_index < buf.len() - 1,
                    byte == buf[byte_index + 1],
                    bit <= 8,
                    keys@ == decoded_prefix(buf, (8 * byte_index + bit) as nat),
                decreases 8 - bit,
            {
                let ghost c: int = 8 * byte_index + bit;
                assert(c / 8 == byte_index && c % 8 == bit);
                if (byte >> bit) & 1u8 == 1u8 {
                    assert(code_bit(buf, c));
                    assert(c < KEY_COUNT);
                    let code = (8 * byte_index + bit as usize) as u8;
                    keys.push(Key::from_code(code));
                } else {
                    assert(!code_bit(buf, c));
                }
                bit += 1;
            }
            byte_index += 1;
        }
        proof {
            lemma_decoded_prefix(buf, code_capacity(buf) as nat);
        }
        Ok(KeyboardInput { keys })
    }

    /// A frame with the listed keys down; a key listed twice is held once.
    pub fn from_keys(keys: Vec<Key>) -> (r: Self)
        ensures
            r@ == dedup(keys@),
            r.wf(),
            forall|k: Key| r@.contains(k) <==> keys@.contains(k),
    {
        let mut frame = KeyboardInput::new();
        let mut i: usize = 0;
        while i < keys.len()
            invariant
                i <= keys@.len(),
                frame@ == dedup(keys@.take(i as int)),
                frame.wf(),
                forall|k: Key| frame@.contains(k) <==> (exists|j: int| 0 <= j < i && keys@[j] == k),
            decreases keys@.len() - i,
        {
            proof {
                assert(keys@.take(i + 1).drop_last() == keys@.take(i as int));
                assert(keys@.take(i + 1).last() == keys@[i as int]);
            }
            let ghost before = frame@;
            frame.set_key(keys[i]);
            proof {
                assert forall|k: Key| frame@.contains(k) <==> (exists|j: int| 0 <= j < i + 1 && keys@[j] == k) by {
                    if k == keys@[i as int] {
                        if !before.contains(k) {
                            assert(frame@[frame@.len() - 1] == k);
                        }
                    } else {
                        if frame@.contains(k) && frame@ != before {
                            let j = choose|j: int| 0 <= j < frame@.len() && frame@[j] == k;
                            assert(before[j] == k);
                        }
                        if before.contains(k) && frame@ != before {
                            let j = choose|j: int| 0 <= j < before.len() && before[j] == k;
                            assert(frame@[j] == k);
                        }
                        if before.contains(k) {
                            let j = choose|j: int| 0 <= j < i && keys@[j] == k;
                            assert(0 <= j < i + 1 && keys@[j] == k);
                        }
                        if exists|j: int| 0 <= j < i + 1 && keys@[j] == k {
                            let j = choose|j: int| 0 <= j < i + 1 && keys@[j] == k;
                            assert(0 <= j < i && keys@[j] == k);
                        }
                    }
                }
            }
            i += 1;
        }
        proof {
            assert(keys@.take(keys@.len() as int) == keys@);
        }
        frame
    }
}

} // verus!
