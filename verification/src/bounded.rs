//! Storage of a fixed capacity, kept in place by `heapless`.
//!
//! The contents of each container stand in a ghost field beside the storage:
//! the private functions that call `heapless` state what each call does to
//! them, and everything else is proved from that.
use crate::octets;
use vstd::prelude::*;
use vstd::utf8::*;

verus! {

/// `heapless::Vec`, opaque.
#[verifier::external_type_specification]
#[verifier::external_body]
#[verifier::reject_recursive_types(T)]
pub struct ExHeaplessVec<T, const N: usize>(heapless::Vec<T, N>);

/// `heapless::String`, opaque.
#[verifier::external_type_specification]
#[verifier::external_body]
pub struct ExHeaplessString<const N: usize>(heapless::String<N>);

/// `heapless::LinearMap`, opaque.
#[verifier::external_type_specification]
#[verifier::external_body]
#[verifier::reject_recursive_types(K)]
#[verifier::reject_recursive_types(V)]
pub struct ExHeaplessLinearMap<K, V, const N: usize>(heapless::LinearMap<K, V, N>);

/// At most `N` bytes.
pub struct Bytes<const N: usize> {
    inner: heapless::Vec<u8, N>,
    contents: Ghost<Seq<u8>>,
}

impl<const N: usize> View for Bytes<N> {
    type V = Seq<u8>;

    closed spec fn view(&self) -> Seq<u8> {
        self.contents@
    }
}

impl<const N: usize> Bytes<N> {
    #[verifier::type_invariant]
    spec fn within_capacity(self) -> bool {
        self@.len() <= N
    }

    /// `heapless::Vec::new`: an empty vector.
    #[verifier::external_body]
    fn heapless_new() -> (r: Self)
        ensures
            r@ == Seq::<u8>::empty(),
    {
        Bytes { inner: heapless::Vec::new(), contents: Ghost(Seq::empty()) }
    }

    /// `heapless::Vec::extend_from_slice`: appends all of the bytes if they
    /// fit the capacity, and otherwise none of them and fails.
    #[verifier::external_body]
    fn heapless_extend(&mut self, bytes: &[u8]) -> (r: Result<(), ()>)
        ensures
            match r {
                Ok(_) => old(self)@.len() + bytes@.len() <= N && final(self)@ == old(self)@
                    + bytes@,
                Err(_) => old(self)@.len() + bytes@.len() > N && final(self)@ == old(self)@,
            },
    {
        self.inner.extend_from_slice(bytes)
    }

    /// `heapless::Vec::as_slice`: the contents.
    #[verifier::external_body]
    fn heapless_as_slice(&self) -> (r: &[u8])
        ensures
            r@ == self@,
    {
        self.inner.as_slice()
    }

    /// No bytes.
    pub fn new() -> (r: Self)
        ensures
            r@ == Seq::<u8>::empty(),
    {
        Self::heapless_new()
    }

    /// Appends one byte; hands it back when there is no room.
    pub fn push(&mut self, byte: u8) -> (r: Result<(), u8>)
        ensures
            match r {
                Ok(_) => old(self)@.len() + 1 <= N && final(self)@ == old(self)@.push(byte),
                Err(back) => back == byte && old(self)@.len() >= N && final(self)@ == old(self)@,
            },
    {
        let one: [u8; 1] = [byte];
        proof {
            use_type_invariant(&*self);
            assert(self@ + one@ =~= self@.push(byte));
        }
        match self.heapless_extend(&one) {
            Ok(_) => Ok(()),
            Err(_) => Err(byte),
        }
    }

    /// Appends all of the bytes if they fit, and none otherwise.
    pub fn extend_from_slice(&mut self, bytes: &[u8]) -> (r: Result<(), ()>)
        ensures
            match r {
                Ok(_) => old(self)@.len() + bytes@.len() <= N && final(self)@ == old(self)@
                    + bytes@,
                Err(_) => old(self)@.len() + bytes@.len() > N && final(self)@ == old(self)@,
            },
    {
        self.heapless_extend(bytes)
    }

    /// The bytes of a slice, if they fit.
    pub fn from_slice(bytes: &[u8]) -> (r: Result<Self, ()>)
        ensures
            match r {
                Ok(held) => bytes@.len() <= N && held@ == bytes@,
                Err(_) => bytes@.len() > N,
            },
    {
        let mut out: Self = Self::new();
        assert(out@ + bytes@ =~= bytes@);
        match out.extend_from_slice(bytes) {
            Ok(_) => Ok(out),
            Err(_) => Err(()),
        }
    }

    /// The bytes as a slice.
    pub fn as_slice(&self) -> (r: &[u8])
        ensures
            r@ == self@,
            r@.len() <= N,
    {
        proof {
            use_type_invariant(self);
        }
        self.heapless_as_slice()
    }

    /// How many bytes there are.
    pub fn len(&self) -> (r: usize)
        ensures
            r == self@.len(),
            r <= N,
    {
        self.as_slice().len()
    }
}

impl<const N: usize> Clone for Bytes<N> {
    fn clone(&self) -> (r: Self)
        ensures
            r@ == self@,
    {
        let bytes: &[u8] = self.as_slice();
        match Self::from_slice(bytes) {
            Ok(copy) => copy,
            Err(_) => Self::new(),
        }
    }
}

impl<const N: usize> PartialEq for Bytes<N> {
    fn eq(&self, other: &Self) -> (r: bool) {
        octets::equal(self.as_slice(), other.as_slice())
    }
}

impl<const N: usize> vstd::std_specs::cmp::PartialEqSpecImpl for Bytes<N> {
    open spec fn obeys_eq_spec() -> bool {
        true
    }

    open spec fn eq_spec(&self, other: &Self) -> bool {
        self@ == other@
    }
}

/// A text of at most `N` bytes in UTF-8.
pub struct Text<const N: usize> {
    inner: heapless::String<N>,
    contents: Ghost<Seq<char>>,
}

impl<const N: usize> View for Text<N> {
    type V = Seq<char>;

    closed spec fn view(&self) -> Seq<char> {
        self.contents@
    }
}

impl<const N: usize> Text<N> {
    #[verifier::type_invariant]
    spec fn within_capacity(self) -> bool {
        octets::utf8(self@).len() <= N
    }

    /// `heapless::String::new`: the empty text.
    #[verifier::external_body]
    fn heapless_new() -> (r: Self)
        ensures
            r@ == Seq::<char>::empty(),
    {
        Text { inner: heapless::String::new(), contents: Ghost(Seq::empty()) }
    }

    /// `heapless::String::push_str`: appends the text if its bytes fit the
    /// capacity, and otherwise nothing and fails.
    #[verifier::external_body]
    fn heapless_push_str(&mut self, text: &str) -> (r: Result<(), ()>)
        ensures
            match r {
                Ok(_) => octets::utf8(old(self)@).len() + octets::utf8(text@).len() <= N
                    && final(self)@ == old(self)@ + text@,
                Err(_) => octets::utf8(old(self)@).len() + octets::utf8(text@).len() > N
                    && final(self)@ == old(self)@,
            },
    {
        self.inner.push_str(text)
    }

    /// `heapless::String::as_str`: the contents.
    #[verifier::external_body]
    fn heapless_as_str(&self) -> (r: &str)
        ensures
            r@ == self@,
    {
        self.inner.as_str()
    }

    /// The empty text.
    pub fn new() -> (r: Self)
        ensures
            r@ == Seq::<char>::empty(),
    {
        Self::heapless_new()
    }

    /// Appends a text if its bytes fit, and nothing otherwise.
    pub fn push_str(&mut self, text: &str) -> (r: Result<(), ()>)
        ensures
            match r {
                Ok(_) => octets::utf8(old(self)@).len() + octets::utf8(text@).len() <= N
                    && final(self)@ == old(self)@ + text@,
                Err(_) => octets::utf8(old(self)@).len() + octets::utf8(text@).len() > N
                    && final(self)@ == old(self)@,
            },
    {
        self.heapless_push_str(text)
    }

    /// A text, if its bytes fit.
    pub fn try_from(text: &str) -> (r: Result<Self, ()>)
        ensures
            match r {
                Ok(held) => octets::utf8(text@).len() <= N && held@ == text@,
                Err(_) => octets::utf8(text@).len() > N,
            },
    {
        let mut out: Self = Self::new();
        assert(out@ + text@ =~= text@);
        match out.push_str(text) {
            Ok(_) => Ok(out),
            Err(_) => Err(()),
        }
    }

    /// The text as a slice.
    pub fn as_str(&self) -> (r: &str)
        ensures
            r@ == self@,
            octets::utf8(r@).len() <= N,
    {
        proof {
            use_type_invariant(self);
        }
        self.heapless_as_str()
    }

    /// Whether there is no text.
    pub fn is_empty(&self) -> (r: bool)
        ensures
            r == (self@.len() == 0),
    {
        let text: &str = self.as_str();
        proof {
            octets::lemma_utf8_empty(text@);
        }
        text.as_bytes().len() == 0
    }
}

impl<const N: usize> Clone for Text<N> {
    fn clone(&self) -> (r: Self)
        ensures
            r@ == self@,
    {
        let text: &str = self.as_str();
        match Self::try_from(text) {
            Ok(copy) => copy,
            Err(_) => Self::new(),
        }
    }
}

impl<const N: usize> PartialEq for Text<N> {
    fn eq(&self, other: &Self) -> (r: bool) {
        octets::same_text(self.as_str(), other.as_str())
    }
}

impl<const N: usize> vstd::std_specs::cmp::PartialEqSpecImpl for Text<N> {
    open spec fn obeys_eq_spec() -> bool {
        true
    }

    open spec fn eq_spec(&self, other: &Self) -> bool {
        self@ == other@
    }
}

/// A map of at most `N` entries, keyed by small numbers.
#[verifier::reject_recursive_types(V)]
pub struct SmallMap<V, const N: usize> {
    inner: heapless::LinearMap<u16, V, N>,
    entries: Ghost<Map<u16, V>>,
}

impl<V, const N: usize> View for SmallMap<V, N> {
    type V = Map<u16, V>;

    closed spec fn view(&self) -> Map<u16, V> {
        self.entries@
    }
}

impl<V, const N: usize> SmallMap<V, N> {
    #[verifier::type_invariant]
    spec fn within_capacity(self) -> bool {
        self@.dom().finite() && self@.len() <= N
    }

    /// `heapless::LinearMap::new`: an empty map.
    #[verifier::external_body]
    fn heapless_new() -> (r: Self)
        ensures
            (r@ == Map::<u16, V>::empty()),
    {
        SmallMap { inner: heapless::LinearMap::new(), entries: Ghost(Map::empty()) }
    }

    /// `heapless::LinearMap::len`: the number of entries.
    #[verifier::external_body]
    fn heapless_len(&self) -> (r: usize)
        ensures
            r == self@.len(),
    {
        self.inner.len()
    }

    /// `heapless::LinearMap::contains_key`.
    #[verifier::external_body]
    fn heapless_contains_key(&self, key: u16) -> (r: bool)
        ensures
            r == self@.contains_key(key),
    {
        self.inner.contains_key(&key)
    }

    /// `heapless::LinearMap::insert`: replaces the value of a key that is
    /// there, adds one that is not if there is room, and otherwise hands key
    /// and value back and changes nothing.
    #[verifier::external_body]
    fn heapless_insert(&mut self, key: u16, value: V) -> (r: Result<Option<V>, (u16, V)>)
        ensures
            match r {
                Ok(Some(before)) => old(self)@.contains_key(key) && before == old(self)@[key]
                    && final(self)@ == old(self)@.insert(key, value),
                Ok(None) => !old(self)@.contains_key(key) && old(self)@.len() + 1 <= N
                    && final(self)@ == old(self)@.insert(key, value),
                Err(back) => !old(self)@.contains_key(key) && old(self)@.len() >= N && back.0
                    == key && back.1 == value && final(self)@ == old(self)@,
            },
    {
        self.inner.insert(key, value)
    }

    /// `heapless::LinearMap::remove`: takes a key out and returns its value.
    #[verifier::external_body]
    fn heapless_remove(&mut self, key: u16) -> (r: Option<V>)
        ensures
            final(self)@ == old(self)@.remove(key),
            match r {
                Some(value) => old(self)@.contains_key(key) && value == old(self)@[key],
                None => !old(self)@.contains_key(key),
            },
    {
        self.inner.remove(&key)
    }

    /// `heapless::LinearMap::get_mut`: access to the value of a key.
    #[verifier::external_body]
    fn heapless_get_mut(&mut self, key: u16) -> (r: Option<&mut V>)
        ensures
            match r {
                Some(value) => old(self)@.contains_key(key) && *value == old(self)@[key]
                    && final(self)@ == old(self)@.insert(key, *final(value)),
                None => !old(self)@.contains_key(key) && final(self)@ == old(self)@,
            },
    {
        self.inner.get_mut(&key)
    }

    /// No entries.
    pub fn new() -> (r: Self)
        ensures
            (r@ == Map::<u16, V>::empty()),
    {
        Self::heapless_new()
    }

    /// The number of entries.
    pub fn len(&self) -> (r: usize)
        ensures
            r == self@.len(),
            r <= N,
            self@.dom().finite(),
    {
        proof {
            use_type_invariant(self);
        }
        self.heapless_len()
    }

    /// Whether there is an entry for `key`.
    pub fn contains_key(&self, key: u16) -> (r: bool)
        ensures
            r == self@.contains_key(key),
    {
        self.heapless_contains_key(key)
    }

    /// Sets the value of a key. Fails, and changes nothing, when the key is
    /// new and the map is full.
    pub fn insert(&mut self, key: u16, value: V) -> (r: Result<(), ()>)
        ensures
            match r {
                Ok(_) => (old(self)@.contains_key(key) || old(self)@.len() + 1 <= N)
                    && final(self)@ == old(self)@.insert(key, value),
                Err(_) => !old(self)@.contains_key(key) && old(self)@.len() >= N && final(self)@
                    == old(self)@,
            },
    {
        match self.heapless_insert(key, value) {
            Ok(_) => Ok(()),
            Err(_) => Err(()),
        }
    }

    /// Takes a key out and returns its value.
    pub fn remove(&mut self, key: u16) -> (r: Option<V>)
        ensures
            final(self)@ == old(self)@.remove(key),
            match r {
                Some(value) => old(self)@.contains_key(key) && value == old(self)@[key],
                None => !old(self)@.contains_key(key),
            },
    {
        self.heapless_remove(key)
    }

    /// Access to the value of a key.
    pub fn get_mut(&mut self, key: u16) -> (r: Option<&mut V>)
        ensures
            match r {
                Some(value) => old(self)@.contains_key(key) && *value == old(self)@[key]
                    && final(self)@ == old(self)@.insert(key, *final(value)),
                None => !old(self)@.contains_key(key) && final(self)@ == old(self)@,
            },
    {
        self.heapless_get_mut(key)
    }
}

/// Bytes are held whole or not at all: what fits is appended behind what is there, and
/// what does not is refused and changes nothing.
pub proof fn bytes_are_held_whole<const N: usize>(
    held: &mut Bytes<N>,
    more: &[u8],
    r: Result<(), ()>,
    taken: Result<Bytes<N>, ()>,
)
    requires
        call_ensures(Bytes::<N>::extend_from_slice, (held, more), r),
        call_ensures(Bytes::<N>::from_slice, (more,), taken),
    ensures
        r is Ok <==> old(held)@.len() + more@.len() <= N,
        r is Ok ==> final(held)@ == old(held)@ + more@,
        r is Err ==> final(held)@ == old(held)@,
        taken is Ok <==> more@.len() <= N,
        taken is Ok ==> taken->Ok_0@ == more@,
{
}

/// A text is held whole or not at all, by the length of its bytes.
pub proof fn texts_are_held_whole<const N: usize>(
    held: &mut Text<N>,
    more: &str,
    r: Result<(), ()>,
    taken: Result<Text<N>, ()>,
)
    requires
        call_ensures(Text::<N>::push_str, (held, more), r),
        call_ensures(Text::<N>::try_from, (more,), taken),
    ensures
        r is Ok <==> octets::utf8(old(held)@).len() + octets::utf8(more@).len() <= N,
        r is Ok ==> final(held)@ == old(held)@ + more@,
        r is Err ==> final(held)@ == old(held)@,
        taken is Ok <==> octets::utf8(more@).len() <= N,
        taken is Ok ==> taken->Ok_0@ == more@,
{
}

/// An entry that is set is there with its value and one that is removed is not; every
/// other entry stays. A new entry is refused exactly when the map is full.
pub proof fn entries_are_kept<V, const N: usize>(
    map: &mut SmallMap<V, N>,
    key: u16,
    value: V,
    set: Result<(), ()>,
    other: &mut SmallMap<V, N>,
    gone: Option<V>,
    key2: u16,
)
    requires
        call_ensures(SmallMap::<V, N>::insert, (map, key, value), set),
        call_ensures(SmallMap::<V, N>::remove, (other, key), gone),
        key2 != key,
    ensures
        set is Err <==> !old(map)@.contains_key(key) && old(map)@.len() >= N,
        set is Ok ==> final(map)@.contains_key(key) && final(map)@[key] == value,
        final(map)@.contains_key(key2) <==> old(map)@.contains_key(key2),
        old(map)@.contains_key(key2) ==> final(map)@[key2] == old(map)@[key2],
        gone is Some <==> old(other)@.contains_key(key),
        gone is Some ==> gone->Some_0 == old(other)@[key],
        !final(other)@.contains_key(key),
        final(other)@.contains_key(key2) <==> old(other)@.contains_key(key2),
        old(other)@.contains_key(key2) ==> final(other)@[key2] == old(other)@[key2],
{
}

} // verus!
