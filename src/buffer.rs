use vstd::prelude::*;

use crate::character::{push_char, IsoLatin9Char};
use crate::charset::{decode, is_valid_byte};

verus! {

/// The largest capacity, in bytes, that an allocation can have: `isize::MAX`.
pub const MAX_CAPACITY: usize = usize::MAX / 2;

/// The longest string whose text [`IsoLatin9String::to_debug_string`] can hold: that text takes
/// up to four bytes per character, and two more characters for the quotes.
pub const MAX_TEXT_LEN: usize = usize::MAX / 8 - 2;

/// Whether every byte of `bytes` is valid.
pub open spec fn all_valid(bytes: Seq<u8>) -> bool {
    forall|i: int| 0 <= i < bytes.len() ==> is_valid_byte(#[trigger] bytes[i])
}

/// The text that `bytes` encodes, one character per byte.
pub open spec fn decode_all(bytes: Seq<u8>) -> Seq<char> {
    bytes.map_values(|b: u8| decode(b))
}

/// The capacity after a request for room for `required` bytes in a buffer of capacity `cap`:
/// unchanged if there is room already, else the larger of `required` and twice `cap` (bounded by
/// [`MAX_CAPACITY`]), so that repeated growth costs amortised constant time per byte.
pub open spec fn grown_capacity(cap: nat, required: nat) -> nat {
    let doubled = if 2 * cap <= MAX_CAPACITY {
        2 * cap
    } else {
        MAX_CAPACITY as nat
    };
    if required <= cap {
        cap
    } else if required >= doubled {
        required
    } else {
        doubled
    }
}

/// Relies on `Vec::reserve_exact`: the contents stay as they are. It panics when the new
/// capacity would exceed `isize::MAX` bytes, which `requires` rules out.
#[verifier::external_body]
fn vec_reserve_exact(v: &mut Vec<u8>, additional: usize)
    requires
        old(v)@.len() + additional <= MAX_CAPACITY,
    ensures
        final(v)@ == old(v)@,
{
    v.reserve_exact(additional)
}

/// A growable Latin-9 string: a buffer of valid bytes, one per character.
///
/// Its capacity is the number of bytes reserved for it; the allocation behind it holds at least
/// that many. The capacity changes only when asked to, or when a push finds the buffer full.
#[derive(Debug)]
pub struct IsoLatin9String {
    bytes: Vec<u8>,
    cap: usize,
}

/// The bytes given to [`IsoLatin9String::from_iso8859_1`] were not all valid.
#[derive(Debug)]
pub struct FromIso8859_1Error {
    /// The index of the first byte that is not valid.
    pub valid_up_to: usize,
    /// The bytes that were given, unchanged.
    pub bytes: Vec<u8>,
}

impl View for IsoLatin9String {
    type V = Seq<u8>;

    /// The bytes of the string.
    closed spec fn view(&self) -> Seq<u8> {
        self.bytes@
    }
}

impl IsoLatin9String {
    #[verifier::type_invariant]
    closed spec fn inv(self) -> bool {
        &&& self.bytes@.len() <= self.cap
        &&& all_valid(self.bytes@)
    }

    /// The number of bytes reserved for the string.
    pub closed spec fn spec_capacity(&self) -> nat {
        self.cap as nat
    }

    /// The empty string, with no capacity.
    pub fn new() -> (r: IsoLatin9String)
        ensures
            r@ == Seq::<u8>::empty(),
            r.spec_capacity() == 0,
    {
        IsoLatin9String { bytes: Vec::new(), cap: 0 }
    }

    /// The empty string, with room for exactly `capacity` bytes.
    pub fn with_capacity(capacity: usize) -> (r: IsoLatin9String)
        requires
            capacity <= MAX_CAPACITY,
        ensures
            r@ == Seq::<u8>::empty(),
            r.spec_capacity() == capacity,
    {
        IsoLatin9String { bytes: Vec::with_capacity(capacity), cap: capacity }
    }

    /// The string of the bytes `vec`, if all of them are valid; its capacity is its length.
    /// Otherwise the error gives the index of the first byte that is not valid, and `vec`.
    pub fn from_iso8859_1(vec: Vec<u8>) -> (r: Result<IsoLatin9String, FromIso8859_1Error>)
        ensures
            r is Ok <==> all_valid(vec@),
            r is Ok ==> r->Ok_0@ == vec@ && r->Ok_0.spec_capacity() == vec@.len(),
            r is Err ==> ({
                let e = r->Err_0;
                &&& e.bytes@ == vec@
                &&& e.valid_up_to < vec@.len()
                &&& !is_valid_byte(vec@[e.valid_up_to as int])
                &&& all_valid(vec@.take(e.valid_up_to as int))
            }),
    {
        let n = vec.len();
        let mut i: usize = 0;
        while i < n
            invariant
                n == vec@.len(),
                i <= n,
                all_valid(vec@.take(i as int)),
            decreases n - i,
        {
            if IsoLatin9Char::from_byte(vec[i]).is_err() {
                return Err(FromIso8859_1Error { valid_up_to: i, bytes: vec });
            }
            assert(vec@.take(i + 1) =~= vec@.take(i as int).push(vec@[i as int]));
            i = i + 1;
        }
        assert(vec@.take(n as int) =~= vec@);
        Ok(IsoLatin9String { bytes: vec, cap: n })
    }

    /// The bytes of the string.
    pub fn into_bytes(self) -> (r: Vec<u8>)
        ensures
            r@ == self@,
            all_valid(r@),
    {
        proof { use_type_invariant(&self); }
        self.bytes
    }

    /// The bytes of the string.
    pub fn as_bytes(&self) -> (r: &[u8])
        ensures
            r@ == self@,
            all_valid(r@),
    {
        proof { use_type_invariant(self); }
        self.bytes.as_slice()
    }

    /// The number of characters, which is the number of bytes.
    pub fn len(&self) -> (r: usize)
        ensures
            r == self@.len(),
    {
        self.bytes.len()
    }

    /// Whether the string holds no character.
    pub fn is_empty(&self) -> (r: bool)
        ensures
            r == (self@.len() == 0),
    {
        self.bytes.len() == 0
    }

    /// The number of bytes reserved for the string; never below its length.
    pub fn capacity(&self) -> (r: usize)
        ensures
            r == self.spec_capacity(),
            self@.len() <= r,
    {
        proof { use_type_invariant(self); }
        self.cap
    }

    /// Makes room for at least `additional` more bytes. Where there is not room already, the
    /// capacity grows to [`grown_capacity`], which may be more than asked for, so that repeated
    /// calls cost amortised constant time per byte.
    pub fn reserve(&mut self, additional: usize)
        requires
            old(self)@.len() + additional <= MAX_CAPACITY,
        ensures
            final(self)@ == old(self)@,
            final(self).spec_capacity() == grown_capacity(
                old(self).spec_capacity(),
                (old(self)@.len() + additional) as nat,
            ),
            final(self).spec_capacity() >= old(self)@.len() + additional,
            final(self).spec_capacity() >= old(self).spec_capacity(),
    {
        proof { use_type_invariant(&*self); }
        let required = self.bytes.len() + additional;
        if required <= self.cap {
            return;
        }
        let doubled = if self.cap <= MAX_CAPACITY / 2 {
            2 * self.cap
        } else {
            MAX_CAPACITY
        };
        let new_cap = if required >= doubled {
            required
        } else {
            doubled
        };
        self.grow_to(new_cap);
    }

    /// Makes room for exactly `additional` more bytes: where there is not room already, the
    /// capacity becomes the length plus `additional`.
    pub fn reserve_exact(&mut self, additional: usize)
        requires
            old(self)@.len() + additional <= MAX_CAPACITY,
        ensures
            final(self)@ == old(self)@,
            final(self).spec_capacity() == if old(self)@.len() + additional <= old(
                self,
            ).spec_capacity() {
                old(self).spec_capacity()
            } else {
                (old(self)@.len() + additional) as nat
            },
            final(self).spec_capacity() >= old(self)@.len() + additional,
            final(self).spec_capacity() >= old(self).spec_capacity(),
    {
        proof { use_type_invariant(&*self); }
        let required = self.bytes.len() + additional;
        if required <= self.cap {
            return;
        }
        self.grow_to(required);
    }

    /// Sets the capacity to `new_cap`, and reserves as much in the allocation.
    fn grow_to(&mut self, new_cap: usize)
        requires
            old(self).spec_capacity() < new_cap <= MAX_CAPACITY,
        ensures
            final(self)@ == old(self)@,
            final(self).spec_capacity() == new_cap,
    {
        proof { use_type_invariant(&*self); }
        let len = self.bytes.len();
        let mut bytes = Vec::new();
        std::mem::swap(&mut bytes, &mut self.bytes);
        vec_reserve_exact(&mut bytes, new_cap - len);
        *self = IsoLatin9String { bytes, cap: new_cap };
    }

    /// Appends the character `c`, growing the capacity as [`Self::reserve`] does when the string
    /// is full.
    pub fn push(&mut self, c: IsoLatin9Char)
        requires
            old(self)@.len() < MAX_CAPACITY,
        ensures
            final(self)@ == old(self)@.push(c@),
            final(self).spec_capacity() == grown_capacity(
                old(self).spec_capacity(),
                (old(self)@.len() + 1) as nat,
            ),
    {
        self.reserve(1);
        proof { use_type_invariant(&*self); }
        let b = c.to_byte();
        let mut bytes = Vec::new();
        std::mem::swap(&mut bytes, &mut self.bytes);
        bytes.push(b);
        assert(all_valid(bytes@));
        *self = IsoLatin9String { bytes, cap: self.cap };
    }

    /// The text of the string.
    pub fn to_display_string(&self) -> (r: String)
        requires
            self@.len() <= MAX_TEXT_LEN,
        ensures
            r@ == decode_all(self@),
    {
        let mut s = String::new();
        self.push_text(&mut s);
        s
    }

    /// The text of the string between double quotes.
    pub fn to_debug_string(&self) -> (r: String)
        requires
            self@.len() <= MAX_TEXT_LEN,
        ensures
            r@ == seq!['"'] + decode_all(self@) + seq!['"'],
    {
        let mut s = String::new();
        push_char(&mut s, '"');
        self.push_text(&mut s);
        push_char(&mut s, '"');
        s
    }

    /// Appends the text of the string to `s`.
    fn push_text(&self, s: &mut String)
        requires
            self@.len() <= MAX_TEXT_LEN,
            old(s)@.len() <= 1,
        ensures
            final(s)@ == old(s)@ + decode_all(self@),
    {
        proof { use_type_invariant(self); }
        let n = self.bytes.len();
        let mut i: usize = 0;
        while i < n
            invariant
                n == self.bytes@.len(),
                i <= n,
                all_valid(self.bytes@),
                self.bytes@.len() <= MAX_TEXT_LEN,
                old(s)@.len() <= 1,
                s@ == old(s)@ + decode_all(self.bytes@.take(i as int)),
            decreases n - i,
        {
            let c = IsoLatin9Char::from_byte(self.bytes[i]).unwrap();
            assert(decode_all(self.bytes@.take(i + 1)) =~= decode_all(self.bytes@.take(i as int)).push(
                decode(self.bytes@[i as int]),
            ));
            push_char(s, c.to_char());
            i = i + 1;
        }
        assert(self.bytes@.take(n as int) =~= self.bytes@);
    }
}

impl PartialEq for IsoLatin9String {
    /// Two strings are equal when they hold the same bytes, whatever their capacities.
    fn eq(&self, other: &IsoLatin9String) -> (r: bool) {
        let r = self.bytes == other.bytes;
        assert(r ==> self.bytes@ =~= other.bytes@);
        r
    }
}

impl vstd::std_specs::cmp::PartialEqSpecImpl for IsoLatin9String {
    open spec fn obeys_eq_spec() -> bool {
        true
    }

    open spec fn eq_spec(&self, other: &IsoLatin9String) -> bool {
        self@ == other@
    }
}

impl Eq for IsoLatin9String {

}

impl Clone for IsoLatin9String {
    /// A string with the same bytes and capacity.
    fn clone(&self) -> (r: IsoLatin9String)
        ensures
            r@ == self@,
            r.spec_capacity() == self.spec_capacity(),
    {
        proof { use_type_invariant(self); }
        let bytes = self.bytes.clone();
        assert(bytes@ =~= self.bytes@);
        IsoLatin9String { bytes, cap: self.cap }
    }
}

} // verus!
