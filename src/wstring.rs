//! Wide (UTF-16) strings as the native API takes them.
use vstd::prelude::*;

verus! {

/// Most code units a `WString` holds: its size in bytes, terminator
/// included, always fits in a `usize`.
pub const MAX_WCHARS: usize = 0x7fff_fffe;

/// A UTF-16 string without embedded nulls; the native API receives it with a
/// terminating null appended.
pub struct WString {
    buf: Vec<u16>,
}

/// The code units of `s` before its first null, or all of them.
pub open spec fn until_null(s: Seq<u16>) -> Seq<u16>
    decreases s.len(),
{
    if s.len() == 0 {
        s
    } else if s[0] == 0 {
        Seq::empty()
    } else {
        seq![s[0]] + until_null(s.drop_first())
    }
}

impl View for WString {
    type V = Seq<u16>;

    closed spec fn view(&self) -> Seq<u16> {
        self.buf@
    }
}

impl WString {
    #[verifier::type_invariant]
    spec fn inv(&self) -> bool {
        &&& self.buf@.len() <= MAX_WCHARS
        &&& forall|i: int| 0 <= i < self.buf@.len() ==> self.buf@[i] != 0
    }

    /// An empty string.
    pub fn new() -> (r: WString)
        ensures
            r@ == Seq::<u16>::empty(),
    {
        WString { buf: Vec::new() }
    }

    /// Copies the code units of `src` up to, and not including, its first
    /// null.
    pub fn from_wchars_slice(src: &[u16]) -> (r: WString)
        requires
            src@.len() <= MAX_WCHARS,
        ensures
            r@ == until_null(src@),
    {
        let mut buf: Vec<u16> = Vec::new();
        let mut i: usize = 0;
        assert(src@.skip(0) =~= src@);
        assert(Seq::<u16>::empty() + until_null(src@) =~= until_null(src@));
        while i < src.len() && src[i] != 0
            invariant
                i <= src@.len(),
                src@.len() <= MAX_WCHARS,
                forall|j: int| 0 <= j < i ==> src@[j] != 0,
                buf@ == src@.take(i as int),
                until_null(src@) == buf@ + until_null(src@.skip(i as int)),
            decreases src@.len() - i,
        {
            let ghost rest = src@.skip(i as int);
            assert(rest.drop_first() =~= src@.skip(i + 1));
            assert(src@.take(i + 1) =~= src@.take(i as int).push(src@[i as int]));
            buf.push(src[i]);
            i = i + 1;
            assert(buf@ + until_null(src@.skip(i as int)) =~= src@.take(i - 1) + (seq![rest[0]]
                + until_null(rest.drop_first())));
        }
        proof {
            if i < src@.len() {
                assert(src@.skip(i as int)[0] == 0);
            }
            assert(until_null(src@.skip(i as int)) =~= Seq::<u16>::empty());
            assert(buf@ + Seq::<u16>::empty() =~= buf@);
        }
        WString { buf }
    }

    /// Number of code units, not counting the terminating null.
    pub fn len(&self) -> (r: usize)
        ensures
            r == self@.len(),
            r <= MAX_WCHARS,
    {
        proof {
            use_type_invariant(self);
        }
        self.buf.len()
    }

    /// Whether the string holds no code unit.
    pub fn is_empty(&self) -> (r: bool)
        ensures
            r == (self@.len() == 0),
    {
        self.buf.len() == 0
    }

    /// The code units, without the terminating null.
    pub fn to_wchars(&self) -> (r: Vec<u16>)
        ensures
            r@ == self@,
    {
        self.buf.clone()
    }

    /// The code units with the terminating null, as the native API takes
    /// them.
    pub fn to_wchars_nullt(&self) -> (r: Vec<u16>)
        ensures
            r@ == self@.push(0),
    {
        let mut r = self.buf.clone();
        r.push(0);
        r
    }
}

} // verus!
