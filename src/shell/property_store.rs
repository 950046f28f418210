//! Enumeration of the keys of a property store.
#![allow(non_camel_case_types, non_snake_case)]

use vstd::prelude::*;

use crate::co::HRESULT;
use crate::structs::PROPERTYKEY;

verus! {

/// The result of a COM call: its value, or the failure code.
pub type HrResult<T> = Result<T, HRESULT>;

/// The methods of a property store, as the system provides them.
pub trait shell_IPropertyStore {
    /// Number of properties in the store.
    fn GetCount(&self) -> HrResult<u32>;

    /// Key of the property at `index`, counted from zero.
    fn GetAt(&self, index: u32) -> HrResult<PROPERTYKEY>;

    /// Saves the changes made to the store.
    fn Commit(&self) -> HrResult<()>;

    /// A walk over the keys of this store, which fails if counting them
    /// fails.
    fn iter(&self) -> (r: HrResult<PropertyStoreIter>) where Self: Sized
        ensures
            r matches Ok(it) ==> it.spec_current() == 0,
    {
        PropertyStoreIter::from_count(self.GetCount())
    }
}

/// Walks the keys of a property store, `GetAt(0)` to `GetAt(count - 1)`,
/// and stops for good at the first failure.
pub struct PropertyStoreIter {
    count: u32,
    current: u32,
}

impl PropertyStoreIter {
    #[verifier::type_invariant]
    spec fn inv(&self) -> bool {
        self.current <= self.count
    }

    /// Number of keys to walk.
    pub closed spec fn spec_count(&self) -> u32 {
        self.count
    }

    /// Index of the next key; equal to the count once the walk is over.
    pub closed spec fn spec_current(&self) -> u32 {
        self.current
    }

    /// A walk over a store, started from what its `GetCount` returned.
    pub fn from_count(count: HrResult<u32>) -> (r: HrResult<PropertyStoreIter>)
        ensures
            match count {
                Ok(n) => r matches Ok(it) && it.spec_count() == n && it.spec_current() == 0,
                Err(e) => r == Err::<PropertyStoreIter, HRESULT>(e),
            },
    {
        match count {
            Ok(n) => Ok(PropertyStoreIter { count: n, current: 0 }),
            Err(e) => Err(e),
        }
    }

    /// A walk over `store`, which fails if counting its keys fails.
    pub fn new<S: shell_IPropertyStore>(store: &S) -> (r: HrResult<PropertyStoreIter>)
        ensures
            r matches Ok(it) ==> it.spec_current() == 0,
    {
        PropertyStoreIter::from_count(store.GetCount())
    }

    /// Index of the key to ask for next, or `None` once the walk is over.
    pub fn pending_index(&self) -> (r: Option<u32>)
        ensures
            r == (if self.spec_current() == self.spec_count() {
                None
            } else {
                Some(self.spec_current())
            }),
    {
        if self.current == self.count {
            None
        } else {
            Some(self.current)
        }
    }

    /// Takes in what `GetAt` returned for the pending index and hands it
    /// on: a key moves the walk on by one, a failure ends it.
    pub fn advance(&mut self, got: HrResult<PROPERTYKEY>) -> (r: HrResult<PROPERTYKEY>)
        requires
            old(self).spec_current() < old(self).spec_count(),
        ensures
            r == got,
            final(self).spec_count() == old(self).spec_count(),
            final(self).spec_current() == (match got {
                Ok(_) => (old(self).spec_current() + 1) as u32,
                Err(_) => old(self).spec_count(),
            }),
    {
        match got {
            Ok(k) => {
                self.current = self.current + 1;
                Ok(k)
            },
            Err(e) => {
                self.current = self.count;
                Err(e)
            },
        }
    }

    /// The next key of `store`, or `None` once the walk is over. After a
    /// failure, which is handed on, the walk is over.
    pub fn next<S: shell_IPropertyStore>(&mut self, store: &S) -> (r: Option<HrResult<PROPERTYKEY>>)
        ensures
            final(self).spec_count() == old(self).spec_count(),
            old(self).spec_current() == old(self).spec_count() ==> r is None
                && final(self).spec_current() == old(self).spec_current(),
            old(self).spec_current() < old(self).spec_count() ==> (match r {
                Some(Ok(_)) => final(self).spec_current() == old(self).spec_current() + 1,
                Some(Err(_)) => final(self).spec_current() == old(self).spec_count(),
                None => false,
            }),
    {
        proof {
            use_type_invariant(&*self);
        }
        match self.pending_index() {
            None => None,
            Some(i) => Some(self.advance(store.GetAt(i))),
        }
    }
}

} // verus!
