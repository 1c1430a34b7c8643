//! Names as small handles.
//!
//! Identifiers and string literals are kept once each in an [`Interner`]; everything
//! else holds an [`InternedStr`], which is cheap to copy and to compare.

use vstd::prelude::*;
use vstd::string::*;

verus! {

/// A handle for a string that an [`Interner`] holds.
#[derive(Clone, Copy, Debug, PartialEq, Eq, Hash, Structural)]
pub struct InternedStr {
    index: usize,
}

impl InternedStr {
    /// The place of the string in its interner.
    pub closed spec fn index_spec(self) -> usize {
        self.index
    }

    /// The place of the string in its interner.
    #[verifier::when_used_as_spec(index_spec)]
    pub fn index(self) -> (i: usize)
        ensures
            i == self.index_spec(),
    {
        self.index
    }

    /// Whether `names` holds a string for this handle.
    pub open spec fn known(self, names: Seq<Seq<char>>) -> bool {
        self.index() < names.len()
    }

    /// The string that this handle stands for in `names`.
    pub open spec fn text(self, names: Seq<Seq<char>>) -> Seq<char>
        recommends
            self.known(names),
    {
        names[self.index() as int]
    }
}

/// The strings of one translation unit, each held once.
#[derive(Clone, Debug)]
pub struct Interner {
    strings: Vec<String>,
}

impl View for Interner {
    type V = Seq<Seq<char>>;

    /// The strings in the order in which they were first interned.
    closed spec fn view(&self) -> Seq<Seq<char>> {
        Seq::new(self.strings@.len(), |i: int| self.strings@[i]@)
    }
}

/// No string occurs twice.
pub open spec fn distinct(names: Seq<Seq<char>>) -> bool {
    forall|i: int, j: int| 0 <= i < j < names.len() ==> names[i] != names[j]
}

impl Interner {
    /// What every interner holds of its strings: none occurs twice.
    pub open spec fn wf(&self) -> bool {
        distinct(self@)
    }

    /// An interner that holds no string yet.
    pub fn new() -> (r: Interner)
        ensures
            r@ == Seq::<Seq<char>>::empty(),
            r.wf(),
    {
        Interner { strings: Vec::new() }
    }

    /// The number of strings held.
    pub fn len(&self) -> (n: usize)
        ensures
            n == self@.len(),
    {
        self.strings.len()
    }

    /// The handle of a string that is already held.
    pub fn lookup(&self, s: &str) -> (r: Option<InternedStr>)
        ensures
            match r {
                Some(id) => id.known(self@) && id.text(self@) == s@,
                None => !self@.contains(s@),
            },
    {
        let wanted = s.to_owned();
        let mut i: usize = 0;
        while i < self.strings.len()
            invariant
                i <= self.strings.len(),
                wanted@ == s@,
                forall|j: int| 0 <= j < i ==> self@[j] != s@,
            decreases self.strings.len() - i,
        {
            if self.strings[i] == wanted {
                return Some(InternedStr { index: i });
            }
            i += 1;
        }
        None
    }

    /// Gives the handle of a string, holding the string from now on if it was not held before.
    /// Handles given earlier keep their strings.
    pub fn intern(&mut self, s: &str) -> (id: InternedStr)
        requires
            old(self).wf(),
        ensures
            final(self).wf(),
            id.known(final(self)@),
            id.text(final(self)@) == s@,
            final(self)@ == (if old(self)@.contains(s@) {
                old(self)@
            } else {
                old(self)@.push(s@)
            }),
    {
        match self.lookup(s) {
            Some(id) => id,
            None => {
                let id = InternedStr { index: self.strings.len() };
                self.strings.push(s.to_owned());
                assert(self@ == old(self)@.push(s@));
                id
            },
        }
    }

    /// Whether this interner holds a string for the handle.
    pub fn knows(&self, id: InternedStr) -> (r: bool)
        ensures
            r == id.known(self@),
    {
        id.index < self.strings.len()
    }

    /// The string that a handle stands for.
    pub fn resolve(&self, id: InternedStr) -> (r: &str)
        requires
            id.known(self@),
        ensures
            r@ == id.text(self@),
    {
        self.strings[id.index].as_str()
    }

    /// The string that a handle stands for, if this interner holds one for it.
    pub fn get(&self, id: InternedStr) -> (r: Option<&str>)
        ensures
            match r {
                Some(s) => id.known(self@) && s@ == id.text(self@),
                None => !id.known(self@),
            },
    {
        if id.index < self.strings.len() {
            Some(self.strings[id.index].as_str())
        } else {
            None
        }
    }
}

/// Interning is stable: where two handles of one interner stand for the same string,
/// they are the same handle.
pub proof fn lemma_one_handle_per_string(names: Seq<Seq<char>>, a: InternedStr, b: InternedStr)
    requires
        distinct(names),
        a.known(names),
        b.known(names),
        a.text(names) == b.text(names),
    ensures
        a == b,
{
    if a.index() < b.index() {
        assert(names[a.index() as int] != names[b.index() as int]);
    } else if b.index() < a.index() {
        assert(names[b.index() as int] != names[a.index() as int]);
    }
}

} // verus!
