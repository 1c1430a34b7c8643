//! Lexical scopes: which names are visible where.
//!
//! A [`Scope`] is a stack of mappings from names to whatever is declared under them. The
//! analyzer keeps one for ordinary identifiers and one for tags, which live in a namespace
//! of their own. Entering a block pushes a mapping, leaving it pops the mapping again, so
//! what a block declares is gone when the block closes.

use crate::intern::InternedStr;
use std::collections::HashMap;
use vstd::prelude::*;

verus! {

broadcast use vstd::std_specs::hash::group_hash_axioms;

/// What is declared under `name` as seen from the innermost of `levels`: the declaration
/// in the innermost level that has one.
pub open spec fn visible<V>(levels: Seq<Map<usize, V>>, name: usize) -> Option<V>
    decreases levels.len(),
{
    if levels.len() == 0 {
        None
    } else if levels.last().contains_key(name) {
        Some(levels.last()[name])
    } else {
        visible(levels.drop_last(), name)
    }
}

/// What is declared under `name` in the innermost of `levels`.
pub open spec fn declared_here<V>(levels: Seq<Map<usize, V>>, name: usize) -> Option<V> {
    if levels.len() > 0 && levels.last().contains_key(name) {
        Some(levels.last()[name])
    } else {
        None
    }
}

/// The levels after `value` is declared under `name` in the innermost of them.
pub open spec fn declared<V>(levels: Seq<Map<usize, V>>, name: usize, value: V) -> Seq<
    Map<usize, V>,
>
    recommends
        levels.len() > 0,
{
    levels.drop_last().push(levels.last().insert(name, value))
}

/// A stack of scopes, the global scope first.
pub struct Scope<V> {
    levels: Vec<HashMap<usize, V>>,
}

impl<V> Scope<V> {
    /// The declarations of each level, the global scope first, each name by the place of
    /// its handle in the interner.
    pub closed spec fn levels(&self) -> Seq<Map<usize, V>> {
        Seq::new(self.levels@.len(), |i: int| self.levels@[i]@)
    }

    /// What holds of every scope: there is a global scope.
    pub open spec fn wf(&self) -> bool {
        self.levels().len() > 0
    }

    /// The global scope, with nothing declared.
    pub fn new() -> (r: Scope<V>)
        ensures
            r.wf(),
            r.levels() == seq![Map::<usize, V>::empty()],
    {
        let mut levels: Vec<HashMap<usize, V>> = Vec::new();
        levels.push(HashMap::new());
        let r = Scope { levels };
        assert(r.levels() == seq![Map::<usize, V>::empty()]);
        r
    }

    /// How many scopes are open, the global scope counted.
    pub fn depth(&self) -> (n: usize)
        ensures
            n == self.levels().len(),
    {
        self.levels.len()
    }

    /// Whether only the global scope is open.
    pub fn is_global(&self) -> (r: bool)
        ensures
            r == (self.levels().len() == 1),
    {
        self.levels.len() == 1
    }

    /// Opens a scope inside the current one, with nothing declared in it.
    pub fn enter(&mut self)
        ensures
            final(self).wf(),
            final(self).levels() == old(self).levels().push(Map::<usize, V>::empty()),
    {
        self.levels.push(HashMap::new());
        assert(self.levels() == old(self).levels().push(Map::<usize, V>::empty()));
    }

    /// Closes the current scope and forgets what was declared in it. The global scope
    /// stays open: with no other scope open, nothing changes and the answer is `false`.
    pub fn exit(&mut self) -> (closed: bool)
        ensures
            old(self).wf() ==> final(self).wf(),
            closed == (old(self).levels().len() > 1),
            final(self).levels() == (if closed {
                old(self).levels().drop_last()
            } else {
                old(self).levels()
            }),
    {
        if self.levels.len() > 1 {
            self.levels.pop();
            assert(self.levels() == old(self).levels().drop_last());
            true
        } else {
            assert(self.levels() == old(self).levels());
            false
        }
    }

    /// Declares `value` under `name` in the current scope, and gives what the current
    /// scope held under that name before.
    pub fn insert(&mut self, name: InternedStr, value: V) -> (previous: Option<V>)
        requires
            old(self).wf(),
        ensures
            final(self).wf(),
            final(self).levels() == declared(old(self).levels(), name.index(), value),
            previous == declared_here(old(self).levels(), name.index()),
    {
        let mut top = self.levels.pop().unwrap();
        let previous = top.insert(name.index(), value);
        self.levels.push(top);
        assert(self.levels() == declared(old(self).levels(), name.index(), value));
        previous
    }

    /// What is declared under `name` in the current scope itself.
    pub fn get_immediate(&self, name: InternedStr) -> (r: Option<&V>)
        ensures
            match r {
                Some(value) => declared_here(self.levels(), name.index()) == Some(*value),
                None => declared_here(self.levels(), name.index()) is None,
            },
    {
        if self.levels.len() == 0 {
            return None;
        }
        let key = name.index();
        self.levels[self.levels.len() - 1].get(&key)
    }

    /// What is declared under `name` as seen from the current scope.
    pub fn get(&self, name: InternedStr) -> (r: Option<&V>)
        ensures
            match r {
                Some(value) => visible(self.levels(), name.index()) == Some(*value),
                None => visible(self.levels(), name.index()) is None,
            },
    {
        let key = name.index();
        let mut i: usize = self.levels.len();
        assert(self.levels().take(i as int) == self.levels());
        while i > 0
            invariant
                i <= self.levels.len(),
                key == name.index(),
                visible(self.levels(), key) == visible(self.levels().take(i as int), key),
            decreases i,
        {
            assert(self.levels().take(i as int).drop_last() == self.levels().take(i as int - 1));
            match self.levels[i - 1].get(&key) {
                Some(value) => {
                    return Some(value);
                },
                None => {},
            }
            i -= 1;
        }
        None
    }
}

/// Scope isolation: a name declared inside a block is not visible after the block closes.
/// Whatever `block` declares in a scope opened inside `outer`, once that scope is closed
/// the scopes are those of `outer` again, and every name is declared as it was in `outer`.
pub proof fn lemma_scope_isolation<V>(outer: Seq<Map<usize, V>>, block: Map<usize, V>, name: usize)
    ensures
        outer.push(block).drop_last() == outer,
        visible(outer.push(block).drop_last(), name) == visible(outer, name),
{
    assert(outer.push(block).drop_last() == outer);
}

/// A declaration stays in its scope: it changes nothing in the scopes around the current one.
pub proof fn lemma_declaration_is_local<V>(levels: Seq<Map<usize, V>>, name: usize, value: V)
    requires
        levels.len() > 0,
    ensures
        declared(levels, name, value).len() == levels.len(),
        declared(levels, name, value).drop_last() == levels.drop_last(),
        visible(declared(levels, name, value), name) == Some(value),
{
    assert(declared(levels, name, value).drop_last() == levels.drop_last());
}

/// A name that no open scope declares is not visible.
pub proof fn lemma_undeclared_is_invisible<V>(levels: Seq<Map<usize, V>>, name: usize)
    requires
        forall|i: int| 0 <= i < levels.len() ==> !(#[trigger] levels[i]).contains_key(name),
    ensures
        visible(levels, name) is None,
    decreases levels.len(),
{
    if levels.len() > 0 {
        lemma_undeclared_is_invisible(levels.drop_last(), name);
    }
}

} // verus!
