//! Interned strings: each distinct text is stored once and named by its
//! index.

use vstd::prelude::*;

use crate::util::text::{push_char, push_decimal, decimal};

verus! {

/// The name of an interned string.
#[derive(Clone, Copy, PartialEq, Eq, Structural, Hash, Debug)]
pub struct Name(pub usize);

impl Name {
    /// The name as debugged: its index in angle brackets.
    pub open spec fn debug_view(self) -> Seq<char> {
        seq!['<'] + decimal(self.0 as nat) + seq!['>']
    }

    /// Appends the name as debugged.
    pub fn push_debug(&self, s: &mut String)
        ensures
            final(s)@ == old(s)@ + self.debug_view(),
    {
        push_char(s, '<');
        push_decimal(s, self.0 as u128);
        push_char(s, '>');
        assert(s@ =~= old(s)@ + self.debug_view());
    }

    /// Returns the name as debugged: `<index>`.
    pub fn debug_string(&self) -> (r: String)
        ensures
            r@ == self.debug_view(),
    {
        let mut s = String::new();
        self.push_debug(&mut s);
        assert(s@ =~= self.debug_view());
        s
    }
}

/// A table of interned strings.
pub struct Interner {
    strs: Vec<String>,
}

/// The interner of strings.
pub type StringInterner = Interner;

impl View for Interner {
    type V = Seq<Seq<char>>;

    closed spec fn view(&self) -> Seq<Seq<char>> {
        self.strs@.map_values(|s: String| s@)
    }
}

impl Interner {
    /// No text is stored twice.
    pub open spec fn wf(&self) -> bool {
        forall|i: int, j: int| 0 <= i < j < self@.len() ==> self@[i] != self@[j]
    }

    /// The name that `intern` gives `s`: that of the stored copy of `s`, or
    /// the next free index.
    pub open spec fn name_for(&self, s: Seq<char>) -> nat {
        if exists|i: int| 0 <= i < self@.len() && self@[i] == s {
            (choose|i: int| 0 <= i < self@.len() && self@[i] == s) as nat
        } else {
            self@.len()
        }
    }

    /// Returns an empty table.
    pub fn new() -> (r: Interner)
        ensures
            r@ == Seq::<Seq<char>>::empty(),
            r.wf(),
    {
        let r = Interner { strs: Vec::new() };
        assert(r@ =~= Seq::<Seq<char>>::empty());
        r
    }

    /// Returns an empty table with room for `n` strings.
    pub fn with_capacity(n: usize) -> (r: Interner)
        ensures
            r@ == Seq::<Seq<char>>::empty(),
            r.wf(),
    {
        let r = Interner { strs: Vec::with_capacity(n) };
        assert(r@ =~= Seq::<Seq<char>>::empty());
        r
    }

    /// Returns the number of stored strings.
    pub fn len(&self) -> (r: usize)
        ensures
            r == self@.len(),
    {
        self.strs.len()
    }

    /// Returns the text of the string named `n`.
    pub fn get(&self, n: Name) -> (r: &str)
        requires
            (n.0 as int) < self@.len(),
        ensures
            r@ == self@[n.0 as int],
    {
        self.strs[n.0].as_str()
    }

    /// Returns the name of the stored copy of `s`, storing it first if
    /// there is none.
    pub fn intern(&mut self, s: &str) -> (r: Name)
        requires
            old(self).wf(),
        ensures
            final(self).wf(),
            r.0 == old(self).name_for(s@),
            final(self)@ == (if old(self)@.contains(s@) {
                old(self)@
            } else {
                old(self)@.push(s@)
            }),
    {
        let owned: String = s.to_owned();
        let n = self.strs.len();
        let mut i: usize = 0;
        while i < n
            invariant
                n == self.strs@.len(),
                i <= n,
                self.wf(),
                *self == *old(self),
                owned@ == s@,
                forall|j: int| 0 <= j < i ==> self@[j] != s@,
            decreases n - i,
        {
            if self.strs[i] == owned {
                proof {
                    assert(self@[i as int] == s@);
                    assert(self@.contains(s@));
                    let k = choose|k: int| 0 <= k < self@.len() && self@[k] == s@;
                    assert(k == i);
                }
                return Name(i);
            }
            i = i + 1;
        }
        let ghost before = self@;
        self.strs.push(owned);
        proof {
            assert(self@ =~= before.push(s@));
            assert(!before.contains(s@));
        }
        Name(n)
    }

    /// Returns the name of the stored copy of the static text `s`, storing it
    /// first if there is none.
    pub fn intern_ref(&mut self, s: &'static str) -> (r: Name)
        requires
            old(self).wf(),
        ensures
            final(self).wf(),
            r.0 == old(self).name_for(s@),
            final(self)@ == (if old(self)@.contains(s@) {
                old(self)@
            } else {
                old(self)@.push(s@)
            }),
    {
        self.intern(s)
    }
}

/// Interning a text and looking up its name gives the text back; the names
/// already given keep their texts.
pub proof fn law_intern_get(before: Interner, after: Interner, s: Seq<char>)
    requires
        before.wf(),
        after@ == (if before@.contains(s) {
            before@
        } else {
            before@.push(s)
        }),
    ensures
        before.name_for(s) < after@.len(),
        after@[before.name_for(s) as int] == s,
        forall|i: int| 0 <= i < before@.len() ==> after@[i] == before@[i],
{
    if before@.contains(s) {
        let k = choose|k: int| 0 <= k < before@.len() && before@[k] == s;
        assert(0 <= k < before@.len() && before@[k] == s);
    }
}

/// Interning two different texts, one after the other, gives them
/// different names.
pub proof fn law_intern_distinct(before: Interner, mid: Interner, after: Interner, s1: Seq<char>, s2: Seq<char>)
    requires
        before.wf(),
        mid.wf(),
        mid@ == (if before@.contains(s1) {
            before@
        } else {
            before@.push(s1)
        }),
        after@ == (if mid@.contains(s2) {
            mid@
        } else {
            mid@.push(s2)
        }),
        s1 != s2,
    ensures
        before.name_for(s1) != mid.name_for(s2),
{
    law_intern_get(before, mid, s1);
    law_intern_get(mid, after, s2);
}

/// Interning the same text twice gives the same name.
pub proof fn law_intern_idempotent(before: Interner, after: Interner, s: Seq<char>)
    requires
        before.wf(),
        after.wf(),
        after@ == (if before@.contains(s) {
            before@
        } else {
            before@.push(s)
        }),
    ensures
        after.name_for(s) == before.name_for(s),
        after@.contains(s),
{
    law_intern_get(before, after, s);
    let n = before.name_for(s) as int;
    assert(after@[n] == s);
    let k = choose|k: int| 0 <= k < after@.len() && after@[k] == s;
    assert(0 <= k < after@.len() && after@[k] == s);
    if k != n {
        if k < n {
            assert(after@[k] != after@[n]);
        } else {
            assert(after@[n] != after@[k]);
        }
    }
}

} // verus!
