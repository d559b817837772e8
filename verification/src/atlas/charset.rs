//! Ordered character sets.
//!
//! The atlas numbers its glyphs by their place in the ascending order of
//! the characters it holds, so the numbering depends on the set alone and
//! not on the order in which the characters were met.

use vstd::prelude::*;

verus! {

/// Strictly ascending by code point, hence free of duplicates.
pub open spec fn ascending(s: Seq<char>) -> bool {
    forall|i: int, j: int| 0 <= i < j < s.len() ==> (s[i] as int) < (s[j] as int)
}

/// How many entries of `s` lie below `c`.
pub open spec fn rank(s: Seq<char>, c: char) -> int
    decreases s.len(),
{
    if s.len() == 0 {
        0
    } else {
        rank(s.drop_last(), c) + if (s.last() as int) < (c as int) {
            1int
        } else {
            0int
        }
    }
}

/// `s` with `c` put at its place in the order, unless it is there already.
pub open spec fn inserted(s: Seq<char>, c: char) -> Seq<char> {
    if s.contains(c) {
        s
    } else {
        s.insert(rank(s, c), c)
    }
}

/// The ascending sequence that holds exactly the characters of `set`.
/// [`lemma_ascending_unique`] shows that there is at most one.
pub open spec fn ascending_of(set: Set<char>) -> Seq<char> {
    choose|s: Seq<char>| ascending(s) && s.to_set() == set
}

/// In an ascending sequence the rank of a character is the index at which
/// the entries stop being smaller than it.
pub proof fn lemma_rank_is_lower_bound(s: Seq<char>, c: char, k: int)
    requires
        ascending(s),
        0 <= k <= s.len(),
        forall|i: int| 0 <= i < k ==> (s[i] as int) < (c as int),
        forall|i: int| k <= i < s.len() ==> (s[i] as int) >= (c as int),
    ensures
        rank(s, c) == k,
    decreases s.len(),
{
    if s.len() > 0 {
        let t = s.drop_last();
        if k == s.len() {
            lemma_rank_is_lower_bound(t, c, k - 1);
        } else {
            lemma_rank_is_lower_bound(t, c, k);
        }
    }
}

/// The rank of an entry of an ascending sequence is its index.
pub proof fn lemma_rank_of_entry(s: Seq<char>, i: int)
    requires
        ascending(s),
        0 <= i < s.len(),
    ensures
        rank(s, s[i]) == i,
        s.index_of(s[i]) == i,
{
    lemma_rank_is_lower_bound(s, s[i], i);
    let j = s.index_of(s[i]);
    assert(s.contains(s[i]));
    if j < i {
        assert((s[j] as int) < (s[i] as int));
    } else if i < j {
        assert((s[i] as int) < (s[j] as int));
    }
}

/// Two ascending sequences with the same characters are the same sequence.
pub proof fn lemma_ascending_unique(a: Seq<char>, b: Seq<char>)
    requires
        ascending(a),
        ascending(b),
        a.to_set() == b.to_set(),
    ensures
        a == b,
    decreases a.len(),
{
    if a.len() == 0 {
        if b.len() > 0 {
            assert(b.to_set().contains(b[0]));
            assert(a.contains(b[0]));
        }
        assert(a =~= b);
    } else {
        let m = a.last();
        assert(a.to_set().contains(m));
        assert(b.contains(m));
        let j = b.index_of(m);
        if j != b.len() - 1 {
            let x = b.last();
            assert(b.to_set().contains(x));
            assert(a.contains(x));
            let i = a.index_of(x);
            assert((m as int) < (x as int));
            if i != a.len() - 1 {
                assert((a[i] as int) < (a.last() as int));
            }
            assert(false);
        }
        let a0 = a.drop_last();
        let b0 = b.drop_last();
        assert forall|x: char| a0.to_set().contains(x) == b0.to_set().contains(x) by {
            if a0.contains(x) {
                let i = a0.index_of(x);
                assert(a[i] == x);
                assert((x as int) < (m as int));
                assert(a.to_set().contains(x));
                assert(b.contains(x));
                let k = b.index_of(x);
                assert(k != b.len() - 1);
                assert(b0[k] == x);
            }
            if b0.contains(x) {
                let i = b0.index_of(x);
                assert(b[i] == x);
                assert((x as int) < (m as int));
                assert(b.to_set().contains(x));
                assert(a.contains(x));
                let k = a.index_of(x);
                assert(k != a.len() - 1);
                assert(a0[k] == x);
            }
        }
        assert(a0.to_set() =~= b0.to_set());
        lemma_ascending_unique(a0, b0);
        assert(a =~= a0.push(m));
        assert(b =~= b0.push(m));
    }
}

/// An ascending sequence is the ascending sequence of its own characters.
pub proof fn lemma_ascending_of_own_set(s: Seq<char>)
    requires
        ascending(s),
    ensures
        ascending_of(s.to_set()) == s,
{
    let t = ascending_of(s.to_set());
    lemma_ascending_unique(t, s);
}

/// Inserting keeps the order and adds exactly the one character.
pub proof fn lemma_inserted(s: Seq<char>, c: char, k: int)
    requires
        ascending(s),
        0 <= k <= s.len(),
        forall|i: int| 0 <= i < k ==> (s[i] as int) < (c as int),
        forall|i: int| k <= i < s.len() ==> (s[i] as int) >= (c as int),
    ensures
        s.contains(c) <==> (k < s.len() && s[k] == c),
        !s.contains(c) ==> inserted(s, c) == s.insert(k, c),
        ascending(inserted(s, c)),
        inserted(s, c).to_set() == s.to_set().insert(c),
{
    lemma_rank_is_lower_bound(s, c, k);
    if s.contains(c) {
        let i = s.index_of(c);
        if i < k {
            assert((s[i] as int) < (c as int));
        }
        if i > k {
            assert((s[k] as int) < (s[i] as int));
        }
        assert(s.to_set().contains(c));
        assert(s.to_set().insert(c) =~= s.to_set());
    } else {
        if k < s.len() && s[k] == c {
            assert(s.contains(c));
        }
        let t = s.insert(k, c);
        assert forall|i: int, j: int| 0 <= i < j < t.len() implies (t[i] as int) < (t[j] as int) by {
            if i == k {
                assert(t[j] == s[j - 1]);
                assert(s.contains(s[j - 1]));
            } else if j == k {
                assert(t[i] == s[i]);
            } else if i < k && k < j {
                assert(t[i] == s[i] && t[j] == s[j - 1]);
            } else if j < k {
                assert(t[i] == s[i] && t[j] == s[j]);
            } else {
                assert(t[i] == s[i - 1] && t[j] == s[j - 1]);
            }
        }
        assert forall|x: char| t.to_set().contains(x) == s.to_set().insert(c).contains(x) by {
            if t.contains(x) {
                let i = t.index_of(x);
                if i < k {
                    assert(s[i] == x);
                } else if i > k {
                    assert(s[i - 1] == x);
                }
            }
            if s.contains(x) {
                let i = s.index_of(x);
                if i < k {
                    assert(t[i] == x);
                } else {
                    assert(t[i + 1] == x);
                }
            }
            if x == c {
                assert(t[k] == x);
            }
        }
        assert(t.to_set() =~= s.to_set().insert(c));
    }
}

/// In an ascending sequence the entries below an entry are the ones before
/// it.
pub proof fn lemma_below_is_before(s: Seq<char>, i: int, x: char)
    requires
        ascending(s),
        0 <= i < s.len(),
    ensures
        s.take(i).contains(x) <==> (s.contains(x) && (x as int) < (s[i] as int)),
        ascending(s.take(i)),
{
    let t = s.take(i);
    if t.contains(x) {
        let k = t.index_of(x);
        assert(s[k] == x);
    }
    if s.contains(x) && (x as int) < (s[i] as int) {
        let k = s.index_of(x);
        if k >= i {
            if k > i {
                assert((s[i] as int) < (s[k] as int));
            }
        } else {
            assert(t[k] == x);
        }
    }
}

/// Growing an ordered set moves an entry up by the number of new entries
/// below it; so an entry keeps its place when every new entry is above it.
pub proof fn lemma_growth_keeps_place(before: Seq<char>, after: Seq<char>, c: char)
    requires
        ascending(before),
        ascending(after),
        before.to_set().subset_of(after.to_set()),
        before.contains(c),
        forall|x: char| after.contains(x) && !before.contains(x) ==> (c as int) < (x as int),
    ensures
        after.contains(c),
        after.index_of(c) == before.index_of(c),
{
    assert(before.to_set().contains(c));
    assert(after.to_set().contains(c));
    let i = before.index_of(c);
    let j = after.index_of(c);
    let low_before = before.take(i);
    let low_after = after.take(j);
    assert forall|x: char| low_before.to_set().contains(x) == low_after.to_set().contains(x) by {
        lemma_below_is_before(before, i, x);
        lemma_below_is_before(after, j, x);
        if before.contains(x) {
            assert(before.to_set().contains(x));
            assert(after.to_set().contains(x));
        }
    }
    assert(low_before.to_set() =~= low_after.to_set());
    lemma_below_is_before(before, i, c);
    lemma_below_is_before(after, j, c);
    lemma_ascending_unique(low_before, low_after);
}

/// A set of characters kept in ascending order.
pub struct CharSet {
    items: Vec<char>,
}

impl View for CharSet {
    type V = Seq<char>;

    closed spec fn view(&self) -> Seq<char> {
        self.items@
    }
}

impl CharSet {
    /// The characters are in ascending order.
    pub open spec fn wf(&self) -> bool {
        ascending(self@)
    }

    /// The empty set.
    pub fn new() -> (s: CharSet)
        ensures
            s.wf(),
            s@ == Seq::<char>::empty(),
    {
        CharSet { items: Vec::new() }
    }

    /// The number of characters.
    pub fn len(&self) -> (n: usize)
        ensures
            n == self@.len(),
    {
        self.items.len()
    }

    /// Whether the set holds no character.
    pub fn is_empty(&self) -> (b: bool)
        ensures
            b == (self@.len() == 0),
    {
        self.items.len() == 0
    }

    /// The character at place `i` of the order.
    pub fn get(&self, i: usize) -> (c: char)
        requires
            i < self@.len(),
        ensures
            c == self@[i as int],
    {
        self.items[i]
    }

    /// The characters in ascending order.
    pub fn as_slice(&self) -> (s: &[char])
        ensures
            s@ == self@,
    {
        self.items.as_slice()
    }

    /// The first place whose character is not below `c`.
    fn lower_bound(&self, c: char) -> (k: usize)
        requires
            self.wf(),
        ensures
            k <= self@.len(),
            forall|i: int| 0 <= i < k ==> (self@[i] as int) < (c as int),
            forall|i: int| k <= i < self@.len() ==> (self@[i] as int) >= (c as int),
    {
        let mut lo: usize = 0;
        let mut hi: usize = self.items.len();
        while lo < hi
            invariant
                lo <= hi <= self@.len(),
                self.wf(),
                forall|i: int| 0 <= i < lo ==> (self@[i] as int) < (c as int),
                forall|i: int| hi <= i < self@.len() ==> (self@[i] as int) >= (c as int),
            decreases hi - lo,
        {
            let mid: usize = lo + (hi - lo) / 2;
            if self.items[mid] < c {
                lo = mid + 1;
            } else {
                hi = mid;
            }
        }
        lo
    }

    /// The place of `c` in the order, if the set holds it.
    pub fn position(&self, c: char) -> (p: Option<usize>)
        requires
            self.wf(),
        ensures
            p is Some <==> self@.contains(c),
            p matches Some(i) ==> i < self@.len() && self@[i as int] == c && i == self@.index_of(c),
    {
        let k = self.lower_bound(c);
        proof {
            lemma_inserted(self@, c, k as int);
        }
        if k < self.items.len() && self.items[k] == c {
            proof {
                lemma_rank_of_entry(self@, k as int);
            }
            Some(k)
        } else {
            None
        }
    }

    /// Whether the set holds `c`.
    pub fn contains(&self, c: char) -> (b: bool)
        requires
            self.wf(),
        ensures
            b == self@.contains(c),
    {
        self.position(c).is_some()
    }

    /// Adds `c`; returns whether the set grew.
    pub fn insert(&mut self, c: char) -> (grew: bool)
        requires
            old(self).wf(),
        ensures
            final(self).wf(),
            final(self)@ == inserted(old(self)@, c),
            final(self)@.to_set() == old(self)@.to_set().insert(c),
            grew == !old(self)@.contains(c),
    {
        let k = self.lower_bound(c);
        proof {
            lemma_inserted(self@, c, k as int);
        }
        if k < self.items.len() && self.items[k] == c {
            false
        } else {
            self.items.insert(k, c);
            true
        }
    }

    /// The set of the characters of `chars`.
    pub fn from_chars(chars: &[char]) -> (s: CharSet)
        ensures
            s.wf(),
            s@ == ascending_of(chars@.to_set()),
            s@.to_set() == chars@.to_set(),
    {
        let mut s = CharSet::new();
        let mut i: usize = 0;
        while i < chars.len()
            invariant
                i <= chars.len(),
                s.wf(),
                s@.to_set() == chars@.take(i as int).to_set(),
            decreases chars.len() - i,
        {
            s.insert(chars[i]);
            proof {
                let upto = chars@.take(i as int + 1);
                assert(upto =~= chars@.take(i as int).push(chars@[i as int]));
                chars@.take(i as int).lemma_push_to_set_commute(chars@[i as int]);
            }
            i += 1;
        }
        proof {
            assert(chars@.take(chars.len() as int) =~= chars@);
            lemma_ascending_of_own_set(s@);
        }
        s
    }

    /// Adds every character of `other`.
    pub fn extend(&mut self, other: &CharSet)
        requires
            old(self).wf(),
        ensures
            final(self).wf(),
            final(self)@ == ascending_of(old(self)@.to_set().union(other@.to_set())),
            final(self)@.to_set() == old(self)@.to_set().union(other@.to_set()),
    {
        let mut i: usize = 0;
        while i < other.items.len()
            invariant
                i <= other@.len(),
                self.wf(),
                self@.to_set() == old(self)@.to_set().union(other@.take(i as int).to_set()),
            decreases other@.len() - i,
        {
            self.insert(other.items[i]);
            proof {
                let upto = other@.take(i as int + 1);
                assert(upto =~= other@.take(i as int).push(other@[i as int]));
                other@.take(i as int).lemma_push_to_set_commute(other@[i as int]);
                assert(self@.to_set() =~= old(self)@.to_set().union(upto.to_set()));
            }
            i += 1;
        }
        proof {
            assert(other@.take(other@.len() as int) =~= other@);
            lemma_ascending_of_own_set(self@);
        }
    }

    /// Empties the set.
    pub fn clear(&mut self)
        ensures
            final(self).wf(),
            final(self)@ == Seq::<char>::empty(),
    {
        self.items.clear();
    }
}

} // verus!
