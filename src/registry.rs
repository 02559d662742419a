use vstd::prelude::*;

verus! {

/// The registry after recording `t`: unchanged if `t` is already there,
/// otherwise `t` is appended.
pub open spec fn add_token(reg: Seq<Seq<char>>, t: Seq<char>) -> Seq<Seq<char>> {
    if reg.contains(t) {
        reg
    } else {
        reg.push(t)
    }
}

/// The registry after recording every text of `ts`, left to right.
pub open spec fn add_all(reg: Seq<Seq<char>>, ts: Seq<Seq<char>>) -> Seq<Seq<char>>
    decreases ts.len(),
{
    if ts.len() == 0 {
        reg
    } else {
        add_token(add_all(reg, ts.drop_last()), ts.last())
    }
}

/// Recording `a` and then `b` is recording `a + b`.
pub proof fn lemma_add_all_append(reg: Seq<Seq<char>>, a: Seq<Seq<char>>, b: Seq<Seq<char>>)
    ensures
        add_all(reg, a + b) == add_all(add_all(reg, a), b),
    decreases b.len(),
{
    if b.len() == 0 {
        assert(a + b =~= a);
    } else {
        lemma_add_all_append(reg, a, b.drop_last());
        assert((a + b).drop_last() =~= a + b.drop_last());
        assert((a + b).last() == b.last());
    }
}

/// Recording texts into a registry without duplicates keeps it without
/// duplicates, and it then holds exactly what it held and the recorded texts.
pub proof fn lemma_add_all_contents(reg: Seq<Seq<char>>, ts: Seq<Seq<char>>)
    requires
        reg.no_duplicates(),
    ensures
        add_all(reg, ts).no_duplicates(),
        forall|t: Seq<char>| #[trigger]
            add_all(reg, ts).contains(t) <==> (reg.contains(t) || ts.contains(t)),
    decreases ts.len(),
{
    if ts.len() > 0 {
        let prev = add_all(reg, ts.drop_last());
        lemma_add_all_contents(reg, ts.drop_last());
        assert forall|t: Seq<char>| ts.contains(t) <==> (ts.drop_last().contains(t) || t
            == ts.last()) by {
            if ts.contains(t) {
                let k = choose|k: int| 0 <= k < ts.len() && ts[k] == t;
                if k < ts.len() - 1 {
                    assert(ts.drop_last()[k] == t);
                }
            }
            if ts.drop_last().contains(t) {
                let k = choose|k: int| 0 <= k < ts.drop_last().len() && ts.drop_last()[k] == t;
                assert(ts[k] == t);
            }
            if t == ts.last() {
                assert(ts[ts.len() - 1] == t);
            }
        }
        if !prev.contains(ts.last()) {
            let next = prev.push(ts.last());
            assert forall|i: int, j: int|
                0 <= i < next.len() && 0 <= j < next.len() && i != j implies next[i]
                != next[j] by {
                if i == prev.len() as int {
                    assert(prev[j] == next[j]);
                } else if j == prev.len() as int {
                    assert(prev[i] == next[i]);
                }
            }
            assert forall|t: Seq<char>| next.contains(t) <==> (prev.contains(t) || t
                == ts.last()) by {
                if next.contains(t) {
                    let k = choose|k: int| 0 <= k < next.len() && next[k] == t;
                    if k < prev.len() {
                        assert(prev[k] == t);
                    }
                }
                if prev.contains(t) {
                    let k = choose|k: int| 0 <= k < prev.len() && prev[k] == t;
                    assert(next[k] == t);
                }
                if t == ts.last() {
                    assert(next[prev.len() as int] == t);
                }
            }
        }
    }
}

/// The distinct token texts met during one translation, in the order in
/// which each was first met.
pub struct TokenRegistry {
    tokens: Vec<String>,
}

impl View for TokenRegistry {
    type V = Seq<Seq<char>>;

    closed spec fn view(&self) -> Seq<Seq<char>> {
        self.tokens@.map_values(|s: String| s@)
    }
}

impl TokenRegistry {
    pub fn new() -> (r: TokenRegistry)
        ensures
            r@ == Seq::<Seq<char>>::empty(),
    {
        let r = TokenRegistry { tokens: Vec::new() };
        assert(r@ =~= Seq::<Seq<char>>::empty());
        r
    }

    pub fn len(&self) -> (n: usize)
        ensures
            n == self@.len(),
    {
        self.tokens.len()
    }

    pub fn get(&self, i: usize) -> (t: &String)
        requires
            i < self@.len(),
        ensures
            t@ == self@[i as int],
    {
        &self.tokens[i]
    }

    /// Records `t`, keeping the registry free of duplicates.
    pub fn insert(&mut self, t: &String)
        ensures
            final(self)@ == add_token(old(self)@, t@),
    {
        let mut i: usize = 0;
        while i < self.tokens.len()
            invariant
                0 <= i <= self.tokens@.len(),
                forall|k: int| 0 <= k < i ==> self@[k] != t@,
            decreases self.tokens@.len() - i,
        {
            if self.tokens[i] == *t {
                assert(self@[i as int] == t@);
                assert(self@.contains(t@));
                return;
            }
            i = i + 1;
        }
        assert(!self@.contains(t@));
        self.tokens.push(t.clone());
        assert(self@ =~= add_token(old(self)@, t@));
    }
}

} // verus!
