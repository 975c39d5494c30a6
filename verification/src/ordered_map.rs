//! An insertion-ordered map from string keys to values.

use vstd::prelude::*;

verus! {

/// The entries of a map as a sequence, each key as its characters.
pub type Entries<V> = Seq<(Seq<char>, V)>;

/// The keys of a sequence of entries are pairwise different.
pub open spec fn distinct_keys<V>(s: Seq<(Seq<char>, V)>) -> bool {
    forall|i: int, j: int| 0 <= i < j < s.len() ==> s[i].0 != s[j].0
}

/// The keys of a sequence of entries, in order.
pub open spec fn keys<V>(s: Seq<(Seq<char>, V)>) -> Seq<Seq<char>> {
    Seq::new(s.len(), |i: int| s[i].0)
}

/// Whether some entry of `s` has the key `key`.
pub open spec fn has_key<V>(s: Seq<(Seq<char>, V)>, key: Seq<char>) -> bool {
    exists|i: int| 0 <= i < s.len() && s[i].0 == key
}

/// The entries of `s` with each value replaced by its image under `f`.
pub open spec fn map_entries<A, B>(s: Seq<(Seq<char>, A)>, f: spec_fn(A) -> B) -> Seq<
    (Seq<char>, B),
> {
    Seq::new(s.len(), |i: int| (s[i].0, f(s[i].1)))
}

/// `f` succeeds on every value of `s`.
pub open spec fn all_succeed<A, B, E>(s: Seq<(Seq<char>, A)>, f: spec_fn(A) -> Result<B, E>) -> bool {
    forall|i: int| 0 <= i < s.len() ==> f(#[trigger] s[i].1) is Ok
}

/// `at` is the position of the first value of `s` on which `f` fails.
pub open spec fn is_first_failure<A, B, E>(
    s: Seq<(Seq<char>, A)>,
    f: spec_fn(A) -> Result<B, E>,
    at: int,
) -> bool {
    &&& 0 <= at < s.len()
    &&& f(s[at].1) is Err
    &&& forall|j: int| 0 <= j < at ==> f(#[trigger] s[j].1) is Ok
}

/// The entries of `s` with each value replaced by its image under `f`, where
/// `f` succeeds on every value; else the failure of `f` on the first value on
/// which it fails.
pub open spec fn try_map_entries<A, B, E>(
    s: Seq<(Seq<char>, A)>,
    f: spec_fn(A) -> Result<B, E>,
) -> Result<Seq<(Seq<char>, B)>, E> {
    if all_succeed(s, f) {
        Ok(Seq::new(s.len(), |i: int| (s[i].0, f(s[i].1)->Ok_0)))
    } else {
        let at = choose|at: int| is_first_failure(s, f, at);
        Err(f(s[at].1)->Err_0)
    }
}

/// Where `f` fails on some value of `s`, there is a first such value.
pub proof fn lemma_first_failure_exists<A, B, E>(
    s: Seq<(Seq<char>, A)>,
    f: spec_fn(A) -> Result<B, E>,
)
    requires
        !all_succeed(s, f),
    ensures
        exists|at: int| is_first_failure(s, f, at),
    decreases s.len(),
{
    let bad = choose|i: int| 0 <= i < s.len() && !(f(#[trigger] s[i].1) is Ok);
    let head = s.take(bad);
    if all_succeed(head, f) {
        assert forall|j: int| 0 <= j < bad implies f(#[trigger] s[j].1) is Ok by {
            assert(head[j].1 == s[j].1);
        }
        assert(is_first_failure(s, f, bad));
    } else {
        lemma_first_failure_exists(head, f);
        let at = choose|at: int| is_first_failure(head, f, at);
        assert(head[at].1 == s[at].1);
        assert forall|j: int| 0 <= j < at implies f(#[trigger] s[j].1) is Ok by {
            assert(head[j].1 == s[j].1);
        }
        assert(is_first_failure(s, f, at));
    }
}

/// `t` is what `try_map_entries` yields where `f` succeeds throughout.
pub proof fn lemma_try_map_success<A, B, E>(
    s: Seq<(Seq<char>, A)>,
    f: spec_fn(A) -> Result<B, E>,
    t: Seq<(Seq<char>, B)>,
)
    requires
        t.len() == s.len(),
        forall|i: int|
            0 <= i < s.len() ==> (#[trigger] t[i]).0 == s[i].0 && f(s[i].1) == Ok::<B, E>(
                t[i].1,
            ),
    ensures
        try_map_entries(s, f) == Ok::<Seq<(Seq<char>, B)>, E>(t),
{
    assert forall|i: int| 0 <= i < s.len() implies f(#[trigger] s[i].1) is Ok by {
        assert(t[i].0 == s[i].0);
    }
    let image = Seq::new(s.len(), |i: int| (s[i].0, f(s[i].1)->Ok_0));
    assert forall|i: int| 0 <= i < s.len() implies image[i] == t[i] by {
        assert(t[i].0 == s[i].0);
    }
    assert(image =~= t);
}

/// `e` is what `try_map_entries` yields where `f` first fails at `at`, with
/// `e`.
pub proof fn lemma_try_map_failure<A, B, E>(
    s: Seq<(Seq<char>, A)>,
    f: spec_fn(A) -> Result<B, E>,
    at: int,
    e: E,
)
    requires
        is_first_failure(s, f, at),
        f(s[at].1) == Err::<B, E>(e),
    ensures
        try_map_entries(s, f) == Err::<Seq<(Seq<char>, B)>, E>(e),
{
    assert(!all_succeed(s, f));
    let chosen = choose|c: int| is_first_failure(s, f, c);
    assert(is_first_failure(s, f, chosen));
    if chosen < at {
        assert(f(s[chosen].1) is Ok);
    } else if at < chosen {
        assert(f(s[at].1) is Ok);
    }
}

/// A successful `try_map_entries` keeps the keys and their order, and its
/// values are the successes of `f`.
pub proof fn lemma_try_map_keeps_keys<A, B, E>(
    s: Seq<(Seq<char>, A)>,
    f: spec_fn(A) -> Result<B, E>,
)
    requires
        try_map_entries(s, f) is Ok,
    ensures
        all_succeed(s, f),
        keys(try_map_entries(s, f)->Ok_0) == keys(s),
        try_map_entries(s, f)->Ok_0.len() == s.len(),
{
    if !all_succeed(s, f) {
        lemma_first_failure_exists(s, f);
    }
    assert(keys(try_map_entries(s, f)->Ok_0) =~= keys(s));
}

/// `try_map_entries` succeeds exactly where `f` succeeds on every value, and
/// a failure of `try_map_entries` is the failure of `f` on the first value on
/// which it fails.
pub proof fn lemma_try_map_outcome<A, B, E>(s: Seq<(Seq<char>, A)>, f: spec_fn(A) -> Result<B, E>)
    ensures
        try_map_entries(s, f) is Ok <==> all_succeed(s, f),
        try_map_entries(s, f) matches Err(e) ==> exists|at: int|
            #[trigger] is_first_failure(s, f, at) && f(s[at].1) == Err::<B, E>(e),
{
    if !all_succeed(s, f) {
        lemma_first_failure_exists(s, f);
        let at = choose|at: int| is_first_failure(s, f, at);
        assert(is_first_failure(s, f, at));
    }
}

/// `map_entries` keeps the keys and their order.
pub proof fn lemma_map_keeps_keys<A, B>(s: Seq<(Seq<char>, A)>, f: spec_fn(A) -> B)
    ensures
        keys(map_entries(s, f)) == keys(s),
        map_entries(s, f).len() == s.len(),
{
    assert(keys(map_entries(s, f)) =~= keys(s));
}

/// `f` can return a success on `a`.
pub open spec fn may_succeed<A, B, E, F: Fn(A) -> Result<B, E>>(f: F, a: A) -> bool {
    exists|b: B| f.ensures((a,), Ok(b))
}

/// Walking `s` in order, `f` can succeed on every value before position `at`
/// and fail with `e` on the value at `at`.
pub open spec fn first_failure<A, B, E, F: Fn(A) -> Result<B, E>>(
    s: Seq<(Seq<char>, A)>,
    f: F,
    at: int,
    e: E,
) -> bool {
    &&& 0 <= at < s.len()
    &&& f.ensures((s[at].1,), Err(e))
    &&& forall|j: int| 0 <= j < at ==> may_succeed(f, #[trigger] s[j].1)
}

/// `t` has the keys of `s`, and each value of `t` is a result that `f` can
/// return on the value of `s` at the same position.
pub open spec fn mapped_by<A, B, F: Fn(A) -> B>(
    s: Seq<(Seq<char>, A)>,
    f: F,
    t: Seq<(Seq<char>, B)>,
) -> bool {
    &&& t.len() == s.len()
    &&& forall|i: int|
        0 <= i < s.len() ==> (#[trigger] t[i]).0 == s[i].0 && f.ensures((s[i].1,), t[i].1)
}

/// `r` is a possible outcome of applying `f` to the values of `s` in order
/// until it fails: the successes under the keys of `s`, or the first failure.
pub open spec fn try_mapped_by<A, B, E, F: Fn(A) -> Result<B, E>>(
    s: Seq<(Seq<char>, A)>,
    f: F,
    r: Result<Seq<(Seq<char>, B)>, E>,
) -> bool {
    match r {
        Ok(t) => t.len() == s.len() && forall|i: int|
            0 <= i < s.len() ==> (#[trigger] t[i]).0 == s[i].0 && f.ensures((s[i].1,), Ok(t[i].1)),
        Err(e) => exists|at: int| first_failure(s, f, at, e),
    }
}

/// Where every result of `f` is the one that `g` gives, an outcome of mapping
/// by `f` is `map_entries` by `g`.
pub proof fn lemma_mapped_by_agrees<A, B, F: Fn(A) -> B>(
    s: Seq<(Seq<char>, A)>,
    f: F,
    g: spec_fn(A) -> B,
    t: Seq<(Seq<char>, B)>,
)
    requires
        mapped_by(s, f, t),
        forall|a: A, b: B| #[trigger] f.ensures((a,), b) ==> b == g(a),
    ensures
        t == map_entries(s, g),
{
    assert forall|i: int| 0 <= i < s.len() implies t[i] == map_entries(s, g)[i] by {
        assert(t[i].0 == s[i].0);
    }
    assert(t =~= map_entries(s, g));
}

/// Where every result of `f` is the one that `g` gives, an outcome of mapping
/// by `f` until it fails is `try_map_entries` by `g`.
pub proof fn lemma_try_mapped_by_agrees<A, B, E, F: Fn(A) -> Result<B, E>>(
    s: Seq<(Seq<char>, A)>,
    f: F,
    g: spec_fn(A) -> Result<B, E>,
    r: Result<Seq<(Seq<char>, B)>, E>,
)
    requires
        try_mapped_by(s, f, r),
        forall|a: A, b: Result<B, E>| #[trigger] f.ensures((a,), b) ==> b == g(a),
    ensures
        r == try_map_entries(s, g),
{
    match r {
        Ok(t) => {
            assert forall|i: int| 0 <= i < s.len() implies (#[trigger] t[i]).0 == s[i].0 && g(
                s[i].1,
            ) == Ok::<B, E>(t[i].1) by {
                assert(t[i].0 == s[i].0);
                assert(f.ensures((s[i].1,), Ok(t[i].1)));
            }
            lemma_try_map_success(s, g, t);
        },
        Err(e) => {
            let at = choose|at: int| first_failure(s, f, at, e);
            assert(first_failure(s, f, at, e));
            assert(g(s[at].1) == Err::<B, E>(e));
            assert forall|j: int| 0 <= j < at implies g(#[trigger] s[j].1) is Ok by {
                assert(may_succeed(f, s[j].1));
                let b = choose|b: B| f.ensures((s[j].1,), Ok(b));
                assert(f.ensures((s[j].1,), Ok(b)));
            }
            assert(is_first_failure(s, g, at));
            lemma_try_map_failure(s, g, at, e);
        },
    }
}

/// The same where the values are compared through views: `va` of what `f`
/// takes and `vb` of what it yields. Where every result of `f` is, seen
/// through `vb`, the one that `g` gives on `va` of the argument, an outcome of
/// mapping by `f` until it fails is, seen through `vb`, `try_map_entries` by
/// `g` of the entries seen through `va`.
pub proof fn lemma_try_mapped_by_agrees_on_views<A, B, E, F: Fn(A) -> Result<B, E>, VA, VB>(
    s: Seq<(Seq<char>, A)>,
    f: F,
    r: Result<Seq<(Seq<char>, B)>, E>,
    va: spec_fn(A) -> VA,
    vb: spec_fn(B) -> VB,
    g: spec_fn(VA) -> Result<VB, E>,
)
    requires
        try_mapped_by(s, f, r),
        forall|a: A, b: Result<B, E>| #[trigger]
            f.ensures((a,), b) ==> g(va(a)) == (match b {
                Ok(x) => Ok::<VB, E>(vb(x)),
                Err(e) => Err::<VB, E>(e),
            }),
    ensures
        try_map_entries(map_entries(s, va), g) == (match r {
            Ok(t) => Ok::<Seq<(Seq<char>, VB)>, E>(map_entries(t, vb)),
            Err(e) => Err::<Seq<(Seq<char>, VB)>, E>(e),
        }),
{
    let sv = map_entries(s, va);
    match r {
        Ok(t) => {
            let tv = map_entries(t, vb);
            assert forall|i: int| 0 <= i < sv.len() implies (#[trigger] tv[i]).0 == sv[i].0 && g(
                sv[i].1,
            ) == Ok::<VB, E>(tv[i].1) by {
                assert(t[i].0 == s[i].0);
                assert(f.ensures((s[i].1,), Ok(t[i].1)));
            }
            lemma_try_map_success(sv, g, tv);
        },
        Err(e) => {
            let at = choose|at: int| first_failure(s, f, at, e);
            assert(first_failure(s, f, at, e));
            assert(g(sv[at].1) == Err::<VB, E>(e));
            assert forall|j: int| 0 <= j < at implies g(#[trigger] sv[j].1) is Ok by {
                assert(may_succeed(f, s[j].1));
                let b = choose|b: B| f.ensures((s[j].1,), Ok(b));
                assert(f.ensures((s[j].1,), Ok(b)));
            }
            assert(is_first_failure(sv, g, at));
            lemma_try_map_failure(sv, g, at, e);
        },
    }
}

/// A map from string keys to values that keeps its entries in the order in
/// which their keys were first inserted. No key occurs twice.
#[derive(Debug, PartialEq)]
pub struct OrderedMap<V> {
    entries: Vec<(String, V)>,
}

impl<V> View for OrderedMap<V> {
    type V = Seq<(Seq<char>, V)>;

    /// The entries in order, each key as its characters.
    closed spec fn view(&self) -> Seq<(Seq<char>, V)> {
        Seq::new(self.entries@.len(), |i: int| (self.entries@[i].0@, self.entries@[i].1))
    }
}

/// The outcome of an operation that yields a map or fails, with the map
/// given by its entries.
pub open spec fn outcome_view<V, E>(r: Result<OrderedMap<V>, E>) -> Result<
    Seq<(Seq<char>, V)>,
    E,
> {
    match r {
        Ok(m) => Ok(m@),
        Err(e) => Err(e),
    }
}

impl<V> OrderedMap<V> {
    #[verifier::type_invariant]
    spec fn unique_keys(&self) -> bool {
        forall|i: int, j: int|
            0 <= i < j < self.entries@.len() ==> self.entries@[i].0@ != self.entries@[j].0@
    }

    /// The empty map.
    pub fn new() -> (out: Self)
        ensures
            out@ == Seq::<(Seq<char>, V)>::empty(),
    {
        OrderedMap { entries: Vec::new() }
    }

    /// The number of entries. No two of them have the same key.
    pub fn len(&self) -> (n: usize)
        ensures
            n == self@.len(),
            distinct_keys(self@),
    {
        proof {
            use_type_invariant(self);
        }
        self.entries.len()
    }

    /// Whether the map has no entry.
    pub fn is_empty(&self) -> (b: bool)
        ensures
            b <==> self@.len() == 0,
    {
        self.entries.len() == 0
    }

    /// The entry at position `index`, if there is one.
    pub fn get_index(&self, index: usize) -> (out: Option<(&String, &V)>)
        ensures
            match out {
                Some((k, v)) => index < self@.len() && self@[index as int] == (k@, *v),
                None => index >= self@.len(),
            },
    {
        if index < self.entries.len() {
            let e = &self.entries[index];
            Some((&e.0, &e.1))
        } else {
            None
        }
    }

    /// The value under `key`, if the map has that key. There is at most one
    /// entry with that key.
    pub fn get(&self, key: &str) -> (out: Option<&V>)
        ensures
            match out {
                Some(v) => exists|i: int| 0 <= i < self@.len() && self@[i] == (key@, *v),
                None => !has_key(self@, key@),
            },
            distinct_keys(self@),
    {
        proof {
            use_type_invariant(self);
        }
        let wanted = key.to_owned();
        let n = self.entries.len();
        let mut i: usize = 0;
        while i < n
            invariant
                n == self.entries@.len(),
                i <= n,
                wanted@ == key@,
                distinct_keys(self@),
                forall|j: int| 0 <= j < i ==> (#[trigger] self@[j]).0 != key@,
            decreases n - i,
        {
            if self.entries[i].0 == wanted {
                assert(self@[i as int] == (key@, self.entries@[i as int].1));
                return Some(&self.entries[i].1);
            }
            i = i + 1;
        }
        None
    }

    /// Puts `value` under `key`. A key that the map already has keeps its
    /// position and gets the new value, and the value it had is returned; a
    /// new key goes to the end.
    pub fn insert(&mut self, key: String, value: V) -> (previous: Option<V>)
        ensures
            has_key(old(self)@, key@) ==> exists|i: int|
                0 <= i < old(self)@.len() && (#[trigger] old(self)@[i]).0 == key@ && previous == Some(
                    old(self)@[i].1,
                ) && final(self)@ == old(self)@.update(i, (key@, value)),
            !has_key(old(self)@, key@) ==> previous is None && final(self)@ == old(self)@.push(
                (key@, value),
            ),
            distinct_keys(final(self)@),
    {
        proof {
            use_type_invariant(&*self);
        }
        let ghost before = self@;
        let mut entries: Vec<(String, V)> = Vec::new();
        std::mem::swap(&mut self.entries, &mut entries);
        let ghost raw = entries@;
        assert(before.len() == raw.len());
        assert forall|j: int| 0 <= j < raw.len() implies (#[trigger] before[j]) == (
            raw[j].0@,
            raw[j].1,
        ) by {}
        let n = entries.len();
        let mut i: usize = 0;
        let mut found: Option<usize> = None;
        while i < n
            invariant_except_break
                found is None,
                forall|j: int| 0 <= j < i ==> (#[trigger] raw[j]).0@ != key@,
            invariant
                n == raw.len(),
                entries@ == raw,
                i <= n,
            ensures
                match found {
                    Some(at) => at < n && raw[at as int].0@ == key@,
                    None => forall|j: int| 0 <= j < n ==> (#[trigger] raw[j]).0@ != key@,
                },
            decreases n - i,
        {
            if entries[i].0 == key {
                found = Some(i);
                break ;
            }
            i = i + 1;
        }
        match found {
            Some(at) => {
                entries.push((key, value));
                let replaced = entries.swap_remove(at);
                assert(entries@ == raw.update(at as int, (key, value)));
                self.entries = entries;
                assert(before[at as int].0 == key@);
                assert(self@ == before.update(at as int, (key@, value)));
                Some(replaced.1)
            },
            None => {
                entries.push((key, value));
                self.entries = entries;
                assert(self@ == before.push((key@, value)));
                assert(!has_key(before, key@)) by {
                    if has_key(before, key@) {
                        let j = choose|j: int| 0 <= j < before.len() && before[j].0 == key@;
                        assert(raw[j].0@ == key@);
                    }
                }
                None
            },
        }
    }

    /// The entries in order, as pairs of key and value.
    pub fn into_entries(self) -> (out: Vec<(String, V)>)
        ensures
            out@.len() == self@.len(),
            forall|i: int| 0 <= i < self@.len() ==> self@[i] == ((#[trigger] out@[i]).0@, out@[i].1),
    {
        self.entries
    }

    /// Applies `f` to every value, in order; the keys stay.
    pub fn map_values<B, F: Fn(V) -> B>(self, f: F) -> (out: OrderedMap<B>)
        requires
            forall|i: int| 0 <= i < self@.len() ==> f.requires((#[trigger] self@[i].1,)),
        ensures
            mapped_by(self@, f, out@),
    {
        proof {
            use_type_invariant(&self);
        }
        let ghost src = self.entries@;
        assert forall|i: int| 0 <= i < src.len() implies f.requires((#[trigger] src[i].1,)) by {
            assert(self@[i].1 == src[i].1);
        }
        let mut done: Vec<(String, B)> = Vec::new();
        for e in it: self.entries.into_iter()
            invariant
                it.seq() == src,
                done@.len() == it.index(),
                forall|i: int| 0 <= i < src.len() ==> f.requires((#[trigger] src[i].1,)),
                forall|i: int|
                    0 <= i < done@.len() ==> (#[trigger] done@[i]).0@ == src[i].0@ && f.ensures(
                        (src[i].1,),
                        done@[i].1,
                    ),
        {
            let (k, v) = e;
            let b = f(v);
            done.push((k, b));
        }
        OrderedMap { entries: done }
    }

    /// Applies `f` to the values in order and stops at the first failure,
    /// which becomes the result; where every value succeeds, the result is
    /// the map of the successes under the same keys.
    pub fn try_map_values<B, E, F: Fn(V) -> Result<B, E>>(self, f: F) -> (out: Result<
        OrderedMap<B>,
        E,
    >)
        requires
            forall|i: int| 0 <= i < self@.len() ==> f.requires((#[trigger] self@[i].1,)),
        ensures
            try_mapped_by(self@, f, outcome_view(out)),
    {
        proof {
            use_type_invariant(&self);
        }
        let ghost view = self@;
        let ghost src = self.entries@;
        assert forall|i: int| 0 <= i < src.len() implies f.requires((#[trigger] src[i].1,)) by {
            assert(view[i].1 == src[i].1);
        }
        let mut done: Vec<(String, B)> = Vec::new();
        for e in it: self.entries.into_iter()
            invariant
                it.seq() == src,
                done@.len() == it.index(),
                view == self@,
                view.len() == src.len(),
                forall|i: int| 0 <= i < src.len() ==> (#[trigger] view[i]).1 == src[i].1,
                forall|i: int| 0 <= i < src.len() ==> f.requires((#[trigger] src[i].1,)),
                forall|i: int|
                    0 <= i < done@.len() ==> (#[trigger] done@[i]).0@ == src[i].0@ && f.ensures(
                        (src[i].1,),
                        Ok(done@[i].1),
                    ),
        {
            let ghost at = done@.len() as int;
            let (k, v) = e;
            match f(v) {
                Ok(b) => {
                    done.push((k, b));
                },
                Err(failure) => {
                    proof {
                        assert forall|j: int| 0 <= j < at implies may_succeed(
                            f,
                            #[trigger] view[j].1,
                        ) by {
                            assert(f.ensures((src[j].1,), Ok(done@[j].1)));
                        }
                        assert(first_failure(view, f, at, failure));
                    }
                    let out = Err(failure);
                    proof {
                        let r = Err::<Seq<(Seq<char>, B)>, E>(out->Err_0);
                        assert(first_failure(view, f, at, r->Err_0));
                    }
                    return out;
                },
            }
        }
        Ok(OrderedMap { entries: done })
    }
}

impl<V> Default for OrderedMap<V> {
    /// The empty map.
    fn default() -> (out: Self)
        ensures
            out@ == Seq::<(Seq<char>, V)>::empty(),
    {
        OrderedMap::new()
    }
}

impl<V: Clone> Clone for OrderedMap<V> {
    /// A map with the same keys in the same order, each value a clone.
    fn clone(&self) -> (out: Self)
        ensures
            out@.len() == self@.len(),
            forall|i: int|
                0 <= i < self@.len() ==> (#[trigger] out@[i]).0 == self@[i].0 && cloned(
                    self@[i].1,
                    out@[i].1,
                ),
    {
        proof {
            use_type_invariant(self);
        }
        let n = self.entries.len();
        let mut copy: Vec<(String, V)> = Vec::new();
        let mut i: usize = 0;
        while i < n
            invariant
                n == self.entries@.len(),
                i <= n,
                copy@.len() == i,
                forall|j: int|
                    0 <= j < i ==> (#[trigger] copy@[j]).0@ == self.entries@[j].0@ && cloned(
                        self.entries@[j].1,
                        copy@[j].1,
                    ),
            decreases n - i,
        {
            let k = self.entries[i].0.clone();
            let v = self.entries[i].1.clone();
            copy.push((k, v));
            i = i + 1;
        }
        OrderedMap { entries: copy }
    }
}

} // verus!
