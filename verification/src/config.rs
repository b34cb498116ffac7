//! The project manifest: the persisted list of declared dependencies,
//! keyed by `(name, version)`, with idempotent upserts.
use vstd::prelude::*;

verus! {

/// A declared dependency: its identity key `(name, version)` and the
/// URL its artifact was (or will be) fetched from.
pub struct Dependency {
    pub name: String,
    pub version: String,
    pub url: String,
}

impl Clone for Dependency {
    fn clone(&self) -> (d: Self)
        ensures
            d == *self,
    {
        Dependency { name: self.name.clone(), version: self.version.clone(), url: self.url.clone() }
    }
}

/// Two dependencies share an identity key when their names and versions
/// spell the same.
pub open spec fn same_key(a: Dependency, b: Dependency) -> bool {
    a.name@ == b.name@ && a.version@ == b.version@
}

/// Some entry of `s` shares `d`'s key.
pub open spec fn has_key(s: Seq<Dependency>, d: Dependency) -> bool {
    exists|i: int| 0 <= i < s.len() && same_key(s[i], d)
}

/// How many entries of `s` share `d`'s key.
pub open spec fn count_key(s: Seq<Dependency>, d: Dependency) -> nat
    decreases s.len(),
{
    if s.len() == 0 {
        0
    } else {
        (if same_key(s[0], d) { 1nat } else { 0nat }) + count_key(s.drop_first(), d)
    }
}

/// No two entries of `s` share a key.
pub open spec fn unique_keys(s: Seq<Dependency>) -> bool {
    forall|i: int, j: int| 0 <= i < j < s.len() ==> !same_key(s[i], s[j])
}

/// The manifest after recording `d`: the first entry sharing `d`'s key is
/// replaced in place, and if none does, `d` is appended.
pub open spec fn upsert_seq(s: Seq<Dependency>, d: Dependency) -> Seq<Dependency>
    decreases s.len(),
{
    if s.len() == 0 {
        seq![d]
    } else if same_key(s[0], d) {
        seq![d] + s.drop_first()
    } else {
        seq![s[0]] + upsert_seq(s.drop_first(), d)
    }
}

pub proof fn lemma_upsert_no_key(s: Seq<Dependency>, d: Dependency)
    requires
        !has_key(s, d),
    ensures
        upsert_seq(s, d) == s.push(d),
    decreases s.len(),
{
    if s.len() == 0 {
        assert(upsert_seq(s, d) =~= s.push(d));
    } else {
        assert(!same_key(s[0], d));
        assert forall|i: int| 0 <= i < s.drop_first().len() implies !same_key(
            s.drop_first()[i],
            d,
        ) by {
            assert(s.drop_first()[i] == s[i + 1]);
        }
        lemma_upsert_no_key(s.drop_first(), d);
        assert(upsert_seq(s, d) =~= s.push(d));
    }
}

pub proof fn lemma_upsert_at_first_index(s: Seq<Dependency>, d: Dependency, i: int)
    requires
        0 <= i < s.len(),
        same_key(s[i], d),
        forall|j: int| 0 <= j < i ==> !same_key(s[j], d),
    ensures
        upsert_seq(s, d) == s.update(i, d),
    decreases i,
{
    if i == 0 {
        assert(upsert_seq(s, d) =~= s.update(0, d));
    } else {
        assert(!same_key(s[0], d));
        assert(s.drop_first()[i - 1] == s[i]);
        assert forall|j: int| 0 <= j < i - 1 implies !same_key(s.drop_first()[j], d) by {
            assert(s.drop_first()[j] == s[j + 1]);
        }
        lemma_upsert_at_first_index(s.drop_first(), d, i - 1);
        assert(upsert_seq(s, d) =~= s.update(i, d));
    }
}

/// The position of the first entry of `s` sharing `d`'s key.
pub proof fn lemma_first_key_index(s: Seq<Dependency>, d: Dependency) -> (i: int)
    requires
        has_key(s, d),
    ensures
        0 <= i < s.len(),
        same_key(s[i], d),
        forall|j: int| 0 <= j < i ==> !same_key(s[j], d),
    decreases s.len(),
{
    if same_key(s[0], d) {
        0
    } else {
        let k = choose|k: int| 0 <= k < s.len() && same_key(s[k], d);
        assert(s.drop_first()[k - 1] == s[k]);
        assert(has_key(s.drop_first(), d));
        let i0 = lemma_first_key_index(s.drop_first(), d);
        assert forall|j: int| 0 <= j < i0 + 1 implies !same_key(s[j], d) by {
            if j > 0 {
                assert(s.drop_first()[j - 1] == s[j]);
            }
        }
        assert(s[i0 + 1] == s.drop_first()[i0]);
        i0 + 1
    }
}

pub proof fn lemma_count_zero_iff_no_key(s: Seq<Dependency>, d: Dependency)
    ensures
        count_key(s, d) == 0 <==> !has_key(s, d),
    decreases s.len(),
{
    if s.len() == 0 {
    } else {
        lemma_count_zero_iff_no_key(s.drop_first(), d);
        assert forall|i: int| 0 <= i < s.drop_first().len() implies s.drop_first()[i] == s[i
            + 1] by {}
        if has_key(s, d) {
            let k = choose|k: int| 0 <= k < s.len() && same_key(s[k], d);
            if k > 0 {
                assert(s.drop_first()[k - 1] == s[k]);
                assert(has_key(s.drop_first(), d));
            }
        } else {
            assert(!same_key(s[0], d));
            if has_key(s.drop_first(), d) {
                let k = choose|k: int| 0 <= k < s.drop_first().len() && same_key(
                    s.drop_first()[k],
                    d,
                );
                assert(same_key(s[k + 1], d));
                assert(false);
            }
        }
    }
}

pub proof fn lemma_upsert_preserves_unique_keys(s: Seq<Dependency>, d: Dependency)
    requires
        unique_keys(s),
    ensures
        unique_keys(upsert_seq(s, d)),
{
    if has_key(s, d) {
        let i = lemma_first_key_index(s, d);
        lemma_upsert_at_first_index(s, d, i);
        let t = s.update(i, d);
        assert forall|p: int, q: int| 0 <= p < q < t.len() implies !same_key(t[p], t[q]) by {
            if p == i {
                assert(!same_key(s[i], s[q]));
            } else if q == i {
                assert(!same_key(s[p], s[i]));
            } else {
                assert(!same_key(s[p], s[q]));
            }
        }
    } else {
        lemma_upsert_no_key(s, d);
        let t = s.push(d);
        assert forall|p: int, q: int| 0 <= p < q < t.len() implies !same_key(t[p], t[q]) by {
            if q == s.len() {
                assert(t[p] == s[p]);
            } else {
                assert(!same_key(s[p], s[q]));
            }
        }
    }
}

/// Recording a dependency leaves exactly one manifest entry with its key.
pub proof fn lemma_upsert_count_one(s: Seq<Dependency>, d: Dependency)
    requires
        unique_keys(s),
    ensures
        count_key(upsert_seq(s, d), d) == 1,
    decreases s.len(),
{
    if s.len() == 0 {
        assert(same_key(d, d));
        let t = upsert_seq(s, d);
        assert(t =~= seq![d]);
        assert(t.drop_first() =~= Seq::<Dependency>::empty());
        assert(count_key(t.drop_first(), d) == 0);
        assert(count_key(t, d) == 1);
    } else if same_key(s[0], d) {
        let t = seq![d] + s.drop_first();
        assert(upsert_seq(s, d) == t);
        assert(same_key(t[0], d));
        assert forall|i: int| 0 <= i < s.drop_first().len() implies !same_key(
            s.drop_first()[i],
            d,
        ) by {
            assert(s.drop_first()[i] == s[i + 1]);
            assert(!same_key(s[0], s[i + 1]));
        }
        assert(!has_key(s.drop_first(), d)) by {
            if has_key(s.drop_first(), d) {
                let k = choose|k: int|
                    0 <= k < s.drop_first().len() && same_key(s.drop_first()[k], d);
                assert(!same_key(s.drop_first()[k], d));
            }
        }
        lemma_count_zero_iff_no_key(s.drop_first(), d);
        assert(count_key(s.drop_first(), d) == 0);
        assert(t.drop_first() =~= s.drop_first());
        assert(count_key(t, d) == 1 + count_key(t.drop_first(), d));
    } else {
        assert forall|i: int, j: int|
            0 <= i < j < s.drop_first().len() implies !same_key(
            s.drop_first()[i],
            s.drop_first()[j],
        ) by {
            assert(s.drop_first()[i] == s[i + 1]);
            assert(s.drop_first()[j] == s[j + 1]);
        }
        lemma_upsert_count_one(s.drop_first(), d);
        let t = seq![s[0]] + upsert_seq(s.drop_first(), d);
        assert(upsert_seq(s, d) == t);
        assert(!same_key(t[0], d));
        assert(t.drop_first() =~= upsert_seq(s.drop_first(), d));
        assert(count_key(t, d) == count_key(t.drop_first(), d));
    }
}

/// The recorded dependency itself — with its latest URL — stands in the
/// manifest after an upsert.
pub proof fn lemma_upsert_contains(s: Seq<Dependency>, d: Dependency)
    ensures
        exists|i: int| 0 <= i < upsert_seq(s, d).len() && upsert_seq(s, d)[i] == d,
    decreases s.len(),
{
    if s.len() == 0 {
        assert(upsert_seq(s, d)[0] == d);
    } else if same_key(s[0], d) {
        assert(upsert_seq(s, d)[0] == d);
    } else {
        lemma_upsert_contains(s.drop_first(), d);
        let k = choose|k: int|
            0 <= k < upsert_seq(s.drop_first(), d).len() && upsert_seq(s.drop_first(), d)[k] == d;
        assert(upsert_seq(s, d)[k + 1] == d);
    }
}

pub proof fn lemma_upsert_idempotent(s: Seq<Dependency>, d1: Dependency, d2: Dependency)
    requires
        same_key(d1, d2),
    ensures
        upsert_seq(upsert_seq(s, d1), d2) == upsert_seq(s, d2),
    decreases s.len(),
{
    if s.len() == 0 {
        assert(same_key(d1, d2));
        assert(upsert_seq(upsert_seq(s, d1), d2) =~= upsert_seq(s, d2));
    } else if same_key(s[0], d1) {
        let u1 = seq![d1] + s.drop_first();
        assert(upsert_seq(s, d1) == u1);
        assert(same_key(u1[0], d2));
        assert(u1.drop_first() =~= s.drop_first());
        assert(upsert_seq(upsert_seq(s, d1), d2) =~= upsert_seq(s, d2));
    } else {
        assert(!same_key(s[0], d2));
        let u1 = seq![s[0]] + upsert_seq(s.drop_first(), d1);
        assert(upsert_seq(s, d1) == u1);
        assert(u1.drop_first() =~= upsert_seq(s.drop_first(), d1));
        lemma_upsert_idempotent(s.drop_first(), d1, d2);
        assert(upsert_seq(upsert_seq(s, d1), d2) =~= upsert_seq(s, d2));
    }
}

/// Installing the same `(name, version)` twice leaves the manifest as if
/// only the second install had recorded it: exactly one entry holds that
/// key, and it is the later dependency, with the latest URL.
pub proof fn lemma_install_twice_one_entry(s: Seq<Dependency>, d1: Dependency, d2: Dependency)
    requires
        unique_keys(s),
        same_key(d1, d2),
    ensures
        upsert_seq(upsert_seq(s, d1), d2) == upsert_seq(s, d2),
        count_key(upsert_seq(upsert_seq(s, d1), d2), d2) == 1,
        exists|i: int|
            0 <= i < upsert_seq(upsert_seq(s, d1), d2).len() && upsert_seq(
                upsert_seq(s, d1),
                d2,
            )[i] == d2,
{
    lemma_upsert_idempotent(s, d1, d2);
    lemma_upsert_count_one(s, d2);
    lemma_upsert_contains(s, d2);
}

/// The project manifest: an ordered list of dependencies with at most one
/// entry per `(name, version)` key.
pub struct Manifest {
    entries: Vec<Dependency>,
}

impl View for Manifest {
    type V = Seq<Dependency>;

    closed spec fn view(&self) -> Seq<Dependency> {
        self.entries@
    }
}

impl Manifest {
    /// The manifest invariant: no key appears twice.
    pub open spec fn wf(&self) -> bool {
        unique_keys(self@)
    }

    pub fn new() -> (m: Manifest)
        ensures
            m@.len() == 0,
            m.wf(),
    {
        Manifest { entries: Vec::new() }
    }

    /// Builds a manifest from entries read off disk, normalizing duplicate
    /// keys by keeping each key's last entry, as repeated upserts would.
    pub fn from_entries(entries: Vec<Dependency>) -> (m: Manifest)
        ensures
            m@ == upsert_all(entries@),
            m.wf(),
    {
        let mut m = Manifest::new();
        let n = entries.len();
        let mut i: usize = 0;
        proof {
            assert(m@ =~= upsert_all(entries@.subrange(0, 0)));
        }
        while i < n
            invariant
                i <= n,
                n == entries@.len(),
                m@ == upsert_all(entries@.subrange(0, i as int)),
                m.wf(),
            decreases n - i,
        {
            m.upsert(entries[i].clone());
            proof {
                assert(entries@.subrange(0, i + 1 as int).drop_last() =~= entries@.subrange(
                    0,
                    i as int,
                ));
                assert(entries@.subrange(0, i + 1 as int).last() == entries@[i as int]);
            }
            i += 1;
        }
        proof {
            assert(entries@.subrange(0, n as int) =~= entries@);
        }
        m
    }

    /// Records `dep`: replaces the URL of the entry with `dep`'s key in
    /// place, or appends `dep` when no entry has its key.
    pub fn upsert(&mut self, dep: Dependency)
        ensures
            final(self)@ == upsert_seq(old(self)@, dep),
            old(self).wf() ==> final(self).wf(),
    {
        let n = self.entries.len();
        let mut i: usize = 0;
        while i < n
            invariant
                i <= n,
                n == self.entries@.len(),
                self.entries@ == old(self)@,
                forall|j: int| 0 <= j < i ==> !same_key(old(self)@[j], dep),
            decreases n - i,
        {
            if self.entries[i].name == dep.name && self.entries[i].version == dep.version {
                proof {
                    lemma_upsert_at_first_index(old(self)@, dep, i as int);
                    if old(self).wf() {
                        lemma_upsert_preserves_unique_keys(old(self)@, dep);
                    }
                }
                let ghost d = dep;
                self.entries.set(i, dep);
                proof {
                    assert(self@ == old(self)@.update(i as int, d));
                    assert(self@ == upsert_seq(old(self)@, d));
                }
                return ;
            }
            i += 1;
        }
        proof {
            lemma_upsert_no_key(old(self)@, dep);
            if old(self).wf() {
                lemma_upsert_preserves_unique_keys(old(self)@, dep);
            }
        }
        self.entries.push(dep);
    }

    /// The declared dependencies, in manifest order.
    pub fn list_all(&self) -> (v: &Vec<Dependency>)
        ensures
            v@ == self@,
    {
        &self.entries
    }

    pub fn len(&self) -> (n: usize)
        ensures
            n == self@.len(),
    {
        self.entries.len()
    }
}

/// The manifest resulting from upserting every entry of `s` in order into
/// an empty manifest.
pub open spec fn upsert_all(s: Seq<Dependency>) -> Seq<Dependency>
    decreases s.len(),
{
    if s.len() == 0 {
        Seq::empty()
    } else {
        upsert_seq(upsert_all(s.drop_last()), s.last())
    }
}

/// A fresh vector holding the same dependencies.
pub fn clone_dependencies(v: &Vec<Dependency>) -> (r: Vec<Dependency>)
    ensures
        r@ == v@,
{
    let mut r: Vec<Dependency> = Vec::new();
    let n = v.len();
    let mut i: usize = 0;
    while i < n
        invariant
            i <= n,
            n == v@.len(),
            r@ =~= v@.subrange(0, i as int),
        decreases n - i,
    {
        r.push(v[i].clone());
        proof {
            assert(r@ =~= v@.subrange(0, i + 1 as int));
        }
        i += 1;
    }
    proof {
        assert(v@.subrange(0, n as int) =~= v@);
    }
    r
}

} // verus!
