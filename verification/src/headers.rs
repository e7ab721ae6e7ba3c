//! The Header Normalizer: turns the host's ordered raw header pairs into a
//! canonical name-to-value mapping, last write winning when a name repeats,
//! and copies an authority-style entry into `host` when `host` is absent.

use vstd::prelude::*;

use crate::text::{ascii_bytes_of, ascii_seq, bytes_eq, clone_bytes, pairs_view};

verus! {

/// The canonical `host` header name.
pub open spec fn host_key() -> Seq<u8> {
    ascii_seq("host"@)
}

/// The authority-style pseudo-header name.
pub open spec fn authority_key() -> Seq<u8> {
    ascii_seq(":authority"@)
}

/// The last-write-wins mapping of an ordered sequence of header pairs.
pub open spec fn last_write_map(pairs: Seq<(Seq<u8>, Seq<u8>)>) -> Map<Seq<u8>, Seq<u8>>
    decreases pairs.len(),
{
    if pairs.len() == 0 {
        Map::empty()
    } else {
        last_write_map(pairs.drop_last()).insert(pairs.last().0, pairs.last().1)
    }
}

/// The names of a header pair sequence, in first-occurrence order.
pub open spec fn first_keys(pairs: Seq<(Seq<u8>, Seq<u8>)>) -> Seq<Seq<u8>>
    decreases pairs.len(),
{
    if pairs.len() == 0 {
        Seq::empty()
    } else {
        let rest = first_keys(pairs.drop_last());
        if rest.contains(pairs.last().0) {
            rest
        } else {
            rest.push(pairs.last().0)
        }
    }
}

/// The mapping after the host fallback: when `host` is absent but the
/// authority entry is present, the authority value is copied into `host`.
pub open spec fn with_host_fallback(m: Map<Seq<u8>, Seq<u8>>) -> Map<Seq<u8>, Seq<u8>> {
    if !m.contains_key(host_key()) && m.contains_key(authority_key()) {
        m.insert(host_key(), m[authority_key()])
    } else {
        m
    }
}

/// The name-to-value mapping that normalization yields for raw pairs.
pub open spec fn normalized_map(pairs: Seq<(Seq<u8>, Seq<u8>)>) -> Map<Seq<u8>, Seq<u8>> {
    with_host_fallback(last_write_map(pairs))
}

/// The names that normalization yields for raw pairs, in order: first
/// occurrences, with `host` appended when the fallback fires.
pub open spec fn normalized_keys(pairs: Seq<(Seq<u8>, Seq<u8>)>) -> Seq<Seq<u8>> {
    if !last_write_map(pairs).contains_key(host_key()) && last_write_map(pairs).contains_key(
        authority_key(),
    ) {
        first_keys(pairs).push(host_key())
    } else {
        first_keys(pairs)
    }
}

/// The keys of a mapping paired with their values, in the order given.
pub open spec fn keyed_entries(keys: Seq<Seq<u8>>, m: Map<Seq<u8>, Seq<u8>>) -> Seq<
    (Seq<u8>, Seq<u8>),
> {
    Seq::new(keys.len(), |i: int| (keys[i], m[keys[i]]))
}

/// A canonical header mapping: unique names, each with the value of the last
/// raw pair that carried it, kept in the order the names first appeared.
pub struct HeaderMap {
    entries: Vec<(Vec<u8>, Vec<u8>)>,
}

impl HeaderMap {
    /// The entries as a sequence of byte-sequence pairs.
    pub closed spec fn entries(&self) -> Seq<(Seq<u8>, Seq<u8>)> {
        pairs_view(self.entries@)
    }

    /// The names, in order.
    pub open spec fn keys(&self) -> Seq<Seq<u8>> {
        Seq::new(self.entries().len(), |i: int| self.entries()[i].0)
    }

    /// Well-formed: no name occurs twice.
    pub open spec fn wf(&self) -> bool {
        forall|i: int, j: int|
            0 <= i < j < self.entries().len() ==> self.entries()[i].0 != self.entries()[j].0
    }

    /// The name-to-value mapping the entries represent.
    pub open spec fn as_map(&self) -> Map<Seq<u8>, Seq<u8>> {
        last_write_map(self.entries())
    }

    /// An empty mapping.
    pub fn new() -> (r: HeaderMap)
        ensures
            r.wf(),
            r.entries() == Seq::<(Seq<u8>, Seq<u8>)>::empty(),
            r.as_map() == Map::<Seq<u8>, Seq<u8>>::empty(),
    {
        let r = HeaderMap { entries: Vec::new() };
        assert(r.entries() =~= Seq::<(Seq<u8>, Seq<u8>)>::empty());
        r
    }

    /// The borrowed entry list, for serialization.
    pub fn entry_list(&self) -> (r: &Vec<(Vec<u8>, Vec<u8>)>)
        ensures
            pairs_view(r@) == self.entries(),
    {
        &self.entries
    }

    /// Looks a name up; `None` exactly when the mapping lacks it.
    pub fn get(&self, key: &[u8]) -> (r: Option<&Vec<u8>>)
        requires
            self.wf(),
        ensures
            match r {
                Some(v) => self.as_map().contains_key(key@) && v@ == self.as_map()[key@],
                None => !self.as_map().contains_key(key@),
            },
    {
        let n = self.entries.len();
        let mut i: usize = 0;
        while i < n
            invariant
                i <= n,
                n == self.entries().len(),
                self.wf(),
                forall|j: int| 0 <= j < i ==> self.entries()[j].0 != key@,
            decreases n - i,
        {
            if bytes_eq(self.entries[i].0.as_slice(), key) {
                proof {
                    lemma_lwm_value(self.entries(), i as int);
                }
                return Some(&self.entries[i].1);
            }
            i += 1;
        }
        proof {
            lemma_lwm_contains(self.entries(), key@);
        }
        None
    }

    /// With well-formedness, the entries are exactly the names paired with
    /// their mapped values.
    pub proof fn lemma_entries_shape(&self)
        requires
            self.wf(),
        ensures
            self.entries() == keyed_entries(self.keys(), self.as_map()),
    {
        assert forall|i: int| 0 <= i < self.entries().len() implies self.entries()[i] == (
            self.keys()[i],
            self.as_map()[self.keys()[i]],
        ) by {
            lemma_lwm_value(self.entries(), i);
        }
        assert(self.entries() =~= keyed_entries(self.keys(), self.as_map()));
    }

    /// Inserts a name-value pair: replaces the value when the name is already
    /// present, appends the pair otherwise.
    pub fn insert(&mut self, key: Vec<u8>, value: Vec<u8>)
        requires
            old(self).wf(),
        ensures
            final(self).wf(),
            final(self).as_map() == old(self).as_map().insert(key@, value@),
            old(self).as_map().contains_key(key@) ==> final(self).keys() == old(self).keys(),
            !old(self).as_map().contains_key(key@) ==> final(self).keys() == old(self).keys().push(
                key@,
            ),
    {
        let ghost entries0 = self.entries();
        let n = self.entries.len();
        let mut i: usize = 0;
        while i < n
            invariant
                i <= n,
                n == self.entries().len(),
                self.wf(),
                self.entries() == entries0,
                old(self).entries() == entries0,
                forall|j: int| 0 <= j < i ==> self.entries()[j].0 != key@,
            decreases n - i,
        {
            if bytes_eq(self.entries[i].0.as_slice(), key.as_slice()) {
                proof {
                    assert((i as int) < entries0.len() && entries0[i as int].0 == key@);
                    lemma_lwm_contains(entries0, key@);
                    lemma_lwm_update(entries0, i as int, value@);
                }
                self.entries[i] = (key, value);
                proof {
                    assert(self.entries() =~= entries0.update(
                        i as int,
                        (entries0[i as int].0, value@),
                    ));
                    assert(old(self).as_map() == last_write_map(entries0));
                    assert(self.as_map() == last_write_map(entries0).insert(key@, value@));
                    assert(forall|j: int|
                        0 <= j < self.entries().len() ==> self.entries()[j].0 == entries0[j].0);
                    assert(self.wf());
                    assert(self.keys() =~= old(self).keys());
                }
                return ;
            }
            i += 1;
        }
        proof {
            lemma_lwm_contains(entries0, key@);
        }
        self.entries.push((key, value));
        proof {
            assert(self.entries().drop_last() =~= entries0);
            assert(self.entries().last() == (key@, value@));
            assert(self.entries() =~= entries0.push((key@, value@)));
            assert(self.as_map() == old(self).as_map().insert(key@, value@));
            assert(forall|j: int| 0 <= j < entries0.len() ==> self.entries()[j] == entries0[j]);
            assert(self.wf());
            assert(self.keys() =~= old(self).keys().push(key@));
        }
    }
}

/// Normalizes the host's raw header pairs: last write wins per name, names
/// are kept in first-occurrence order, and the authority value is copied into
/// `host` when `host` is absent.
pub fn normalize_headers(raw: &Vec<(Vec<u8>, Vec<u8>)>) -> (r: HeaderMap)
    ensures
        r.wf(),
        r.as_map() == normalized_map(pairs_view(raw@)),
        r.keys() == normalized_keys(pairs_view(raw@)),
{
    let ghost s = pairs_view(raw@);
    let mut m = HeaderMap::new();
    let n = raw.len();
    let mut i: usize = 0;
    while i < n
        invariant
            i <= n,
            n == raw@.len(),
            s == pairs_view(raw@),
            m.wf(),
            m.as_map() == last_write_map(s.take(i as int)),
            m.keys() == first_keys(s.take(i as int)),
        decreases n - i,
    {
        let k = clone_bytes(&raw[i].0);
        let v = clone_bytes(&raw[i].1);
        proof {
            assert(s.take(i + 1 as int).drop_last() =~= s.take(i as int));
            assert(s.take(i + 1 as int).last() == s[i as int]);
            lemma_lwm_contains(s.take(i as int), s[i as int].0);
            lemma_first_keys_contains(s.take(i as int), s[i as int].0);
        }
        m.insert(k, v);
        proof {
            assert(m.as_map() == last_write_map(s.take(i + 1 as int)));
            assert(m.keys() == first_keys(s.take(i + 1 as int)));
        }
        i += 1;
    }
    proof {
        assert(s.take(n as int) =~= s);
        reveal_strlit("host");
        reveal_strlit(":authority");
        assert(vstd::string::is_ascii("host"));
        assert(vstd::string::is_ascii(":authority"));
    }
    let hk = ascii_bytes_of("host");
    let ak = ascii_bytes_of(":authority");
    let fallback: Option<Vec<u8>> = match m.get(ak.as_slice()) {
        Some(av) => Some(clone_bytes(av)),
        None => None,
    };
    let has_host = m.get(hk.as_slice()).is_some();
    if !has_host {
        if let Some(av) = fallback {
            m.insert(hk, av);
        }
    }
    m
}

/// Serializes a normalized header mapping as a JSON object, entries in the
/// mapping's order.
pub fn headers_json(m: &HeaderMap) -> (r: Vec<u8>)
    requires
        m.wf(),
    ensures
        r@ == crate::json::json_object(keyed_entries(m.keys(), m.as_map())),
{
    let mut out: Vec<u8> = Vec::new();
    proof {
        m.lemma_entries_shape();
    }
    crate::json::write_json_object(&mut out, m.entry_list());
    proof {
        assert(out@ =~= crate::json::json_object(keyed_entries(m.keys(), m.as_map())));
    }
    out
}

/// For every raw header sequence with no `host` pair but at least one
/// authority pair, the normalized mapping holds a `host` entry equal to the
/// mapped authority value.
pub proof fn lemma_authority_fills_host(pairs: Seq<(Seq<u8>, Seq<u8>)>)
    requires
        forall|i: int| 0 <= i < pairs.len() ==> pairs[i].0 != host_key(),
        exists|i: int| 0 <= i < pairs.len() && pairs[i].0 == authority_key(),
    ensures
        normalized_map(pairs).contains_key(host_key()),
        normalized_map(pairs)[host_key()] == last_write_map(pairs)[authority_key()],
{
    lemma_lwm_contains(pairs, host_key());
    lemma_lwm_contains(pairs, authority_key());
}

/// For every raw header sequence carrying both a `host` pair and an authority
/// pair, the normalized mapping keeps the mapped `host` value unchanged.
pub proof fn lemma_host_preserved(pairs: Seq<(Seq<u8>, Seq<u8>)>)
    requires
        exists|i: int| 0 <= i < pairs.len() && pairs[i].0 == host_key(),
        exists|i: int| 0 <= i < pairs.len() && pairs[i].0 == authority_key(),
    ensures
        normalized_map(pairs).contains_key(host_key()),
        normalized_map(pairs)[host_key()] == last_write_map(pairs)[host_key()],
{
    lemma_lwm_contains(pairs, host_key());
}

/// A name stands in `first_keys` exactly when some pair carries it.
pub proof fn lemma_first_keys_contains(s: Seq<(Seq<u8>, Seq<u8>)>, k: Seq<u8>)
    ensures
        first_keys(s).contains(k) <==> (exists|i: int| 0 <= i < s.len() && s[i].0 == k),
    decreases s.len(),
{
    if s.len() > 0 {
        lemma_first_keys_contains(s.drop_last(), k);
        assert(forall|i: int| 0 <= i < s.len() - 1 ==> s.drop_last()[i] == s[i]);
        let rest = first_keys(s.drop_last());
        if s.last().0 == k {
            assert(s[s.len() - 1].0 == k);
            if !rest.contains(s.last().0) {
                assert(first_keys(s)[rest.len() as int] == k);
                assert(first_keys(s).contains(k));
            }
        } else {
            if !rest.contains(s.last().0) {
                assert(rest.contains(k) ==> first_keys(s).contains(k)) by {
                    if rest.contains(k) {
                        let w = choose|w: int| 0 <= w < rest.len() && rest[w] == k;
                        assert(first_keys(s)[w] == k);
                    }
                }
                assert(first_keys(s).contains(k) ==> rest.contains(k)) by {
                    if first_keys(s).contains(k) {
                        let w = choose|w: int|
                            0 <= w < first_keys(s).len() && first_keys(s)[w] == k;
                        assert(w < rest.len());
                        assert(rest[w] == k);
                    }
                }
            }
        }
    }
}

/// A name stands in the last-write-wins mapping exactly when some pair
/// carries it.
pub proof fn lemma_lwm_contains(s: Seq<(Seq<u8>, Seq<u8>)>, k: Seq<u8>)
    ensures
        last_write_map(s).contains_key(k) <==> (exists|i: int| 0 <= i < s.len() && s[i].0 == k),
    decreases s.len(),
{
    if s.len() > 0 {
        lemma_lwm_contains(s.drop_last(), k);
        assert(forall|i: int| 0 <= i < s.len() - 1 ==> s.drop_last()[i] == s[i]);
        if s.last().0 == k {
            assert(s[s.len() - 1].0 == k);
        }
    }
}

/// When no later pair repeats the name of the pair at `i`, the mapping holds
/// that pair's value for that name.
pub proof fn lemma_lwm_value(s: Seq<(Seq<u8>, Seq<u8>)>, i: int)
    requires
        0 <= i < s.len(),
        forall|j: int| i < j < s.len() ==> s[j].0 != s[i].0,
    ensures
        last_write_map(s).contains_key(s[i].0),
        last_write_map(s)[s[i].0] == s[i].1,
    decreases s.len(),
{
    if i == s.len() - 1 {
    } else {
        assert(forall|j: int| 0 <= j < s.len() - 1 ==> s.drop_last()[j] == s[j]);
        lemma_lwm_value(s.drop_last(), i);
    }
}

/// Replacing the value of the pair at `i`, when no later pair repeats its
/// name, is insertion into the mapping.
proof fn lemma_lwm_update(s: Seq<(Seq<u8>, Seq<u8>)>, i: int, v: Seq<u8>)
    requires
        0 <= i < s.len(),
        forall|j: int| i < j < s.len() ==> s[j].0 != s[i].0,
    ensures
        last_write_map(s.update(i, (s[i].0, v))) == last_write_map(s).insert(s[i].0, v),
    decreases s.len(),
{
    let t = s.update(i, (s[i].0, v));
    if i == s.len() - 1 {
        assert(t.drop_last() =~= s.drop_last());
        assert(t.last() == (s[i].0, v));
        assert(last_write_map(s.drop_last()).insert(s[i].0, v) =~= last_write_map(
            s.drop_last(),
        ).insert(s[i].0, s[i].1).insert(s[i].0, v));
    } else {
        assert(forall|j: int| 0 <= j < s.len() - 1 ==> s.drop_last()[j] == s[j]);
        lemma_lwm_update(s.drop_last(), i, v);
        assert(t.drop_last() =~= s.drop_last().update(i, (s[i].0, v)));
        assert(t.last() == s.last());
        assert(s.last().0 != s[i].0);
        assert(last_write_map(s.drop_last()).insert(s[i].0, v).insert(s.last().0, s.last().1)
            =~= last_write_map(s.drop_last()).insert(s.last().0, s.last().1).insert(s[i].0, v));
    }
}

} // verus!
