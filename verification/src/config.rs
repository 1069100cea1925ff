//! Layered configuration resolution: ambient host environment (lowest
//! precedence), optional env-file entries, then explicit `KEY=VALUE`
//! override strings (highest precedence), merged into one insertion-ordered
//! map with unique keys.  Reading the process environment and the env file
//! is left to the thin outer layer; this module merges the plain pairs it
//! is handed.

use crate::kvlist::{
    batch_value, insert_all, insert_keyed, lemma_insert_all_lookup,
    lemma_insert_all_push, lemma_insert_all_unique, lemma_insert_lookup_other,
    lemma_insert_lookup_same, lemma_insert_unique, lookup_keyed, unique_keys,
};
use vstd::prelude::*;
use vstd::string::StrSliceExecFns;

verus! {

#[verifier::external_type_specification]
#[verifier::external_body]
#[verifier::reject_recursive_types(K)]
#[verifier::reject_recursive_types(V)]
#[verifier::reject_recursive_types(S)]
pub struct ExIndexMap<K, V, S>(indexmap::IndexMap<K, V, S>);

/// The entries an `indexmap::IndexMap` holds, in its insertion order.
pub uninterp spec fn env_entries(m: indexmap::IndexMap<String, String>) -> Seq<
    (Seq<char>, Seq<char>),
>;

/// Relies on indexmap::IndexMap::new: a fresh map holds no entries.
#[verifier::external_body]
fn env_map_new() -> (m: indexmap::IndexMap<String, String>)
    ensures
        env_entries(m) == Seq::<(Seq<char>, Seq<char>)>::empty(),
{
    indexmap::IndexMap::new()
}

/// Relies on indexmap::IndexMap::insert: an equivalent key keeps its place
/// in the order and takes the new value; a new key is appended last.
#[verifier::external_body]
fn env_map_insert(m: &mut indexmap::IndexMap<String, String>, k: String, v: String)
    ensures
        env_entries(*final(m)) == insert_keyed(env_entries(*old(m)), k@, v@),
{
    m.insert(k, v);
}

/// Relies on indexmap::IndexMap::get: returns the value stored under an
/// equivalent key, and nothing when no entry carries the key.
#[verifier::external_body]
fn env_map_get(m: &indexmap::IndexMap<String, String>, k: &str) -> (r: Option<String>)
    ensures
        (match r {
            Some(v) => lookup_keyed(env_entries(*m), k@) == Some(v@),
            None => lookup_keyed(env_entries(*m), k@) is None,
        }),
{
    m.get(k).cloned()
}

/// Relies on indexmap::IndexMap::len: the number of entries.
#[verifier::external_body]
fn env_map_len(m: &indexmap::IndexMap<String, String>) -> (r: usize)
    ensures
        r == env_entries(*m).len(),
{
    m.len()
}

/// Relies on indexmap::IndexMap::iter: yields the entries in order.
#[verifier::external_body]
fn env_map_pairs(m: &indexmap::IndexMap<String, String>) -> (r: Vec<(String, String)>)
    ensures
        pairs_view(r@) == env_entries(*m),
{
    m.iter().map(|(k, v)| (k.clone(), v.clone())).collect()
}

/// View of a vector of string pairs as a sequence of key/value views.
pub open spec fn pairs_view(s: Seq<(String, String)>) -> Seq<(Seq<char>, Seq<char>)> {
    s.map_values(|p: (String, String)| (p.0@, p.1@))
}

/// View of a vector of strings as a sequence of character sequences.
pub open spec fn strs_view(s: Seq<String>) -> Seq<Seq<char>> {
    s.map_values(|x: String| x@)
}

/// Index of the first `=` at or after `i`.
pub open spec fn eq_pos(s: Seq<char>, i: int) -> Option<int>
    decreases s.len() - i when 0 <= i <= s.len()
{
    if i >= s.len() {
        None
    } else if s[i] == '=' {
        Some(i)
    } else {
        eq_pos(s, i + 1)
    }
}

/// Splitting an override string on its first `=`: the part before is the
/// key, the part after is the value; a string without `=` parses to nothing.
pub open spec fn spec_parse_override(s: Seq<char>) -> Option<(Seq<char>, Seq<char>)> {
    match eq_pos(s, 0) {
        None => None,
        Some(i) => Some((s.subrange(0, i), s.subrange(i + 1, s.len() as int))),
    }
}

proof fn lemma_eq_pos_found(s: Seq<char>, start: int, i: int)
    requires
        0 <= start <= i < s.len(),
        s[i] == '=',
        forall|j: int| start <= j < i ==> s[j] != '=',
    ensures
        eq_pos(s, start) == Some(i),
    decreases i - start,
{
    if start < i {
        lemma_eq_pos_found(s, start + 1, i);
    }
}

proof fn lemma_eq_pos_none(s: Seq<char>, start: int)
    requires
        0 <= start <= s.len(),
        forall|j: int| start <= j < s.len() ==> s[j] != '=',
    ensures
        eq_pos(s, start) is None,
    decreases s.len() - start,
{
    if start < s.len() {
        lemma_eq_pos_none(s, start + 1);
    }
}

/// Split a `KEY=VALUE` override string on its first `=`.  A string without
/// `=` yields nothing rather than an error.
pub fn parse_override(s: &str) -> (r: Option<(String, String)>)
    ensures
        (match r {
            Some(kv) => spec_parse_override(s@) == Some((kv.0@, kv.1@)),
            None => spec_parse_override(s@) is None,
        }),
{
    let n: usize = s.unicode_len();
    let mut i: usize = 0;
    while i < n
        invariant
            n == s@.len(),
            0 <= i <= n,
            forall|j: int| 0 <= j < i ==> s@[j] != '=',
        decreases n - i,
    {
        if s.get_char(i) == '=' {
            let k = s.substring_char(0, i).to_owned();
            let v = s.substring_char(i + 1, n).to_owned();
            proof {
                lemma_eq_pos_found(s@, 0, i as int);
            }
            return Some((k, v));
        }
        i += 1;
    }
    proof {
        lemma_eq_pos_none(s@, 0);
    }
    None
}

/// Fold override strings into the list, in order; strings without `=` are
/// skipped.
pub open spec fn apply_overrides(
    s: Seq<(Seq<char>, Seq<char>)>,
    ovs: Seq<Seq<char>>,
) -> Seq<(Seq<char>, Seq<char>)>
    decreases ovs.len(),
{
    if ovs.len() == 0 {
        s
    } else {
        match spec_parse_override(ovs[0]) {
            None => apply_overrides(s, ovs.drop_first()),
            Some(kv) => apply_overrides(insert_keyed(s, kv.0, kv.1), ovs.drop_first()),
        }
    }
}

/// The value the override tier itself assigns to `k`: the last override
/// string that parses to key `k`.
pub open spec fn override_value(ovs: Seq<Seq<char>>, k: Seq<char>) -> Option<Seq<char>>
    decreases ovs.len(),
{
    if ovs.len() == 0 {
        None
    } else {
        match spec_parse_override(ovs.last()) {
            Some(kv) => if kv.0 == k {
                Some(kv.1)
            } else {
                override_value(ovs.drop_last(), k)
            },
            None => override_value(ovs.drop_last(), k),
        }
    }
}

proof fn lemma_apply_overrides_push(s: Seq<(Seq<char>, Seq<char>)>, ovs: Seq<Seq<char>>, o: Seq<char>)
    ensures
        apply_overrides(s, ovs.push(o)) == (match spec_parse_override(o) {
            None => apply_overrides(s, ovs),
            Some(kv) => insert_keyed(apply_overrides(s, ovs), kv.0, kv.1),
        }),
    decreases ovs.len(),
{
    if ovs.len() == 0 {
        assert(ovs.push(o)[0] == o);
        assert(ovs.push(o).drop_first() =~= Seq::<Seq<char>>::empty());
        match spec_parse_override(o) {
            None => {
                assert(apply_overrides(s, ovs.push(o)) == apply_overrides(
                    s,
                    ovs.push(o).drop_first(),
                ));
            },
            Some(kv) => {
                assert(apply_overrides(s, ovs.push(o)) == apply_overrides(
                    insert_keyed(s, kv.0, kv.1),
                    ovs.push(o).drop_first(),
                ));
            },
        }
    } else {
        assert(ovs.push(o)[0] == ovs[0]);
        assert(ovs.push(o).drop_first() =~= ovs.drop_first().push(o));
        match spec_parse_override(ovs[0]) {
            None => {
                assert(apply_overrides(s, ovs.push(o)) == apply_overrides(
                    s,
                    ovs.drop_first().push(o),
                ));
                lemma_apply_overrides_push(s, ovs.drop_first(), o);
            },
            Some(kv) => {
                assert(apply_overrides(s, ovs.push(o)) == apply_overrides(
                    insert_keyed(s, kv.0, kv.1),
                    ovs.drop_first().push(o),
                ));
                lemma_apply_overrides_push(insert_keyed(s, kv.0, kv.1), ovs.drop_first(), o);
            },
        }
    }
}

proof fn lemma_apply_overrides_lookup(
    s: Seq<(Seq<char>, Seq<char>)>,
    ovs: Seq<Seq<char>>,
    k: Seq<char>,
)
    ensures
        lookup_keyed(apply_overrides(s, ovs), k) == (match override_value(ovs, k) {
            Some(v) => Some(v),
            None => lookup_keyed(s, k),
        }),
    decreases ovs.len(),
{
    if ovs.len() == 0 {
    } else {
        let shorter = ovs.drop_last();
        let o = ovs.last();
        assert(ovs =~= shorter.push(o));
        lemma_apply_overrides_push(s, shorter, o);
        lemma_apply_overrides_lookup(s, shorter, k);
        match spec_parse_override(o) {
            None => {},
            Some(kv) => {
                if kv.0 == k {
                    lemma_insert_lookup_same(apply_overrides(s, shorter), k, kv.1);
                } else {
                    lemma_insert_lookup_other(apply_overrides(s, shorter), kv.0, kv.1, k);
                }
            },
        }
    }
}

proof fn lemma_apply_overrides_unique(s: Seq<(Seq<char>, Seq<char>)>, ovs: Seq<Seq<char>>)
    requires
        unique_keys(s),
    ensures
        unique_keys(apply_overrides(s, ovs)),
    decreases ovs.len(),
{
    if ovs.len() == 0 {
    } else {
        match spec_parse_override(ovs[0]) {
            None => {
                lemma_apply_overrides_unique(s, ovs.drop_first());
            },
            Some(kv) => {
                lemma_insert_unique(s, kv.0, kv.1);
                lemma_apply_overrides_unique(insert_keyed(s, kv.0, kv.1), ovs.drop_first());
            },
        }
    }
}

/// The whole merged list: host environment entries when included (rank 0),
/// then env-file entries when the file was present (rank 1), then the
/// override strings (rank 2), each tier inserted last-write-wins.
pub open spec fn spec_resolve(
    include_host_env: bool,
    host: Seq<(Seq<char>, Seq<char>)>,
    file: Option<Seq<(Seq<char>, Seq<char>)>>,
    ovs: Seq<Seq<char>>,
) -> Seq<(Seq<char>, Seq<char>)> {
    let base = if include_host_env {
        insert_all(Seq::<(Seq<char>, Seq<char>)>::empty(), host)
    } else {
        Seq::<(Seq<char>, Seq<char>)>::empty()
    };
    let with_file = match file {
        Some(f) => insert_all(base, f),
        None => base,
    };
    apply_overrides(with_file, ovs)
}

/// View of an optional vector of env-file pairs.
pub open spec fn file_view(f: Option<Vec<(String, String)>>) -> Option<
    Seq<(Seq<char>, Seq<char>)>,
> {
    match f {
        Some(v) => Some(pairs_view(v@)),
        None => None,
    }
}

/// The configuration that resolution committed to: one insertion-ordered
/// map with unique keys, immutable once built.
pub struct MergedConfig {
    map: indexmap::IndexMap<String, String>,
}

impl MergedConfig {
    /// The merged entries, in insertion order.
    pub closed spec fn entries(&self) -> Seq<(Seq<char>, Seq<char>)> {
        env_entries(self.map)
    }

    /// Merge the three configuration tiers.  The host pairs count only when
    /// `include_host_env` is set; `file_entries` is `None` when the env file
    /// was absent, which contributes nothing; override strings without `=`
    /// are dropped, never an error.
    pub fn resolve(
        include_host_env: bool,
        host_env: Vec<(String, String)>,
        file_entries: Option<Vec<(String, String)>>,
        overrides: Vec<String>,
    ) -> (m: MergedConfig)
        ensures
            m.entries() == spec_resolve(
                include_host_env,
                pairs_view(host_env@),
                file_view(file_entries),
                strs_view(overrides@),
            ),
            unique_keys(m.entries()),
    {
        let ghost host_v = pairs_view(host_env@);
        let ghost file_v = file_view(file_entries);
        let ghost ovs_v = strs_view(overrides@);
        let mut map = env_map_new();
        if include_host_env {
            insert_pairs_into(&mut map, &host_env);
        }
        assert(env_entries(map) == (if include_host_env {
            insert_all(Seq::<(Seq<char>, Seq<char>)>::empty(), host_v)
        } else {
            Seq::<(Seq<char>, Seq<char>)>::empty()
        }));
        match &file_entries {
            Some(f) => {
                insert_pairs_into(&mut map, f);
            },
            None => {},
        }
        insert_overrides_into(&mut map, &overrides);
        proof {
            assert(unique_keys(Seq::<(Seq<char>, Seq<char>)>::empty()));
            if include_host_env {
                lemma_insert_all_unique(Seq::<(Seq<char>, Seq<char>)>::empty(), host_v);
            }
            let base = if include_host_env {
                insert_all(Seq::<(Seq<char>, Seq<char>)>::empty(), host_v)
            } else {
                Seq::<(Seq<char>, Seq<char>)>::empty()
            };
            match file_v {
                Some(f) => lemma_insert_all_unique(base, f),
                None => {},
            }
            let with_file = match file_v {
                Some(f) => insert_all(base, f),
                None => base,
            };
            lemma_apply_overrides_unique(with_file, ovs_v);
        }
        MergedConfig { map }
    }

    /// The value merged in for `key`, when any tier supplied one.
    pub fn get(&self, key: &str) -> (r: Option<String>)
        ensures
            (match r {
                Some(v) => lookup_keyed(self.entries(), key@) == Some(v@),
                None => lookup_keyed(self.entries(), key@) is None,
            }),
    {
        env_map_get(&self.map, key)
    }

    /// How many keys the merged configuration holds.
    pub fn len(&self) -> (r: usize)
        ensures
            r == self.entries().len(),
    {
        env_map_len(&self.map)
    }

    /// The merged entries as plain pairs, in insertion order: what the
    /// startup routine commits to the process environment, exactly once.
    pub fn pairs(&self) -> (r: Vec<(String, String)>)
        ensures
            pairs_view(r@) == self.entries(),
    {
        env_map_pairs(&self.map)
    }
}

/// Insert every pair of a tier, front first, last write winning.
fn insert_pairs_into(map: &mut indexmap::IndexMap<String, String>, pairs: &Vec<(String, String)>)
    ensures
        env_entries(*final(map)) == insert_all(env_entries(*old(map)), pairs_view(pairs@)),
{
    let ghost pv = pairs_view(pairs@);
    let mut i: usize = 0;
    assert(pv.take(0) =~= Seq::<(Seq<char>, Seq<char>)>::empty());
    while i < pairs.len()
        invariant
            0 <= i <= pairs.len(),
            pv == pairs_view(pairs@),
            env_entries(*map) == insert_all(env_entries(*old(map)), pv.take(i as int)),
        decreases pairs.len() - i,
    {
        let k = pairs[i].0.clone();
        let v = pairs[i].1.clone();
        env_map_insert(map, k, v);
        proof {
            assert(pv[i as int] == (pairs@[i as int].0@, pairs@[i as int].1@));
            assert(pv.take(i + 1) =~= pv.take(i as int).push(pv[i as int]));
            lemma_insert_all_push(env_entries(*old(map)), pv.take(i as int), pv[i as int]);
        }
        i += 1;
    }
    assert(pv.take(pairs.len() as int) =~= pv);
}

/// Parse and insert every override string, front first; malformed ones are
/// skipped.
fn insert_overrides_into(map: &mut indexmap::IndexMap<String, String>, overrides: &Vec<String>)
    ensures
        env_entries(*final(map)) == apply_overrides(env_entries(*old(map)), strs_view(overrides@)),
{
    let ghost ov = strs_view(overrides@);
    let mut i: usize = 0;
    assert(ov.take(0) =~= Seq::<Seq<char>>::empty());
    while i < overrides.len()
        invariant
            0 <= i <= overrides.len(),
            ov == strs_view(overrides@),
            env_entries(*map) == apply_overrides(env_entries(*old(map)), ov.take(i as int)),
        decreases overrides.len() - i,
    {
        assert(ov[i as int] == overrides@[i as int]@);
        match parse_override(overrides[i].as_str()) {
            Some(kv) => {
                env_map_insert(map, kv.0, kv.1);
            },
            None => {},
        }
        proof {
            assert(ov.take(i + 1) =~= ov.take(i as int).push(ov[i as int]));
            lemma_apply_overrides_push(env_entries(*old(map)), ov.take(i as int), ov[i as int]);
        }
        i += 1;
    }
    assert(ov.take(overrides.len() as int) =~= ov);
}

/// For a key defined by more than one tier, the merged value is the one
/// from the highest-precedence tier that defines it; tiers from lowest to
/// highest: ambient host environment, env file, explicit overrides.  Within
/// one tier a later entry for the same key wins.
pub proof fn lemma_highest_tier_wins(
    include_host_env: bool,
    host: Seq<(Seq<char>, Seq<char>)>,
    file: Option<Seq<(Seq<char>, Seq<char>)>>,
    ovs: Seq<Seq<char>>,
    k: Seq<char>,
)
    ensures
        lookup_keyed(spec_resolve(include_host_env, host, file, ovs), k) == (
        match override_value(ovs, k) {
            Some(v) => Some(v),
            None => match file {
                Some(f) => match batch_value(f, k) {
                    Some(v) => Some(v),
                    None => if include_host_env {
                        batch_value(host, k)
                    } else {
                        None
                    },
                },
                None => if include_host_env {
                    batch_value(host, k)
                } else {
                    None
                },
            },
        }),
{
    let base = if include_host_env {
        insert_all(Seq::<(Seq<char>, Seq<char>)>::empty(), host)
    } else {
        Seq::<(Seq<char>, Seq<char>)>::empty()
    };
    let with_file = match file {
        Some(f) => insert_all(base, f),
        None => base,
    };
    lemma_apply_overrides_lookup(with_file, ovs, k);
    match file {
        Some(f) => {
            lemma_insert_all_lookup(base, f, k);
        },
        None => {},
    }
    if include_host_env {
        lemma_insert_all_lookup(Seq::<(Seq<char>, Seq<char>)>::empty(), host, k);
    }
}

/// With the host environment excluded and no env file, the merged map holds
/// exactly the keys the override strings define, each with its last
/// overridden value.
pub proof fn lemma_overrides_only(
    host: Seq<(Seq<char>, Seq<char>)>,
    ovs: Seq<Seq<char>>,
    k: Seq<char>,
)
    ensures
        lookup_keyed(spec_resolve(false, host, None, ovs), k) == override_value(ovs, k),
{
    lemma_highest_tier_wins(false, host, None, ovs, k);
}

/// An override string without `=` contributes no entry: resolving with it
/// appended gives the very same merged list (and resolution still
/// succeeds, since `spec_resolve` is total).
pub proof fn lemma_malformed_override_inert(
    include_host_env: bool,
    host: Seq<(Seq<char>, Seq<char>)>,
    file: Option<Seq<(Seq<char>, Seq<char>)>>,
    ovs: Seq<Seq<char>>,
    o: Seq<char>,
)
    requires
        spec_parse_override(o) is None,
    ensures
        spec_resolve(include_host_env, host, file, ovs.push(o)) == spec_resolve(
            include_host_env,
            host,
            file,
            ovs,
        ),
{
    let base = if include_host_env {
        insert_all(Seq::<(Seq<char>, Seq<char>)>::empty(), host)
    } else {
        Seq::<(Seq<char>, Seq<char>)>::empty()
    };
    let with_file = match file {
        Some(f) => insert_all(base, f),
        None => base,
    };
    lemma_apply_overrides_push(with_file, ovs, o);
}

} // verus!
