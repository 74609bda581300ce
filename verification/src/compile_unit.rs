//! Compilation units and the names of their cached object files.

use crate::builtin::bool_str;
use crate::configuration::{object_generation_data, Configuration};
use crate::constants::COMPILATION_UNITS_PATH;
use crate::hash::{lower_hex, md5_digest_of, md5_hex};
use crate::name::{full_name_str, string_eq, strings_view, FullName, SFullName};
use crate::path::{path_join, path_join_of};
use vstd::prelude::*;

verus! {

/// The abstract value of a list of (key, value) string pairs.
pub open spec fn pairs_view(v: Seq<(String, String)>) -> Seq<(Seq<char>, Seq<char>)> {
    v.map_values(|p: (String, String)| (p.0@, p.1@))
}

/// The value of the first pair whose key is `key`.
pub open spec fn lookup(m: Seq<(Seq<char>, Seq<char>)>, key: Seq<char>) -> Option<Seq<char>>
    decreases m.len(),
{
    if m.len() == 0 {
        None
    } else if m[0].0 == key {
        Some(m[0].1)
    } else {
        lookup(m.drop_first(), key)
    }
}

/// Whether no two pairs have the same key, as in a map.
pub open spec fn keys_distinct(m: Seq<(Seq<char>, Seq<char>)>) -> bool {
    m.map_values(|p: (Seq<char>, Seq<char>)| p.0).no_duplicates()
}

/// With distinct keys the pairs are a map: looking up the key of any pair gives its value,
/// wherever the pair stands.
pub proof fn lemma_lookup_distinct(m: Seq<(Seq<char>, Seq<char>)>, i: int)
    requires
        keys_distinct(m),
        0 <= i < m.len(),
    ensures
        lookup(m, m[i].0) == Some(m[i].1),
    decreases m.len(),
{
    let keys = m.map_values(|p: (Seq<char>, Seq<char>)| p.0);
    if i > 0 {
        let rest = m.drop_first();
        assert(keys[0] == m[0].0 && keys[i] == m[i].0);
        assert(m[0].0 != m[i].0);
        let rkeys = rest.map_values(|p: (Seq<char>, Seq<char>)| p.0);
        assert forall|a: int, b: int| 0 <= a < rkeys.len() && 0 <= b < rkeys.len() && a != b
            implies rkeys[a] != rkeys[b] by {
            assert(rkeys[a] == keys[a + 1] && rkeys[b] == keys[b + 1]);
        }
        assert(rest[i - 1] == m[i]);
        lemma_lookup_distinct(rest, i - 1);
    }
}

/// The abstract values of a list of full names.
pub open spec fn full_names_view(v: Seq<FullName>) -> Seq<SFullName> {
    v.map_values(|n: FullName| n@)
}

/// Whether every name has a module, and the module a hash in `mod_to_hash`.
pub open spec fn modules_hashed(names: Seq<SFullName>, mod_to_hash: Seq<(Seq<char>, Seq<char>)>) -> bool {
    forall|i: int|
        0 <= i < names.len() ==> #[trigger] names[i].namespace.len() > 0 && lookup(
            mod_to_hash,
            names[i].namespace[0],
        ) is Some
}

/// What is hashed to name a unit: the hash of the configuration, then each name followed by
/// the hash of its module.
pub open spec fn unit_data(
    names: Seq<SFullName>,
    mod_to_hash: Seq<(Seq<char>, Seq<char>)>,
    config_hash: Seq<char>,
) -> Seq<char>
    decreases names.len(),
{
    if names.len() == 0 {
        config_hash
    } else {
        unit_data(names.drop_last(), mod_to_hash, config_hash) + full_name_str(names.last())
            + lookup(mod_to_hash, names.last().namespace[0]).unwrap()
    }
}

/// The hash of the configuration, as `Configuration::object_generation_hash` gives it.
pub open spec fn config_hash_of(config: Configuration, build_time: Seq<char>) -> Seq<char> {
    lower_hex(md5_digest_of(object_generation_data(config, build_time)))
}

/// The name of the unit made of the symbols `names`.
pub open spec fn unit_hash_of(
    names: Seq<SFullName>,
    mod_to_hash: Seq<(Seq<char>, Seq<char>)>,
    config: Configuration,
    build_time: Seq<char>,
) -> Seq<char> {
    lower_hex(md5_digest_of(unit_data(names, mod_to_hash, config_hash_of(config, build_time))))
}

proof fn lemma_lookup_skip(m: Seq<(Seq<char>, Seq<char>)>, i: int, key: Seq<char>)
    requires
        0 <= i < m.len(),
        m[i].0 != key,
    ensures
        lookup(m.subrange(i, m.len() as int), key) == lookup(m.subrange(i + 1, m.len() as int), key),
{
    assert(m.subrange(i, m.len() as int).drop_first() =~= m.subrange(i + 1, m.len() as int));
}

/// Looks `key` up among the pairs, from the first.
fn lookup_hash<'a>(mod_to_hash: &'a Vec<(String, String)>, key: &String) -> (r: Option<&'a String>)
    ensures
        match r {
            Some(v) => lookup(pairs_view(mod_to_hash@), key@) == Some(v@),
            None => lookup(pairs_view(mod_to_hash@), key@) is None,
        },
{
    let ghost m = pairs_view(mod_to_hash@);
    let mut i: usize = 0;
    assert(m.subrange(0, m.len() as int) =~= m);
    while i < mod_to_hash.len()
        invariant
            i <= mod_to_hash.len(),
            m == pairs_view(mod_to_hash@),
            lookup(m, key@) == lookup(m.subrange(i as int, m.len() as int), key@),
        decreases mod_to_hash.len() - i,
    {
        let pair = &mod_to_hash[i];
        if string_eq(&pair.0, key) {
            assert(m.subrange(i as int, m.len() as int)[0] == m[i as int]);
            return Some(&pair.1);
        }
        proof {
            lemma_lookup_skip(m, i as int, key@);
        }
        i = i + 1;
    }
    None
}

/// The name of the unit made of the symbols `symbol_names`: the MD5 digest, in hexadecimal, of
/// the configuration's hash followed by each symbol and the hash of its module's sources.
fn unit_hash(
    symbol_names: &[FullName],
    mod_to_hash: &Vec<(String, String)>,
    config: &Configuration,
    build_time: &str,
) -> (r: String)
    requires
        keys_distinct(pairs_view(mod_to_hash@)),
        modules_hashed(full_names_view(symbol_names@), pairs_view(mod_to_hash@)),
    ensures
        r@ == unit_hash_of(
            full_names_view(symbol_names@),
            pairs_view(mod_to_hash@),
            *config,
            build_time@,
        ),
{
    let ghost names = full_names_view(symbol_names@);
    let ghost m = pairs_view(mod_to_hash@);
    let ghost ch = config_hash_of(*config, build_time@);
    let mut data = config.object_generation_hash(build_time);
    let mut i: usize = 0;
    while i < symbol_names.len()
        invariant
            i <= symbol_names.len(),
            names == full_names_view(symbol_names@),
            m == pairs_view(mod_to_hash@),
            modules_hashed(names, m),
            data@ == unit_data(names.subrange(0, i as int), m, ch),
        decreases symbol_names.len() - i,
    {
        let name = &symbol_names[i];
        assert(names[i as int] == name@);
        assert(names[i as int].namespace.len() > 0);
        data.append(name.to_string().as_str());
        let module = name.module();
        let hash = lookup_hash(mod_to_hash, &module);
        match hash {
            Some(h) => {
                data.append(h.as_str());
            },
            None => {
                assert(false);
            },
        }
        assert(names.subrange(0, i + 1).drop_last() =~= names.subrange(0, i as int));
        i = i + 1;
    }
    assert(names.subrange(0, symbol_names.len() as int) =~= names);
    md5_hex(data.as_str())
}

/// Whether the unit made of the symbols `symbol_names` has an object file among the cached ones.
fn is_cached(
    symbol_names: &[FullName],
    mod_to_hash: &Vec<(String, String)>,
    config: &Configuration,
    build_time: &str,
    cache_file_hash_list: &Vec<String>,
) -> (r: bool)
    requires
        keys_distinct(pairs_view(mod_to_hash@)),
        modules_hashed(full_names_view(symbol_names@), pairs_view(mod_to_hash@)),
    ensures
        r == strings_view(cache_file_hash_list@).contains(
            unit_hash_of(full_names_view(symbol_names@), pairs_view(mod_to_hash@), *config, build_time@),
        ),
{
    let hash = unit_hash(symbol_names, mod_to_hash, config, build_time);
    let ghost list = strings_view(cache_file_hash_list@);
    let mut i: usize = 0;
    while i < cache_file_hash_list.len()
        invariant
            i <= cache_file_hash_list.len(),
            list == strings_view(cache_file_hash_list@),
            hash@ == unit_hash_of(
                full_names_view(symbol_names@),
                pairs_view(mod_to_hash@),
                *config,
                build_time@,
            ),
            forall|j: int| 0 <= j < i ==> list[j] != hash@,
        decreases cache_file_hash_list.len() - i,
    {
        if string_eq(&cache_file_hash_list[i], &hash) {
            assert(list[i as int] == hash@);
            assert(list.contains(hash@));
            return true;
        }
        i = i + 1;
    }
    false
}

/// The object file of the unit named `unit_hash`: `<hash>.o` in the units directory.
pub open spec fn unit_file_path_of(unit_hash: Seq<char>) -> Seq<char> {
    path_join_of(COMPILATION_UNITS_PATH@, unit_hash + seq!['.', 'o'])
}

fn unit_file_path(unit_hash: &str) -> (r: String)
    ensures
        r@ == unit_file_path_of(unit_hash@),
{
    let mut file_name = String::from_str(unit_hash);
    file_name.append(".o");
    proof {
        reveal_strlit(".o");
        assert(file_name@ =~= unit_hash@ + seq!['.', 'o']);
    }
    path_join(COMPILATION_UNITS_PATH, file_name.as_str())
}

/// The abstract value of a compilation unit.
pub struct SCompileUnit {
    pub symbols: Seq<SFullName>,
    pub unit_hash: Seq<char>,
    pub is_cached: bool,
}

/// How a unit is described: its hash, its first and last symbols (`N/A` for none), and
/// whether it is cached.
pub open spec fn compile_unit_str(u: SCompileUnit) -> Seq<char> {
    let first = if u.symbols.len() > 0 { full_name_str(u.symbols[0]) } else { "N/A"@ };
    let last = if u.symbols.len() > 0 { full_name_str(u.symbols.last()) } else { "N/A"@ };
    "CompileUnit(hash = "@ + u.unit_hash + ", symbols[0] = "@ + first + ", symbols[-1] = "@ + last
        + ", is_cached = "@ + bool_str(u.is_cached) + ")"@
}

/// A compilation unit: symbols compiled together into one object file, named by a hash.
pub struct CompileUnit {
    symbols: Vec<FullName>,
    unit_hash: String,
    is_cached: bool,
}

impl View for CompileUnit {
    type V = SCompileUnit;

    closed spec fn view(&self) -> SCompileUnit {
        SCompileUnit {
            symbols: full_names_view(self.symbols@),
            unit_hash: self.unit_hash@,
            is_cached: self.is_cached,
        }
    }
}

fn copy_full_names(v: &[FullName]) -> (r: Vec<FullName>)
    ensures
        full_names_view(r@) == full_names_view(v@),
{
    let mut r: Vec<FullName> = Vec::new();
    let mut i: usize = 0;
    while i < v.len()
        invariant
            i <= v.len(),
            r@.len() == i,
            forall|k: int| 0 <= k < i ==> #[trigger] r@[k]@ == v@[k]@,
        decreases v.len() - i,
    {
        r.push(v[i].copy());
        i = i + 1;
    }
    assert(full_names_view(r@) =~= full_names_view(v@));
    r
}

impl CompileUnit {
    /// The unit of the symbols `symbols`, named by their hash.
    pub fn new(
        symbols: &[FullName],
        mod_to_hash: &Vec<(String, String)>,
        config: &Configuration,
        build_time: &str,
        is_cached: bool,
    ) -> (r: CompileUnit)
        requires
            keys_distinct(pairs_view(mod_to_hash@)),
            modules_hashed(full_names_view(symbols@), pairs_view(mod_to_hash@)),
        ensures
            r@ == (SCompileUnit {
                symbols: full_names_view(symbols@),
                unit_hash: unit_hash_of(
                    full_names_view(symbols@),
                    pairs_view(mod_to_hash@),
                    *config,
                    build_time@,
                ),
                is_cached: is_cached,
            }),
    {
        CompileUnit {
            unit_hash: unit_hash(symbols, mod_to_hash, config, build_time),
            symbols: copy_full_names(symbols),
            is_cached,
        }
    }

    /// Whether the unit of the symbols `symbols` has an object file among the cached ones, whose
    /// hashes are `cache_file_hash_list`.
    pub fn is_cached_among(
        symbols: &[FullName],
        mod_to_hash: &Vec<(String, String)>,
        config: &Configuration,
        build_time: &str,
        cache_file_hash_list: &Vec<String>,
    ) -> (r: bool)
        requires
            keys_distinct(pairs_view(mod_to_hash@)),
            modules_hashed(full_names_view(symbols@), pairs_view(mod_to_hash@)),
        ensures
            r == strings_view(cache_file_hash_list@).contains(
                unit_hash_of(full_names_view(symbols@), pairs_view(mod_to_hash@), *config, build_time@),
            ),
    {
        is_cached(symbols, mod_to_hash, config, build_time, cache_file_hash_list)
    }

    pub fn symbols(&self) -> (r: &Vec<FullName>)
        ensures
            full_names_view(r@) == self@.symbols,
    {
        &self.symbols
    }

    pub fn is_cached(&self) -> (r: bool)
        ensures
            r == self@.is_cached,
    {
        self.is_cached
    }

    pub fn set_unit_hash(&mut self, hash: String)
        ensures
            final(self)@ == (SCompileUnit { unit_hash: hash@, ..old(self)@ }),
    {
        self.unit_hash = hash;
    }

    pub fn to_string(&self) -> (r: String)
        ensures
            r@ == compile_unit_str(self@),
    {
        let n = self.symbols.len();
        let first = if n > 0 {
            self.symbols[0].to_string()
        } else {
            String::from_str("N/A")
        };
        let last = if n > 0 {
            self.symbols[n - 1].to_string()
        } else {
            String::from_str("N/A")
        };
        let mut r = String::from_str("CompileUnit(hash = ");
        r.append(self.unit_hash.as_str());
        r.append(", symbols[0] = ");
        r.append(first.as_str());
        r.append(", symbols[-1] = ");
        r.append(last.as_str());
        r.append(", is_cached = ");
        r.append(if self.is_cached {
            "true"
        } else {
            "false"
        });
        r.append(")");
        proof {
            reveal_strlit("true");
            reveal_strlit("false");
            if n > 0 {
                assert(self@.symbols[0] == self.symbols@[0]@);
                assert(self@.symbols.last() == self.symbols@[n - 1]@);
            }
        }
        r
    }

    /// The object file of this unit.
    pub fn obj_path(&self) -> (r: String)
        ensures
            r@ == unit_file_path_of(self@.unit_hash),
    {
        unit_file_path(self.unit_hash.as_str())
    }
}

} // verus!
