//! Where the configuration lives, and the services' tables laid one over another.

use vstd::prelude::*;

use crate::text::{path_join, spec_path_join};
use crate::toml_value::{has_key, lookup, Entry, TomlTable, TomlValue};
use crate::managed_config::table_views;

verus! {

/// The configuration directory.
#[derive(Debug, PartialEq)]
pub struct Config {
    pub base_path: String,
}

/// The value of `k` after laying `tables` one over another: that of the last table holding `k`.
pub open spec fn overlaid(tables: Seq<Seq<Entry>>, k: Seq<char>) -> Option<TomlValue>
    decreases tables.len(),
{
    if tables.len() == 0 {
        None
    } else if has_key(tables.last(), k) {
        lookup(tables.last(), k)
    } else {
        overlaid(tables.drop_last(), k)
    }
}

impl Config {
    /// The configuration directory: the one given, else `spec` under the user's configuration
    /// home.
    pub fn load(base_path_str: Option<String>, config_home: &str) -> (r: Self)
        ensures
            base_path_str matches Some(s) ==> r.base_path@ == s@,
            base_path_str is None ==> r.base_path@ == spec_path_join(config_home@, "spec"@),
    {
        match base_path_str {
            Some(s) => Config { base_path: s },
            None => Config { base_path: path_join(config_home, "spec") },
        }
    }

    /// The directory that holds the services' files.
    pub fn services_dir(&self) -> (r: String)
        ensures
            r@ == spec_path_join(self.base_path@, "services"@),
    {
        path_join(self.base_path.as_str(), "services")
    }

    /// Lays the tables read from the services directory one over another, in the order read:
    /// each key takes its value from the last table that holds it.
    pub fn load_services(&self, tables: Vec<TomlTable>) -> (r: TomlTable)
        ensures
            forall|k: Seq<char>| #[trigger] lookup(r@, k) == overlaid(table_views(tables@), k),
    {
        let ghost all = table_views(tables@);
        let ghost start = tables@;
        let mut rest = tables;
        let mut merged = TomlTable::new();
        let mut i: usize = 0;
        let n: usize = rest.len();
        proof {
            assert forall|k: Seq<char>| #[trigger] lookup(merged@, k) == overlaid(all.take(0), k) by {
                assert(all.take(0).len() == 0);
            }
        }
        while rest.len() > 0
            invariant
                all == table_views(start),
                start.len() == n,
                i + rest@.len() == n,
                rest@ == start.subrange(i as int, n as int),
                forall|k: Seq<char>| #[trigger] lookup(merged@, k) == overlaid(all.take(i as int), k),
            decreases rest.len(),
        {
            let t = rest.remove(0);
            let ghost before = merged@;
            let ghost tv = t@;
            assert(tv == all[i as int]);
            Self::merge_tables(&mut merged, t);
            proof {
                let pre = all.take(i + 1);
                assert(pre.drop_last() =~= all.take(i as int));
                assert(pre.last() == tv);
                assert forall|k: Seq<char>| #[trigger] lookup(merged@, k) == overlaid(pre, k) by {
                    assert(lookup(before, k) == overlaid(all.take(i as int), k));
                }
            }
            i = i + 1;
            assert(rest@ =~= start.subrange(i as int, n as int));
        }
        assert(all.take(i as int) =~= all);
        merged
    }

    /// Sets each key of `incoming` in `base` to its value there, replacing what `base` held.
    fn merge_tables(base: &mut TomlTable, incoming: TomlTable)
        ensures
            forall|k: Seq<char>| has_key(incoming@, k) ==> #[trigger] lookup(final(base)@, k) == lookup(incoming@, k),
            forall|k: Seq<char>| !has_key(incoming@, k) ==> #[trigger] lookup(final(base)@, k) == lookup(old(base)@, k),
    {
        let ghost inc = incoming@;
        let mut es = incoming.into_entries();
        let ghost all = es@;
        let n: usize = es.len();
        let mut i: usize = 0;
        while es.len() > 0
            invariant
                all == inc,
                crate::toml_value::sorted_keys(all),
                all.len() == n,
                i + es@.len() == n,
                es@ == all.subrange(i as int, n as int),
                forall|k: Seq<char>| has_key(all.take(i as int), k) ==> #[trigger] lookup(base@, k) == lookup(all.take(i as int), k),
                forall|k: Seq<char>| !has_key(all.take(i as int), k) ==> #[trigger] lookup(base@, k) == lookup(old(base)@, k),
            decreases es.len(),
        {
            let (key, value) = es.remove(0);
            let ghost k = key@;
            assert(all[i as int] == (key, value));
            base.insert(key, value);
            proof {
                assert forall|kk: Seq<char>| has_key(all.take(i + 1), kk) implies #[trigger] lookup(base@, kk) == lookup(all.take(i + 1), kk) by {
                    crate::toml_value::lemma_lookup_take(all, i as int, kk);
                }
                assert forall|kk: Seq<char>| !has_key(all.take(i + 1), kk) implies #[trigger] lookup(base@, kk) == lookup(old(base)@, kk) by {
                    crate::toml_value::lemma_lookup_take(all, i as int, kk);
                }
            }
            i = i + 1;
            assert(es@ =~= all.subrange(i as int, n as int));
        }
        assert(all.take(i as int) =~= all);
    }
}

} // verus!
