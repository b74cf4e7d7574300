//! The configuration of the managed services: the tables of all configuration files under
//! `services/`, merged one after another.

use vstd::prelude::*;

use crate::text::spec_path_join;
use crate::toml_value::{is_merge, merge_tables, parse_toml, table_depth, table_eq, tables_equal, toml_table_of, Entry, TomlTable};

verus! {

/// All services' configuration, one table per service name.
#[derive(Debug, PartialEq)]
pub struct ManagedServicesConfig {
    pub data: TomlTable,
}

/// The entries of each table.
pub open spec fn table_views(tables: Seq<TomlTable>) -> Seq<Seq<Entry>> {
    tables.map_values(|t: TomlTable| t@)
}

/// `res` is what merging `tables` one after another into an empty table gives.
pub open spec fn merged_in_turn(tables: Seq<Seq<Entry>>, res: Seq<Entry>) -> bool
    decreases tables.len(),
{
    if tables.len() == 0 {
        res.len() == 0
    } else {
        exists|mid: Seq<Entry>|
            #![trigger is_merge(mid, tables.last(), res, table_depth(tables.last()))]
            merged_in_turn(tables.drop_last(), mid) && is_merge(mid, tables.last(), res, table_depth(tables.last()))
    }
}

/// Every text is a TOML document.
pub open spec fn all_parse(texts: Seq<String>) -> bool {
    forall|i: int| 0 <= i < texts.len() ==> (#[trigger] toml_table_of(texts[i]@)) is Some
}

/// The tables the texts are read as.
pub open spec fn parsed_tables(texts: Seq<String>) -> Seq<Seq<Entry>> {
    texts.map_values(|t: String| toml_table_of(t@)->0)
}

/// Whether a file name has the extension `toml` (`Path::extension`: the text after the last
/// dot, where that dot is not the name's first character).
pub open spec fn is_toml_name(name: Seq<char>) -> bool {
    name.len() > 5 && name.subrange(name.len() - 5, name.len() as int) == ".toml"@
}

/// The directory, under the configuration directory, that holds the services' files.
pub fn services_dir(config_dir: &str) -> (r: String)
    ensures
        r@ == spec_path_join(config_dir@, "services"@),
{
    crate::text::path_join(config_dir, "services")
}

/// Whether a file of the services directory is read: its name ends in `.toml` after at least
/// one other character.
pub fn is_toml_file(name: &str) -> (r: bool)
    ensures
        r == is_toml_name(name@),
{
    let cs = crate::text::chars_of(name);
    let n = cs.len();
    if n <= 5 {
        return false;
    }
    proof {
        reveal_strlit(".toml");
    }
    let ok = cs[n - 5] == '.' && cs[n - 4] == 't' && cs[n - 3] == 'o' && cs[n - 2] == 'm' && cs[n - 1] == 'l';
    proof {
        let sub = name@.subrange(n - 5, n as int);
        assert(cs@ == name@);
        if ok {
            assert(sub =~= ".toml"@);
        } else if sub == ".toml"@ {
            assert(sub[0] == '.' && sub[1] == 't' && sub[2] == 'o' && sub[3] == 'm' && sub[4] == 'l');
        }
    }
    ok
}

impl ManagedServicesConfig {
    /// Merges the tables read from the services directory, in the order they were read.
    pub fn load(tables: Vec<TomlTable>) -> (r: Self)
        ensures
            merged_in_turn(table_views(tables@), r.data@),
    {
        let ghost all = table_views(tables@);
        let mut rest = tables;
        let mut merged = TomlTable::new();
        let ghost start = rest@;
        let mut i: usize = 0;
        let n: usize = rest.len();
        assert(table_views(start).take(0) =~= Seq::<Seq<Entry>>::empty());
        while rest.len() > 0
            invariant
                all == table_views(start),
                start.len() == n,
                i + rest@.len() == n,
                rest@ == start.subrange(i as int, n as int),
                merged_in_turn(all.take(i as int), merged@),
            decreases rest.len(),
        {
            let t = rest.remove(0);
            let ghost before = merged@;
            let ghost tv = t@;
            assert(tv == all[i as int]);
            merge_tables(&mut merged, t);
            proof {
                let pre = all.take(i + 1);
                assert(pre.drop_last() =~= all.take(i as int));
                assert(pre.last() == tv);
                assert(is_merge(before, pre.last(), merged@, table_depth(pre.last())));
            }
            i = i + 1;
            assert(rest@ =~= start.subrange(i as int, n as int));
        }
        assert(all.take(i as int) =~= all);
        ManagedServicesConfig { data: merged }
    }

    /// Whether this configuration is alike to another, such as that of the previous run (then
    /// there is nothing to do).
    pub fn same_as(&self, other: &ManagedServicesConfig) -> (r: bool)
        ensures
            r == table_eq(self.data@, other.data@),
    {
        tables_equal(&self.data, &other.data)
    }

    /// Reads the texts of the services directory's files, in the order read, as TOML
    /// documents and merges their tables; `None` when a text is not a TOML document.
    pub fn load_texts(texts: &Vec<String>) -> (r: Option<ManagedServicesConfig>)
        ensures
            r is Some <==> all_parse(texts@),
            r matches Some(c) ==> merged_in_turn(parsed_tables(texts@), c.data@),
    {
        let mut tables: Vec<TomlTable> = Vec::new();
        let mut i: usize = 0;
        while i < texts.len()
            invariant
                i <= texts@.len(),
                tables@.len() == i,
                forall|j: int| 0 <= j < i ==> (#[trigger] toml_table_of(texts@[j]@)) is Some,
                forall|j: int| 0 <= j < i ==> toml_table_of(texts@[j]@) == Some((#[trigger] tables@[j])@),
            decreases texts.len() - i,
        {
            match parse_toml(texts[i].as_str()) {
                Some(t) => {
                    tables.push(t);
                },
                None => {
                    return None;
                },
            }
            i = i + 1;
        }
        let ghost views_before = table_views(tables@);
        assert(views_before =~= parsed_tables(texts@)) by {
            assert forall|j: int| 0 <= j < tables@.len() implies #[trigger] views_before[j] == parsed_tables(texts@)[j] by {
                assert(toml_table_of(texts@[j]@) == Some(tables@[j]@));
            }
        }
        Some(ManagedServicesConfig::load(tables))
    }
}

} // verus!
