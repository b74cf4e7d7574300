//! The sections of unit files as records, and the settings table each is written as: each field
//! under its name in PascalCase, absent fields left out.

use vstd::prelude::*;

use crate::toml_value::{lookup, Entry, TomlTable, TomlValue};
use super::ServiceType;

verus! {

/// `v` is the array of the given strings.
pub open spec fn is_strings(v: TomlValue, items: Seq<String>) -> bool {
    &&& v is Array
    &&& v->Array_0@.len() == items.len()
    &&& forall|i: int| 0 <= i < items.len() ==> #[trigger] v->Array_0@[i] == TomlValue::String(items[i])
}

/// The table holds `key` as text exactly when the field is present.
pub open spec fn text_at(t: Seq<Entry>, key: Seq<char>, v: Option<String>) -> bool {
    match v {
        Some(s) => lookup(t, key) == Some(TomlValue::String(s)),
        None => lookup(t, key) is None,
    }
}

/// The table holds `key` as a boolean exactly when the field is present.
pub open spec fn flag_at(t: Seq<Entry>, key: Seq<char>, v: Option<bool>) -> bool {
    match v {
        Some(b) => lookup(t, key) == Some(TomlValue::Boolean(b)),
        None => lookup(t, key) is None,
    }
}

/// The table holds `key` as an array of strings exactly when the field is present.
pub open spec fn list_at(t: Seq<Entry>, key: Seq<char>, v: Option<Vec<String>>) -> bool {
    match v {
        Some(items) => lookup(t, key) matches Some(x) && is_strings(x, items@),
        None => lookup(t, key) is None,
    }
}

/// The value of `k` among pairs: that of the last pair with that name, as text.
pub open spec fn pairs_lookup(ps: Seq<(String, String)>, k: Seq<char>) -> Option<TomlValue>
    decreases ps.len(),
{
    if ps.len() == 0 {
        None
    } else if ps.last().0@ == k {
        Some(TomlValue::String(ps.last().1))
    } else {
        pairs_lookup(ps.drop_last(), k)
    }
}

/// The array of the given strings.
fn strings_value(items: &Vec<String>) -> (r: TomlValue)
    ensures
        is_strings(r, items@),
{
    let mut a: Vec<TomlValue> = Vec::new();
    let mut i: usize = 0;
    while i < items.len()
        invariant
            i <= items@.len(),
            a@.len() == i,
            forall|j: int| 0 <= j < i ==> #[trigger] a@[j] == TomlValue::String(items@[j]),
        decreases items.len() - i,
    {
        a.push(TomlValue::String(items[i].clone()));
        i = i + 1;
    }
    TomlValue::Array(a)
}

/// Sets `key` to a text field when it is present.
fn put_text(t: &mut TomlTable, key: &str, v: &Option<String>)
    requires
        lookup(old(t)@, key@) is None,
    ensures
        text_at(final(t)@, key@, *v),
        forall|k: Seq<char>| k != key@ ==> #[trigger] lookup(final(t)@, k) == lookup(old(t)@, k),
{
    if let Some(s) = v {
        t.insert(key.to_string(), TomlValue::String(s.clone()));
    }
}

/// Sets `key` to a boolean field when it is present.
fn put_flag(t: &mut TomlTable, key: &str, v: Option<bool>)
    requires
        lookup(old(t)@, key@) is None,
    ensures
        flag_at(final(t)@, key@, v),
        forall|k: Seq<char>| k != key@ ==> #[trigger] lookup(final(t)@, k) == lookup(old(t)@, k),
{
    if let Some(b) = v {
        t.insert(key.to_string(), TomlValue::Boolean(b));
    }
}

/// Sets `key` to a list field when it is present.
fn put_list(t: &mut TomlTable, key: &str, v: &Option<Vec<String>>)
    requires
        lookup(old(t)@, key@) is None,
    ensures
        list_at(final(t)@, key@, *v),
        forall|k: Seq<char>| k != key@ ==> #[trigger] lookup(final(t)@, k) == lookup(old(t)@, k),
{
    if let Some(items) = v {
        t.insert(key.to_string(), strings_value(items));
    }
}

/// The table of named texts: each name with the text of its last pair.
pub fn pairs_table(pairs: &Vec<(String, String)>) -> (r: TomlTable)
    ensures
        forall|k: Seq<char>| #[trigger] lookup(r@, k) == pairs_lookup(pairs@, k),
{
    let mut t = TomlTable::new();
    let mut i: usize = 0;
    assert(pairs@.take(0) =~= Seq::<(String, String)>::empty());
    while i < pairs.len()
        invariant
            i <= pairs@.len(),
            forall|k: Seq<char>| #[trigger] lookup(t@, k) == pairs_lookup(pairs@.take(i as int), k),
        decreases pairs.len() - i,
    {
        let ghost before = t@;
        t.insert(pairs[i].0.clone(), TomlValue::String(pairs[i].1.clone()));
        proof {
            let pre = pairs@.take(i + 1);
            assert(pre.drop_last() =~= pairs@.take(i as int));
            assert(pre.last() == pairs@[i as int]);
            assert forall|k: Seq<char>| #[trigger] lookup(t@, k) == pairs_lookup(pre, k) by {
                assert(lookup(before, k) == pairs_lookup(pairs@.take(i as int), k));
            }
        }
        i = i + 1;
    }
    assert(pairs@.take(i as int) =~= pairs@);
    t
}

/// The `[Unit]` section.
#[derive(Debug, PartialEq)]
pub struct Unit {
    pub description: String,
    pub after: Option<Vec<String>>,
    pub requires: Option<Vec<String>>,
}

/// The `[Service]` section.
#[derive(Debug, PartialEq)]
pub struct Service {
    pub exec_start: String,
    pub exec_start_pre: Option<Vec<String>>,
    pub exec_start_post: Option<Vec<String>>,
    pub service_type: Option<ServiceType>,
    pub restart: Option<String>,
    pub user: Option<String>,
    pub environment: Option<Vec<(String, String)>>,
}

/// The `[Install]` section.
#[derive(Debug, PartialEq)]
pub struct Install {
    pub wanted_by: Vec<String>,
}

/// The `[Timer]` section.
#[derive(Debug, PartialEq)]
pub struct Timer {
    pub accuracy_sec: Option<String>,
    pub defer_reactivation: Option<bool>,
    pub fixed_random_delay: Option<bool>,
    pub on_active_sec: Option<String>,
    pub on_boot_sec: Option<String>,
    pub on_calendar: Option<Vec<String>>,
    pub on_clock_change: Option<String>,
    pub on_startup_sec: Option<String>,
    pub on_timezone_change: Option<String>,
    pub on_unit_active_sec: Option<String>,
    pub on_unit_inactive_sec: Option<String>,
    pub persistent: Option<bool>,
    pub randomized_delay_sec: Option<String>,
    pub randomized_offset_sec: Option<String>,
    pub remain_after_elapse: Option<bool>,
    pub unit: Option<String>,
    pub wake_system: Option<bool>,
}

/// The table holds `key` as the text of the value exactly when the field is present.
pub open spec fn named_at(t: Seq<Entry>, key: Seq<char>, v: Option<ServiceType>) -> bool {
    match v {
        Some(ty) => lookup(t, key) matches Some(x) && x matches TomlValue::String(s) && s@ == ty.spec_text(),
        None => lookup(t, key) is None,
    }
}

/// The table holds `key` as the table of the pairs exactly when the field is present.
pub open spec fn pairs_at(t: Seq<Entry>, key: Seq<char>, v: Option<Vec<(String, String)>>) -> bool {
    match v {
        Some(ps) => lookup(t, key) matches Some(x) && x matches TomlValue::Table(e) && forall|k: Seq<char>|
            #[trigger] lookup(e@, k) == pairs_lookup(ps@, k),
        None => lookup(t, key) is None,
    }
}

impl Unit {
    /// The settings of the section: each field under its name in PascalCase, absent ones left out.
    pub fn to_table(&self) -> (r: TomlTable)
        ensures
            lookup(r@, "Description"@) == Some(TomlValue::String(self.description)),
            list_at(r@, "After"@, self.after),
            list_at(r@, "Requires"@, self.requires),
            forall|k: Seq<char>| k != "Description"@ && k != "After"@ && k != "Requires"@ ==> #[trigger] lookup(r@, k) is None,
    {
        proof {
            reveal_strlit("Description");
            reveal_strlit("After");
            reveal_strlit("Requires");
            assert("Description"@ =~= seq!['D', 'e', 's', 'c', 'r', 'i', 'p', 't', 'i', 'o', 'n']);
            assert("After"@ =~= seq!['A', 'f', 't', 'e', 'r']);
            assert("Requires"@ =~= seq!['R', 'e', 'q', 'u', 'i', 'r', 'e', 's']);
        }
        let mut t = TomlTable::new();
        t.insert("Description".to_string(), TomlValue::String(self.description.clone()));
        put_list(&mut t, "After", &self.after);
        put_list(&mut t, "Requires", &self.requires);
        t
    }
}

impl Service {
    /// The settings of the section: each field under its name in PascalCase, absent ones left out.
    pub fn to_table(&self) -> (r: TomlTable)
        ensures
            lookup(r@, "ExecStart"@) == Some(TomlValue::String(self.exec_start)),
            list_at(r@, "ExecStartPre"@, self.exec_start_pre),
            list_at(r@, "ExecStartPost"@, self.exec_start_post),
            named_at(r@, "Type"@, self.service_type),
            text_at(r@, "Restart"@, self.restart),
            text_at(r@, "User"@, self.user),
            pairs_at(r@, "Environment"@, self.environment),
            forall|k: Seq<char>| k != "ExecStart"@ && k != "ExecStartPre"@ && k != "ExecStartPost"@ && k != "Type"@ && k != "Restart"@ && k != "User"@ && k != "Environment"@ ==> #[trigger] lookup(r@, k) is None,
    {
        proof {
            reveal_strlit("ExecStart");
            reveal_strlit("ExecStartPre");
            reveal_strlit("ExecStartPost");
            reveal_strlit("Type");
            reveal_strlit("Restart");
            reveal_strlit("User");
            reveal_strlit("Environment");
            assert("ExecStart"@ =~= seq!['E', 'x', 'e', 'c', 'S', 't', 'a', 'r', 't']);
            assert("ExecStartPre"@ =~= seq!['E', 'x', 'e', 'c', 'S', 't', 'a', 'r', 't', 'P', 'r', 'e']);
            assert("ExecStartPost"@ =~= seq!['E', 'x', 'e', 'c', 'S', 't', 'a', 'r', 't', 'P', 'o', 's', 't']);
            assert("Type"@ =~= seq!['T', 'y', 'p', 'e']);
            assert("Restart"@ =~= seq!['R', 'e', 's', 't', 'a', 'r', 't']);
            assert("User"@ =~= seq!['U', 's', 'e', 'r']);
            assert("Environment"@ =~= seq!['E', 'n', 'v', 'i', 'r', 'o', 'n', 'm', 'e', 'n', 't']);
        }
        let mut t = TomlTable::new();
        t.insert("ExecStart".to_string(), TomlValue::String(self.exec_start.clone()));
        put_list(&mut t, "ExecStartPre", &self.exec_start_pre);
        put_list(&mut t, "ExecStartPost", &self.exec_start_post);
        if let Some(ty) = &self.service_type {
            t.insert("Type".to_string(), TomlValue::String(ty.text().to_string()));
        }
        put_text(&mut t, "Restart", &self.restart);
        put_text(&mut t, "User", &self.user);
        if let Some(ps) = &self.environment {
            t.insert("Environment".to_string(), TomlValue::Table(pairs_table(ps)));
        }
        t
    }
}

impl Install {
    /// The settings of the section: each field under its name in PascalCase, absent ones left out.
    pub fn to_table(&self) -> (r: TomlTable)
        ensures
            lookup(r@, "WantedBy"@) matches Some(x) && is_strings(x, self.wanted_by@),
            forall|k: Seq<char>| k != "WantedBy"@ ==> #[trigger] lookup(r@, k) is None,
    {
        proof {
            reveal_strlit("WantedBy");
            assert("WantedBy"@ =~= seq!['W', 'a', 'n', 't', 'e', 'd', 'B', 'y']);
        }
        let mut t = TomlTable::new();
        t.insert("WantedBy".to_string(), strings_value(&self.wanted_by));
        t
    }
}

impl Timer {
    /// The settings of the section: each field under its name in PascalCase, absent ones left out.
    pub fn to_table(&self) -> (r: TomlTable)
        ensures
            text_at(r@, "AccuracySec"@, self.accuracy_sec),
            flag_at(r@, "DeferReactivation"@, self.defer_reactivation),
            flag_at(r@, "FixedRandomDelay"@, self.fixed_random_delay),
            text_at(r@, "OnActiveSec"@, self.on_active_sec),
            text_at(r@, "OnBootSec"@, self.on_boot_sec),
            list_at(r@, "OnCalendar"@, self.on_calendar),
            text_at(r@, "OnClockChange"@, self.on_clock_change),
            text_at(r@, "OnStartupSec"@, self.on_startup_sec),
            text_at(r@, "OnTimezoneChange"@, self.on_timezone_change),
            text_at(r@, "OnUnitActiveSec"@, self.on_unit_active_sec),
            text_at(r@, "OnUnitInactiveSec"@, self.on_unit_inactive_sec),
            flag_at(r@, "Persistent"@, self.persistent),
            text_at(r@, "RandomizedDelaySec"@, self.randomized_delay_sec),
            text_at(r@, "RandomizedOffsetSec"@, self.randomized_offset_sec),
            flag_at(r@, "RemainAfterElapse"@, self.remain_after_elapse),
            text_at(r@, "Unit"@, self.unit),
            flag_at(r@, "WakeSystem"@, self.wake_system),
            forall|k: Seq<char>| k != "AccuracySec"@ && k != "DeferReactivation"@ && k != "FixedRandomDelay"@ && k != "OnActiveSec"@ && k != "OnBootSec"@ && k != "OnCalendar"@ && k != "OnClockChange"@ && k != "OnStartupSec"@ && k != "OnTimezoneChange"@ && k != "OnUnitActiveSec"@ && k != "OnUnitInactiveSec"@ && k != "Persistent"@ && k != "RandomizedDelaySec"@ && k != "RandomizedOffsetSec"@ && k != "RemainAfterElapse"@ && k != "Unit"@ && k != "WakeSystem"@ ==> #[trigger] lookup(r@, k) is None,
    {
        proof {
            reveal_strlit("AccuracySec");
            reveal_strlit("DeferReactivation");
            reveal_strlit("FixedRandomDelay");
            reveal_strlit("OnActiveSec");
            reveal_strlit("OnBootSec");
            reveal_strlit("OnCalendar");
            reveal_strlit("OnClockChange");
            reveal_strlit("OnStartupSec");
            reveal_strlit("OnTimezoneChange");
            reveal_strlit("OnUnitActiveSec");
            reveal_strlit("OnUnitInactiveSec");
            reveal_strlit("Persistent");
            reveal_strlit("RandomizedDelaySec");
            reveal_strlit("RandomizedOffsetSec");
            reveal_strlit("RemainAfterElapse");
            reveal_strlit("Unit");
            reveal_strlit("WakeSystem");
            assert("AccuracySec"@ =~= seq!['A', 'c', 'c', 'u', 'r', 'a', 'c', 'y', 'S', 'e', 'c']);
            assert("DeferReactivation"@ =~= seq!['D', 'e', 'f', 'e', 'r', 'R', 'e', 'a', 'c', 't', 'i', 'v', 'a', 't', 'i', 'o', 'n']);
            assert("FixedRandomDelay"@ =~= seq!['F', 'i', 'x', 'e', 'd', 'R', 'a', 'n', 'd', 'o', 'm', 'D', 'e', 'l', 'a', 'y']);
            assert("OnActiveSec"@ =~= seq!['O', 'n', 'A', 'c', 't', 'i', 'v', 'e', 'S', 'e', 'c']);
            assert("OnBootSec"@ =~= seq!['O', 'n', 'B', 'o', 'o', 't', 'S', 'e', 'c']);
            assert("OnCalendar"@ =~= seq!['O', 'n', 'C', 'a', 'l', 'e', 'n', 'd', 'a', 'r']);
            assert("OnClockChange"@ =~= seq!['O', 'n', 'C', 'l', 'o', 'c', 'k', 'C', 'h', 'a', 'n', 'g', 'e']);
            assert("OnStartupSec"@ =~= seq!['O', 'n', 'S', 't', 'a', 'r', 't', 'u', 'p', 'S', 'e', 'c']);
            assert("OnTimezoneChange"@ =~= seq!['O', 'n', 'T', 'i', 'm', 'e', 'z', 'o', 'n', 'e', 'C', 'h', 'a', 'n', 'g', 'e']);
            assert("OnUnitActiveSec"@ =~= seq!['O', 'n', 'U', 'n', 'i', 't', 'A', 'c', 't', 'i', 'v', 'e', 'S', 'e', 'c']);
            assert("OnUnitInactiveSec"@ =~= seq!['O', 'n', 'U', 'n', 'i', 't', 'I', 'n', 'a', 'c', 't', 'i', 'v', 'e', 'S', 'e', 'c']);
            assert("Persistent"@ =~= seq!['P', 'e', 'r', 's', 'i', 's', 't', 'e', 'n', 't']);
            assert("RandomizedDelaySec"@ =~= seq!['R', 'a', 'n', 'd', 'o', 'm', 'i', 'z', 'e', 'd', 'D', 'e', 'l', 'a', 'y', 'S', 'e', 'c']);
            assert("RandomizedOffsetSec"@ =~= seq!['R', 'a', 'n', 'd', 'o', 'm', 'i', 'z', 'e', 'd', 'O', 'f', 'f', 's', 'e', 't', 'S', 'e', 'c']);
            assert("RemainAfterElapse"@ =~= seq!['R', 'e', 'm', 'a', 'i', 'n', 'A', 'f', 't', 'e', 'r', 'E', 'l', 'a', 'p', 's', 'e']);
            assert("Unit"@ =~= seq!['U', 'n', 'i', 't']);
            assert("WakeSystem"@ =~= seq!['W', 'a', 'k', 'e', 'S', 'y', 's', 't', 'e', 'm']);
        }
        let mut t = TomlTable::new();
        put_text(&mut t, "AccuracySec", &self.accuracy_sec);
        put_flag(&mut t, "DeferReactivation", self.defer_reactivation);
        put_flag(&mut t, "FixedRandomDelay", self.fixed_random_delay);
        put_text(&mut t, "OnActiveSec", &self.on_active_sec);
        put_text(&mut t, "OnBootSec", &self.on_boot_sec);
        put_list(&mut t, "OnCalendar", &self.on_calendar);
        put_text(&mut t, "OnClockChange", &self.on_clock_change);
        put_text(&mut t, "OnStartupSec", &self.on_startup_sec);
        put_text(&mut t, "OnTimezoneChange", &self.on_timezone_change);
        put_text(&mut t, "OnUnitActiveSec", &self.on_unit_active_sec);
        put_text(&mut t, "OnUnitInactiveSec", &self.on_unit_inactive_sec);
        put_flag(&mut t, "Persistent", self.persistent);
        put_text(&mut t, "RandomizedDelaySec", &self.randomized_delay_sec);
        put_text(&mut t, "RandomizedOffsetSec", &self.randomized_offset_sec);
        put_flag(&mut t, "RemainAfterElapse", self.remain_after_elapse);
        put_text(&mut t, "Unit", &self.unit);
        put_flag(&mut t, "WakeSystem", self.wake_system);
        t
    }
}

} // verus!
