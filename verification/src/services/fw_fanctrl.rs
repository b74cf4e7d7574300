//! fw-fanctrl: its JSON configuration `fw-fanctrl/config.json`.

use vstd::prelude::*;

use crate::services::types::{FileArtifact, Paths, Plan, ServiceConfig};
use crate::services::{is_state_for, state_for, ManagedService};
use crate::text::{path_join, spec_path_join};
use crate::toml_value::{lookup, Entry, TomlTable, TomlValue};

verus! {

/// The Framework laptop fan controller.
pub struct FwFanCtrlService;

/// The configuration as JSON text, and the wanted state of the controller.
#[derive(Debug, PartialEq)]
pub struct FwFanCtrlConfig {
    pub json: String,
    pub service: Option<ServiceConfig>,
}

impl ManagedService for FwFanCtrlService {
    fn name(&self) -> (r: &'static str)
        ensures
            r@ == "fw-fanctrl"@,
    {
        "fw-fanctrl"
    }
}

impl FwFanCtrlService {
    /// `fw-fanctrl/config.json` under the system configuration directory holding the JSON
    /// text, and the state of the controller.
    pub fn plan(&self, config: &FwFanCtrlConfig, paths: &Paths) -> (r: Plan)
        ensures
            r.files@.len() == 1,
            r.files@[0].path@ == spec_path_join(paths.system_config@, "fw-fanctrl/config.json"@),
            r.files@[0].content@ == config.json@,
            r.files@[0].permissions == 0o644,
            r.files@[0].requires_root,
            is_state_for(r.service_state, "fw-fanctrl"@, config.service),
            r.addl_service_states is None,
    {
        let file = FileArtifact {
            path: path_join(paths.system_config.as_str(), "fw-fanctrl/config.json"),
            content: config.json.clone(),
            permissions: 0o644,
            requires_root: true,
        };
        let mut files = Vec::new();
        files.push(file);
        Plan { files, service_state: state_for(self.name(), config.service), addl_service_states: None }
    }
}

/// A point of a fan speed curve: the speed at a temperature.
#[derive(Debug, PartialEq, Eq, Structural, Clone, Copy)]
pub struct SpeedCurvePoint {
    pub temp: u32,
    pub speed: u32,
}

/// A fan strategy: how often the speed is updated, over what interval temperatures are
/// averaged, and the speed curve.
#[derive(Debug, PartialEq)]
pub struct Strategy {
    pub fan_speed_update_frequency: u32,
    pub moving_average_interval: u32,
    pub speed_curve: Vec<SpeedCurvePoint>,
}

/// The controller's settings: the default strategy, the one used on battery, and the
/// strategies by name.
#[derive(Debug, PartialEq)]
pub struct FanSettings {
    pub default_strategy: String,
    pub strategy_on_discharging: String,
    pub strategies: Vec<(String, Strategy)>,
}

/// `v` is the table of a curve point: `temp` and `speed`, and nothing else.
pub open spec fn is_point_value(v: TomlValue, p: SpeedCurvePoint) -> bool {
    &&& v is Table
    &&& lookup(v->Table_0@, "temp"@) == Some(TomlValue::Integer(p.temp as i64))
    &&& lookup(v->Table_0@, "speed"@) == Some(TomlValue::Integer(p.speed as i64))
    &&& forall|k: Seq<char>| k != "temp"@ && k != "speed"@ ==> #[trigger] lookup(v->Table_0@, k) is None
}

/// `v` is the array of the curve's points.
pub open spec fn is_curve_value(v: TomlValue, curve: Seq<SpeedCurvePoint>) -> bool {
    &&& v is Array
    &&& v->Array_0@.len() == curve.len()
    &&& forall|i: int| 0 <= i < curve.len() ==> is_point_value(#[trigger] v->Array_0@[i], curve[i])
}

/// `v` is the table of a strategy, its fields named in camelCase, and nothing else.
pub open spec fn is_strategy_value(v: TomlValue, st: Strategy) -> bool {
    &&& v is Table
    &&& lookup(v->Table_0@, "fanSpeedUpdateFrequency"@) == Some(TomlValue::Integer(st.fan_speed_update_frequency as i64))
    &&& lookup(v->Table_0@, "movingAverageInterval"@) == Some(TomlValue::Integer(st.moving_average_interval as i64))
    &&& lookup(v->Table_0@, "speedCurve"@) matches Some(c) && is_curve_value(c, st.speed_curve@)
    &&& forall|k: Seq<char>|
        k != "fanSpeedUpdateFrequency"@ && k != "movingAverageInterval"@ && k != "speedCurve"@
            ==> #[trigger] lookup(v->Table_0@, k) is None
}

/// The strategy of the last pair named `k`.
pub open spec fn strategy_named(ps: Seq<(String, Strategy)>, k: Seq<char>) -> Option<Strategy>
    decreases ps.len(),
{
    if ps.len() == 0 {
        None
    } else if ps.last().0@ == k {
        Some(ps.last().1)
    } else {
        strategy_named(ps.drop_last(), k)
    }
}

/// `t` holds, under each strategy name, the table of the last strategy of that name, and no
/// other name.
pub open spec fn is_strategies_table(t: Seq<Entry>, ps: Seq<(String, Strategy)>) -> bool {
    forall|k: Seq<char>|
        match #[trigger] strategy_named(ps, k) {
            Some(st) => lookup(t, k) matches Some(v) && is_strategy_value(v, st),
            None => lookup(t, k) is None,
        }
}

/// The table of a curve point.
fn point_value(p: SpeedCurvePoint) -> (r: TomlValue)
    ensures
        is_point_value(r, p),
{
    proof {
        reveal_strlit("temp");
        reveal_strlit("speed");
        assert("temp"@ =~= seq!['t', 'e', 'm', 'p']);
        assert("speed"@ =~= seq!['s', 'p', 'e', 'e', 'd']);
    }
    let mut t = TomlTable::new();
    t.insert("temp".to_string(), TomlValue::Integer(p.temp as i64));
    t.insert("speed".to_string(), TomlValue::Integer(p.speed as i64));
    TomlValue::Table(t)
}

impl Strategy {
    /// The table of the strategy, its fields named in camelCase.
    pub fn to_value(&self) -> (r: TomlValue)
        ensures
            is_strategy_value(r, *self),
    {
        proof {
            reveal_strlit("fanSpeedUpdateFrequency");
            reveal_strlit("movingAverageInterval");
            reveal_strlit("speedCurve");
            assert("fanSpeedUpdateFrequency"@ =~= seq!['f', 'a', 'n', 'S', 'p', 'e', 'e', 'd', 'U', 'p', 'd', 'a', 't', 'e', 'F', 'r', 'e', 'q', 'u', 'e', 'n', 'c', 'y']);
            assert("movingAverageInterval"@ =~= seq!['m', 'o', 'v', 'i', 'n', 'g', 'A', 'v', 'e', 'r', 'a', 'g', 'e', 'I', 'n', 't', 'e', 'r', 'v', 'a', 'l']);
            assert("speedCurve"@ =~= seq!['s', 'p', 'e', 'e', 'd', 'C', 'u', 'r', 'v', 'e']);
        }
        let mut curve: Vec<TomlValue> = Vec::new();
        let mut i: usize = 0;
        while i < self.speed_curve.len()
            invariant
                i <= self.speed_curve@.len(),
                curve@.len() == i,
                forall|j: int| 0 <= j < i ==> is_point_value(#[trigger] curve@[j], self.speed_curve@[j]),
            decreases self.speed_curve.len() - i,
        {
            curve.push(point_value(self.speed_curve[i]));
            i = i + 1;
        }
        let mut t = TomlTable::new();
        t.insert("fanSpeedUpdateFrequency".to_string(), TomlValue::Integer(self.fan_speed_update_frequency as i64));
        t.insert("movingAverageInterval".to_string(), TomlValue::Integer(self.moving_average_interval as i64));
        t.insert("speedCurve".to_string(), TomlValue::Array(curve));
        TomlValue::Table(t)
    }
}

impl FanSettings {
    /// The settings as the controller's configuration reads them: fields named in camelCase,
    /// each strategy under its own name.
    pub fn to_table(&self) -> (r: TomlTable)
        ensures
            lookup(r@, "defaultStrategy"@) == Some(TomlValue::String(self.default_strategy)),
            lookup(r@, "strategyOnDischarging"@) == Some(TomlValue::String(self.strategy_on_discharging)),
            lookup(r@, "strategies"@) matches Some(v) && v is Table && is_strategies_table(v->Table_0@, self.strategies@),
            forall|k: Seq<char>|
                k != "defaultStrategy"@ && k != "strategyOnDischarging"@ && k != "strategies"@
                    ==> #[trigger] lookup(r@, k) is None,
    {
        proof {
            reveal_strlit("defaultStrategy");
            reveal_strlit("strategyOnDischarging");
            reveal_strlit("strategies");
            assert("defaultStrategy"@ =~= seq!['d', 'e', 'f', 'a', 'u', 'l', 't', 'S', 't', 'r', 'a', 't', 'e', 'g', 'y']);
            assert("strategyOnDischarging"@ =~= seq!['s', 't', 'r', 'a', 't', 'e', 'g', 'y', 'O', 'n', 'D', 'i', 's', 'c', 'h', 'a', 'r', 'g', 'i', 'n', 'g']);
            assert("strategies"@ =~= seq!['s', 't', 'r', 'a', 't', 'e', 'g', 'i', 'e', 's']);
        }
        let mut st = TomlTable::new();
        let mut i: usize = 0;
        let ps = &self.strategies;
        assert(ps@.take(0) =~= Seq::<(String, Strategy)>::empty());
        while i < ps.len()
            invariant
                i <= ps@.len(),
                is_strategies_table(st@, ps@.take(i as int)),
            decreases ps.len() - i,
        {
            let ghost before = st@;
            let v = ps[i].1.to_value();
            st.insert(ps[i].0.clone(), v);
            proof {
                let pre = ps@.take(i + 1);
                assert(pre.drop_last() =~= ps@.take(i as int));
                assert(pre.last() == ps@[i as int]);
                assert forall|k: Seq<char>|
                    match #[trigger] strategy_named(pre, k) {
                        Some(s) => lookup(st@, k) matches Some(w) && is_strategy_value(w, s),
                        None => lookup(st@, k) is None,
                    } by {
                    let _ = strategy_named(ps@.take(i as int), k);
                }
            }
            i = i + 1;
        }
        assert(ps@.take(i as int) =~= ps@);
        let mut t = TomlTable::new();
        t.insert("defaultStrategy".to_string(), TomlValue::String(self.default_strategy.clone()));
        t.insert("strategyOnDischarging".to_string(), TomlValue::String(self.strategy_on_discharging.clone()));
        t.insert("strategies".to_string(), TomlValue::Table(st));
        t
    }
}

} // verus!
