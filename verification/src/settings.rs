//! The immutable rendering configuration record, built once from raw
//! key/value configuration entries.
use vstd::prelude::*;

use crate::strutil::str_eq;

verus! {

/// One raw configuration value: an integer, a text, or a flag.
pub enum ConfigValue {
    Int(i64),
    Text(String),
    Flag(bool),
}

/// Spec-level image of [`ConfigValue`].
pub ghost enum ConfigValueV {
    Int(i64),
    Text(Seq<char>),
    Flag(bool),
}

impl View for ConfigValue {
    type V = ConfigValueV;

    open spec fn view(&self) -> ConfigValueV {
        match self {
            ConfigValue::Int(v) => ConfigValueV::Int(*v),
            ConfigValue::Text(s) => ConfigValueV::Text(s@),
            ConfigValue::Flag(b) => ConfigValueV::Flag(*b),
        }
    }
}

/// One raw configuration entry.
pub struct ConfigEntry {
    pub key: String,
    pub value: ConfigValue,
}

/// Spec-level image of [`ConfigEntry`].
pub ghost struct ConfigEntryV {
    pub key: Seq<char>,
    pub value: ConfigValueV,
}

impl View for ConfigEntry {
    type V = ConfigEntryV;

    open spec fn view(&self) -> ConfigEntryV {
        ConfigEntryV { key: self.key@, value: self.value@ }
    }
}

/// Rendering options. A `None` field means the renderer's own documented
/// default applies.
pub struct Settings {
    pub font_size: Option<usize>,
    pub font_family: Option<String>,
    pub fill_color: Option<String>,
    pub background: Option<String>,
    pub stroke_color: Option<String>,
}

/// Spec-level image of [`Settings`].
pub ghost struct SettingsV {
    pub font_size: Option<usize>,
    pub font_family: Option<Seq<char>>,
    pub fill_color: Option<Seq<char>>,
    pub background: Option<Seq<char>>,
    pub stroke_color: Option<Seq<char>>,
}

pub open spec fn view_opt_string(o: Option<String>) -> Option<Seq<char>> {
    match o {
        Option::Some(s) => Option::Some(s@),
        Option::None => Option::None,
    }
}

impl View for Settings {
    type V = SettingsV;

    open spec fn view(&self) -> SettingsV {
        SettingsV {
            font_size: self.font_size,
            font_family: view_opt_string(self.font_family),
            fill_color: view_opt_string(self.fill_color),
            background: view_opt_string(self.background),
            stroke_color: view_opt_string(self.stroke_color),
        }
    }
}

/// The record every option of which defers to the renderer's defaults.
pub open spec fn spec_default_settings() -> SettingsV {
    SettingsV {
        font_size: Option::None,
        font_family: Option::None,
        fill_color: Option::None,
        background: Option::None,
        stroke_color: Option::None,
    }
}

impl Default for Settings {
    /// Every option deferred to the renderer's default.
    fn default() -> (r: Self)
        ensures
            r@ == spec_default_settings(),
    {
        Settings {
            font_size: Option::None,
            font_family: Option::None,
            fill_color: Option::None,
            background: Option::None,
            stroke_color: Option::None,
        }
    }
}

/// The effect of one configuration entry on a settings record: a recognized
/// key with a value of the right shape sets its option; anything else leaves
/// the record unchanged.
pub open spec fn apply_entry(s: SettingsV, e: ConfigEntryV) -> SettingsV {
    if e.key == "font_size"@ {
        match e.value {
            ConfigValueV::Int(v) => if v >= 0 {
                SettingsV { font_size: Option::Some(v as usize), ..s }
            } else {
                s
            },
            _ => s,
        }
    } else if e.key == "font_family"@ {
        match e.value {
            ConfigValueV::Text(t) => SettingsV { font_family: Option::Some(t), ..s },
            _ => s,
        }
    } else if e.key == "fill_color"@ {
        match e.value {
            ConfigValueV::Text(t) => SettingsV { fill_color: Option::Some(t), ..s },
            _ => s,
        }
    } else if e.key == "background"@ {
        match e.value {
            ConfigValueV::Text(t) => SettingsV { background: Option::Some(t), ..s },
            _ => s,
        }
    } else if e.key == "stroke_color"@ {
        match e.value {
            ConfigValueV::Text(t) => SettingsV { stroke_color: Option::Some(t), ..s },
            _ => s,
        }
    } else {
        s
    }
}

/// The settings record that a list of entries builds on top of `s`, applied
/// in order; a later entry overrides an earlier one with the same key.
pub open spec fn settings_from(s: SettingsV, entries: Seq<ConfigEntryV>) -> SettingsV
    decreases entries.len(),
{
    if entries.len() == 0 {
        s
    } else {
        settings_from(apply_entry(s, entries[0]), entries.drop_first())
    }
}

/// The settings record a list of raw entries denotes: defaults, overridden in
/// entry order by recognized keys. Unknown keys are ignored.
pub open spec fn spec_settings_of(entries: Seq<ConfigEntryV>) -> SettingsV {
    settings_from(spec_default_settings(), entries)
}

proof fn lemma_settings_from_unfold(s: SettingsV, entries: Seq<ConfigEntryV>, i: int)
    requires
        0 <= i < entries.len(),
    ensures
        settings_from(s, entries.skip(i)) == settings_from(
            apply_entry(s, entries[i]),
            entries.skip(i + 1),
        ),
{
    assert(entries.skip(i).len() > 0);
    assert(entries.skip(i)[0] == entries[i]);
    assert(entries.skip(i).drop_first() =~= entries.skip(i + 1));
}

fn apply_entry_exec(s: &mut Settings, e: &ConfigEntry)
    ensures
        final(s)@ == apply_entry(old(s)@, e@),
{
    if str_eq(e.key.as_str(), "font_size") {
        if let ConfigValue::Int(v) = &e.value {
            if *v >= 0 {
                s.font_size = Option::Some(*v as usize);
            }
        }
    } else if str_eq(e.key.as_str(), "font_family") {
        if let ConfigValue::Text(t) = &e.value {
            s.font_family = Option::Some(t.clone());
        }
    } else if str_eq(e.key.as_str(), "fill_color") {
        if let ConfigValue::Text(t) = &e.value {
            s.fill_color = Option::Some(t.clone());
        }
    } else if str_eq(e.key.as_str(), "background") {
        if let ConfigValue::Text(t) = &e.value {
            s.background = Option::Some(t.clone());
        }
    } else if str_eq(e.key.as_str(), "stroke_color") {
        if let ConfigValue::Text(t) = &e.value {
            s.stroke_color = Option::Some(t.clone());
        }
    }
}

/// Build the settings record from raw configuration entries. Recognized keys
/// set their option in entry order; unknown keys are ignored; missing keys
/// leave the renderer's defaults in force. Construction cannot fail.
pub fn from_config(entries: &Vec<ConfigEntry>) -> (r: Settings)
    ensures
        r@ == spec_settings_of(entries@.map_values(|e: ConfigEntry| e@)),
{
    let ghost entries_v = entries@.map_values(|e: ConfigEntry| e@);
    let mut s = Settings::default();
    proof {
        assert(entries_v.skip(0) =~= entries_v);
    }
    let mut i: usize = 0;
    while i < entries.len()
        invariant
            i <= entries.len(),
            entries_v == entries@.map_values(|e: ConfigEntry| e@),
            entries_v.len() == entries@.len(),
            settings_from(s@, entries_v.skip(i as int)) == spec_settings_of(entries_v),
        decreases entries.len() - i,
    {
        proof {
            lemma_settings_from_unfold(s@, entries_v, i as int);
            assert(entries_v[i as int] == entries@[i as int]@);
        }
        apply_entry_exec(&mut s, &entries[i]);
        i = i + 1;
    }
    proof {
        assert(entries_v.skip(entries_v.len() as int) =~= Seq::<ConfigEntryV>::empty());
    }
    s
}

} // verus!
