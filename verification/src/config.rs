//! Validation and compilation of a parsed configuration. Parsing the TOML text and
//! the floating-point checks are done by the caller, which hands their outcomes in.

use vstd::prelude::*;
use crate::geometry::{geometry_error_text, GeometryError};
use crate::text::{append_decimal, decimal_text, is_blank, is_blank_text, text_eq};
use vstd::string::*;
use crate::rules::{compile_result_ok, rule_fault, CompiledRules, RuleConfig};

verus! {

#[verifier::external_type_specification]
#[verifier::external_body]
pub struct ExTomlError(toml::de::Error);

/// The only configuration format version this library understands.
pub const CONFIG_VERSION: u32 = 1;

/// Reasons a candidate configuration is refused.
#[derive(Debug)]
pub enum ConfigError {
    Parse(toml::de::Error),
    UnsupportedVersion { found: u32, expected: u32 },
    InvalidGap,
    InvalidTolerance,
    EmptyLayoutName,
    DuplicateLayout(String),
    EmptyLayout(String),
    DuplicateZone { layout: String, zone: String },
    InvalidZone { layout: String, zone: String, message: String },
    UnknownOutputLayout { output: String, layout: String },
    EmptyRuleZone { index: usize },
    ConflictingAppMatcher { index: usize },
    InvalidRegex { index: usize, field: &'static str, message: String },
    UnknownRuleLayout { index: usize, layout: String },
    UnknownRuleZone { index: usize, layout: String, zone: String },
}

/// Renders a `toml::de::Error` with its `Display` impl. What the text says is not stated.
#[verifier::external_body]
fn toml_error_message(error: &toml::de::Error) -> String {
    error.to_string()
}

/// The message of each configuration error but a parse failure, whose text comes
/// from the TOML parser.
pub open spec fn config_error_text(e: ConfigError) -> Seq<char> {
    match e {
        ConfigError::Parse(_) => "could not parse config: "@,
        ConfigError::UnsupportedVersion { found, expected } => "unsupported config version "@ + decimal_text(
            found as nat,
        ) + "; expected "@ + decimal_text(expected as nat),
        ConfigError::InvalidGap => "general.gap must be finite and >= 0"@,
        ConfigError::InvalidTolerance => "general.geometry_tolerance must be finite and >= 0"@,
        ConfigError::EmptyLayoutName => "layout name cannot be empty"@,
        ConfigError::DuplicateLayout(name) => "duplicate layout name: "@ + name@,
        ConfigError::EmptyLayout(name) => "layout "@ + name@ + " must contain at least one zone"@,
        ConfigError::DuplicateZone { layout, zone } => "layout "@ + layout@ + " contains duplicate zone id: "@
            + zone@,
        ConfigError::InvalidZone { layout, zone, message } => "invalid geometry for "@ + layout@ + "/"@ + zone@
            + ": "@ + message@,
        ConfigError::UnknownOutputLayout { output, layout } => "output "@ + output@
            + " references unknown layout "@ + layout@,
        ConfigError::EmptyRuleZone { index } => "rule "@ + decimal_text(index as nat) + " must set zone"@,
        ConfigError::ConflictingAppMatcher { index } => "rule "@ + decimal_text(index as nat)
            + " sets both app_id and app_id_regex; choose one"@,
        ConfigError::InvalidRegex { index, field, message } => "rule "@ + decimal_text(index as nat)
            + " has invalid "@ + field@ + " regex: "@ + message@,
        ConfigError::UnknownRuleLayout { index, layout } => "rule "@ + decimal_text(index as nat)
            + " references unknown layout "@ + layout@,
        ConfigError::UnknownRuleZone { index, layout, zone } => "rule "@ + decimal_text(index as nat)
            + " references unknown zone "@ + zone@ + " in layout "@ + layout@,
    }
}

impl ConfigError {
    /// The human-readable description of the error. A parse failure is described
    /// by the TOML parser after a fixed prefix.
    pub fn message(&self) -> (r: String)
        ensures
            self is Parse ==> exists|detail: Seq<char>| r@ == config_error_text(*self) + detail,
            !(self is Parse) ==> r@ == config_error_text(*self),
    {
        match self {
            ConfigError::Parse(error) => {
                let mut s = String::from_str("could not parse config: ");
                let detail = toml_error_message(error);
                s.append(detail.as_str());
                assert(s@ == config_error_text(*self) + detail@);
                s
            },
            ConfigError::UnsupportedVersion { found, expected } => {
                let mut s = String::from_str("unsupported config version ");
                append_decimal(&mut s, *found as u64);
                s.append("; expected ");
                append_decimal(&mut s, *expected as u64);
                s
            },
            ConfigError::InvalidGap => String::from_str("general.gap must be finite and >= 0"),
            ConfigError::InvalidTolerance => String::from_str(
                "general.geometry_tolerance must be finite and >= 0",
            ),
            ConfigError::EmptyLayoutName => String::from_str("layout name cannot be empty"),
            ConfigError::DuplicateLayout(name) => {
                let mut s = String::from_str("duplicate layout name: ");
                s.append(name.as_str());
                s
            },
            ConfigError::EmptyLayout(name) => {
                let mut s = String::from_str("layout ");
                s.append(name.as_str());
                s.append(" must contain at least one zone");
                s
            },
            ConfigError::DuplicateZone { layout, zone } => {
                let mut s = String::from_str("layout ");
                s.append(layout.as_str());
                s.append(" contains duplicate zone id: ");
                s.append(zone.as_str());
                s
            },
            ConfigError::InvalidZone { layout, zone, message } => {
                let mut s = String::from_str("invalid geometry for ");
                s.append(layout.as_str());
                s.append("/");
                s.append(zone.as_str());
                s.append(": ");
                s.append(message.as_str());
                s
            },
            ConfigError::UnknownOutputLayout { output, layout } => {
                let mut s = String::from_str("output ");
                s.append(output.as_str());
                s.append(" references unknown layout ");
                s.append(layout.as_str());
                s
            },
            ConfigError::EmptyRuleZone { index } => {
                let mut s = String::from_str("rule ");
                append_decimal(&mut s, *index as u64);
                s.append(" must set zone");
                s
            },
            ConfigError::ConflictingAppMatcher { index } => {
                let mut s = String::from_str("rule ");
                append_decimal(&mut s, *index as u64);
                s.append(" sets both app_id and app_id_regex; choose one");
                s
            },
            ConfigError::InvalidRegex { index, field, message } => {
                let mut s = String::from_str("rule ");
                append_decimal(&mut s, *index as u64);
                s.append(" has invalid ");
                s.append(field);
                s.append(" regex: ");
                s.append(message.as_str());
                s
            },
            ConfigError::UnknownRuleLayout { index, layout } => {
                let mut s = String::from_str("rule ");
                append_decimal(&mut s, *index as u64);
                s.append(" references unknown layout ");
                s.append(layout.as_str());
                s
            },
            ConfigError::UnknownRuleZone { index, layout, zone } => {
                let mut s = String::from_str("rule ");
                append_decimal(&mut s, *index as u64);
                s.append(" references unknown zone ");
                s.append(zone.as_str());
                s.append(" in layout ");
                s.append(layout.as_str());
                s
            },
        }
    }
}

/// A zone of a configured layout: its id, its name and the outcome of the
/// normalized-rectangle check on its geometry (`None` when it is valid).
#[derive(Debug, Clone)]
pub struct ZoneEntry {
    pub id: String,
    pub name: String,
    pub geometry: Option<GeometryError>,
}

/// A configured layout: a name and its zones in file order.
#[derive(Debug, Clone)]
pub struct LayoutEntry {
    pub name: String,
    pub zones: Vec<ZoneEntry>,
}

/// The layout an output is bound to.
#[derive(Debug, Clone)]
pub struct OutputConfig {
    pub layout: String,
}

/// A zone of `l` carries `zone` as its id or its name.
pub open spec fn zone_in_layout(l: LayoutEntry, zone: Seq<char>) -> bool {
    exists|k: int|
        #![trigger l.zones@[k]]
        0 <= k < l.zones@.len() && (l.zones@[k].id@ == zone || l.zones@[k].name@ == zone)
}

/// Whether a zone of the layout is known under `zone`, by id or by name.
pub fn layout_has_zone(layout: &LayoutEntry, zone: &str) -> (r: bool)
    ensures
        r == zone_in_layout(*layout, zone@),
{
    let n = layout.zones.len();
    let mut k: usize = 0;
    while k < n
        invariant
            n == layout.zones@.len(),
            k <= n,
            forall|j: int|
                #![trigger layout.zones@[j]]
                0 <= j < k ==> !(layout.zones@[j].id@ == zone@ || layout.zones@[j].name@ == zone@),
        decreases n - k,
    {
        let candidate = &layout.zones[k];
        if text_eq(candidate.id.as_str(), zone) || text_eq(candidate.name.as_str(), zone) {
            return true;
        }
        k = k + 1;
    }
    false
}

/// Some layout in `ls` is named `name`.
pub open spec fn layout_named(ls: Seq<LayoutEntry>, name: Seq<char>) -> bool {
    exists|j: int| 0 <= j < ls.len() && #[trigger] ls[j].name@ == name
}

/// No two layouts in `ls` share a name.
pub open spec fn layout_names_unique(ls: Seq<LayoutEntry>) -> bool {
    forall|i: int, j: int| 0 <= i < j < ls.len() ==> #[trigger] ls[i].name@ != #[trigger] ls[j].name@
}

/// The position of the layout named `name`, if there is one.
pub fn find_layout(layouts: &[LayoutEntry], name: &str) -> (r: Option<usize>)
    ensures
        r matches Some(j) ==> j < layouts@.len() && layouts@[j as int].name@ == name@,
        r is None <==> !layout_named(layouts@, name@),
{
    let n = layouts.len();
    let mut j: usize = 0;
    while j < n
        invariant
            n == layouts@.len(),
            j <= n,
            forall|k: int| 0 <= k < j ==> #[trigger] layouts@[k].name@ != name@,
        decreases n - j,
    {
        if text_eq(layouts[j].name.as_str(), name) {
            return Some(j);
        }
        j = j + 1;
    }
    None
}

} // verus!
verus! {

/// Zone `k` of `zones` repeats the id of an earlier zone.
pub open spec fn zone_id_repeats(zones: Seq<ZoneEntry>, k: int) -> bool {
    exists|j: int| 0 <= j < k && #[trigger] zones[j].id@ == zones[k].id@
}

/// Zone `k` of `zones` passes its checks: a fresh id and valid geometry.
pub open spec fn zone_ok(zones: Seq<ZoneEntry>, k: int) -> bool {
    !zone_id_repeats(zones, k) && zones[k].geometry is None
}

/// Layout `i` of `ls` has a non-blank name, at least one zone, a name not used by
/// an earlier layout, and zones that all pass their checks.
pub open spec fn layout_ok(ls: Seq<LayoutEntry>, i: int) -> bool {
    &&& !is_blank_text(ls[i].name@)
    &&& ls[i].zones@.len() > 0
    &&& !(exists|j: int| 0 <= j < i && #[trigger] ls[j].name@ == ls[i].name@)
    &&& forall|k: int| 0 <= k < ls[i].zones@.len() ==> #[trigger] zone_ok(ls[i].zones@, k)
}

/// Every layout of `ls` passes its checks.
pub open spec fn layouts_ok(ls: Seq<LayoutEntry>) -> bool {
    forall|i: int| 0 <= i < ls.len() ==> #[trigger] layout_ok(ls, i)
}

/// `e` is the error reported for the first failing zone of layout `l`.
pub open spec fn reports_zone_failure(e: ConfigError, l: LayoutEntry) -> bool {
    exists|k: int|
        0 <= k < l.zones@.len() && (forall|j: int| 0 <= j < k ==> #[trigger] zone_ok(l.zones@, j))
            && !#[trigger] zone_ok(l.zones@, k) && if zone_id_repeats(l.zones@, k) {
            match e {
                ConfigError::DuplicateZone { layout, zone } => layout@ == l.name@ && zone@
                    == l.zones@[k].id@,
                _ => false,
            }
        } else {
            match e {
                ConfigError::InvalidZone { layout, zone, message } => layout@ == l.name@ && zone@
                    == l.zones@[k].id@ && message@ == geometry_error_text(
                    l.zones@[k].geometry->0,
                ),
                _ => false,
            }
        }
}

/// `e` is the error reported for layout `i` of `ls`, which fails its checks.
pub open spec fn reports_layout_failure(e: ConfigError, ls: Seq<LayoutEntry>, i: int) -> bool {
    if is_blank_text(ls[i].name@) {
        e matches ConfigError::EmptyLayoutName
    } else if ls[i].zones@.len() == 0 {
        match e {
            ConfigError::EmptyLayout(name) => name@ == ls[i].name@,
            _ => false,
        }
    } else if exists|j: int| 0 <= j < i && #[trigger] ls[j].name@ == ls[i].name@ {
        match e {
            ConfigError::DuplicateLayout(name) => name@ == ls[i].name@,
            _ => false,
        }
    } else {
        reports_zone_failure(e, ls[i])
    }
}

/// The outcome of checking the configured layouts: `Ok` when all pass, otherwise
/// the error of the first layout that fails.
pub open spec fn layouts_result_ok(ls: Seq<LayoutEntry>, r: Result<(), ConfigError>) -> bool {
    match r {
        Ok(_) => layouts_ok(ls),
        Err(e) => exists|i: int|
            0 <= i < ls.len() && (forall|j: int| 0 <= j < i ==> #[trigger] layout_ok(ls, j))
                && !#[trigger] layout_ok(ls, i) && reports_layout_failure(e, ls, i),
    }
}

/// Layouts that all pass their checks have distinct names.
pub proof fn lemma_valid_layouts_have_unique_names(ls: Seq<LayoutEntry>)
    requires
        layouts_ok(ls),
    ensures
        layout_names_unique(ls),
{
    assert forall|i: int, j: int| 0 <= i < j < ls.len() implies #[trigger] ls[i].name@
        != #[trigger] ls[j].name@ by {
        assert(layout_ok(ls, j));
    }
}

fn check_zones(layout: &LayoutEntry) -> (r: Result<(), ConfigError>)
    ensures
        match r {
            Ok(_) => forall|k: int| 0 <= k < layout.zones@.len() ==> #[trigger] zone_ok(layout.zones@, k),
            Err(e) => reports_zone_failure(e, *layout),
        },
{
    let n = layout.zones.len();
    let mut k: usize = 0;
    while k < n
        invariant
            n == layout.zones@.len(),
            k <= n,
            forall|j: int| 0 <= j < k ==> #[trigger] zone_ok(layout.zones@, j),
        decreases n - k,
    {
        let zone = &layout.zones[k];
        let mut j: usize = 0;
        while j < k
            invariant
                n == layout.zones@.len(),
                j <= k < n,
                zone == layout.zones@[k as int],
                forall|m: int| 0 <= m < k ==> #[trigger] zone_ok(layout.zones@, m),
                forall|m: int| 0 <= m < j ==> #[trigger] layout.zones@[m].id@ != zone.id@,
            decreases k - j,
        {
            if text_eq(layout.zones[j].id.as_str(), zone.id.as_str()) {
                assert(zone_id_repeats(layout.zones@, k as int));
                assert(!zone_ok(layout.zones@, k as int));
                let e = ConfigError::DuplicateZone {
                    layout: layout.name.clone(),
                    zone: zone.id.clone(),
                };
                return Err(e);
            }
            j = j + 1;
        }
        assert(!zone_id_repeats(layout.zones@, k as int));
        match zone.geometry {
            Some(g) => {
                assert(!zone_ok(layout.zones@, k as int));
                let message = g.message();
                return Err(
                    ConfigError::InvalidZone {
                        layout: layout.name.clone(),
                        zone: zone.id.clone(),
                        message,
                    },
                );
            },
            None => {},
        }
        assert(zone_ok(layout.zones@, k as int));
        k = k + 1;
    }
    Ok(())
}

/// Checks the configured layouts in file order and reports the first problem found.
pub fn check_layouts(layouts: &[LayoutEntry]) -> (r: Result<(), ConfigError>)
    ensures
        layouts_result_ok(layouts@, r),
{
    let n = layouts.len();
    let mut i: usize = 0;
    while i < n
        invariant
            n == layouts@.len(),
            i <= n,
            forall|j: int| 0 <= j < i ==> #[trigger] layout_ok(layouts@, j),
        decreases n - i,
    {
        let layout = &layouts[i];
        if is_blank(layout.name.as_str()) {
            assert(!layout_ok(layouts@, i as int));
            return Err(ConfigError::EmptyLayoutName);
        }
        if layout.zones.len() == 0 {
            assert(!layout_ok(layouts@, i as int));
            return Err(ConfigError::EmptyLayout(layout.name.clone()));
        }
        let mut j: usize = 0;
        while j < i
            invariant
                n == layouts@.len(),
                j <= i < n,
                layout == layouts@[i as int],
                !is_blank_text(layout.name@),
                layout.zones@.len() > 0,
                forall|m: int| 0 <= m < i ==> #[trigger] layout_ok(layouts@, m),
                forall|m: int| 0 <= m < j ==> #[trigger] layouts@[m].name@ != layout.name@,
            decreases i - j,
        {
            if text_eq(layouts[j].name.as_str(), layout.name.as_str()) {
                assert(layouts@[j as int].name@ == layouts@[i as int].name@);
                assert(!layout_ok(layouts@, i as int));
                return Err(ConfigError::DuplicateLayout(layout.name.clone()));
            }
            j = j + 1;
        }
        match check_zones(layout) {
            Ok(_) => {},
            Err(e) => {
                assert(!layout_ok(layouts@, i as int));
                return Err(e);
            },
        }
        assert(layout_ok(layouts@, i as int));
        i = i + 1;
    }
    Ok(())
}

} // verus!
verus! {

/// A parsed configuration, as the checks read it. The floating-point settings
/// have already been judged by the caller: `gap_is_valid` says whether the gap is
/// finite and non-negative, `tolerance_is_valid` the same of the geometry tolerance.
#[derive(Debug, Clone)]
pub struct ConfigDocument {
    pub version: u32,
    pub gap_is_valid: bool,
    pub tolerance_is_valid: bool,
    pub outputs: Vec<(String, OutputConfig)>,
    pub layouts: Vec<LayoutEntry>,
    pub rules: Vec<RuleConfig>,
}

/// Output `i` of `outs` names a layout that `ls` does not define.
pub open spec fn output_unknown(outs: Seq<(String, OutputConfig)>, ls: Seq<LayoutEntry>, i: int) -> bool {
    !layout_named(ls, outs[i].1.layout@)
}

/// Every output of `outs` names a layout of `ls`.
pub open spec fn outputs_ok(outs: Seq<(String, OutputConfig)>, ls: Seq<LayoutEntry>) -> bool {
    forall|i: int| 0 <= i < outs.len() ==> !#[trigger] output_unknown(outs, ls, i)
}

/// `e` reports the first output of `outs` that names an unknown layout.
pub open spec fn reports_output_failure(
    e: ConfigError,
    outs: Seq<(String, OutputConfig)>,
    ls: Seq<LayoutEntry>,
) -> bool {
    exists|i: int|
        0 <= i < outs.len() && (forall|j: int| 0 <= j < i ==> !#[trigger] output_unknown(outs, ls, j))
            && #[trigger] output_unknown(outs, ls, i) && match e {
            ConfigError::UnknownOutputLayout { output, layout } => output@ == outs[i].0@ && layout@
                == outs[i].1.layout@,
            _ => false,
        }
}

/// What activating `doc` yields: the checks run in order (version, gap, tolerance,
/// layouts, output bindings, rules) and the first failure is reported; when all
/// pass, the rules are compiled.
pub open spec fn activation_result_ok(doc: ConfigDocument, r: Result<CompiledRules, ConfigError>) -> bool {
    if doc.version != CONFIG_VERSION {
        match r {
            Err(ConfigError::UnsupportedVersion { found, expected }) => found == doc.version
                && expected == CONFIG_VERSION,
            _ => false,
        }
    } else if !doc.gap_is_valid {
        r matches Err(ConfigError::InvalidGap)
    } else if !doc.tolerance_is_valid {
        r matches Err(ConfigError::InvalidTolerance)
    } else if !layouts_ok(doc.layouts@) {
        match r {
            Err(e) => layouts_result_ok(doc.layouts@, Err(e)),
            Ok(_) => false,
        }
    } else if !outputs_ok(doc.outputs@, doc.layouts@) {
        match r {
            Err(e) => reports_output_failure(e, doc.outputs@, doc.layouts@),
            Ok(_) => false,
        }
    } else {
        compile_result_ok(doc.rules@, doc.layouts@, r)
    }
}

/// Validates a parsed configuration and compiles its rules. A caller replaces its
/// active configuration only when this returns `Ok`, so a reload is all or nothing.
pub fn activate(doc: &ConfigDocument) -> (r: Result<CompiledRules, ConfigError>)
    ensures
        activation_result_ok(*doc, r),
{
    if doc.version != CONFIG_VERSION {
        return Err(ConfigError::UnsupportedVersion { found: doc.version, expected: CONFIG_VERSION });
    }
    if !doc.gap_is_valid {
        return Err(ConfigError::InvalidGap);
    }
    if !doc.tolerance_is_valid {
        return Err(ConfigError::InvalidTolerance);
    }
    match check_layouts(doc.layouts.as_slice()) {
        Ok(_) => {},
        Err(e) => {
            return Err(e);
        },
    }
    let n = doc.outputs.len();
    let mut i: usize = 0;
    while i < n
        invariant
            n == doc.outputs@.len(),
            i <= n,
            doc.version == CONFIG_VERSION,
            doc.gap_is_valid,
            doc.tolerance_is_valid,
            layouts_ok(doc.layouts@),
            forall|j: int| 0 <= j < i ==> !#[trigger] output_unknown(doc.outputs@, doc.layouts@, j),
        decreases n - i,
    {
        let binding = &doc.outputs[i];
        match find_layout(doc.layouts.as_slice(), binding.1.layout.as_str()) {
            None => {
                assert(output_unknown(doc.outputs@, doc.layouts@, i as int));
                return Err(
                    ConfigError::UnknownOutputLayout {
                        output: binding.0.clone(),
                        layout: binding.1.layout.clone(),
                    },
                );
            },
            Some(_) => {},
        }
        i = i + 1;
    }
    proof {
        lemma_valid_layouts_have_unique_names(doc.layouts@);
    }
    CompiledRules::compile(doc.rules.as_slice(), doc.layouts.as_slice())
}

/// The position of the layout that output `output` is bound to: `None` when the
/// output has no binding or its layout is not defined.
pub fn layout_for_output(doc: &ConfigDocument, output: &str) -> (r: Option<usize>)
    ensures
        r matches Some(j) ==> j < doc.layouts@.len() && exists|i: int|
            0 <= i < doc.outputs@.len() && doc.outputs@[i].0@ == output@ && (forall|k: int|
                0 <= k < i ==> #[trigger] doc.outputs@[k].0@ != output@) && doc.layouts@[j as int].name@
                == #[trigger] doc.outputs@[i].1.layout@,
        r is None <==> (forall|i: int| 0 <= i < doc.outputs@.len() ==> #[trigger] doc.outputs@[i].0@ != output@)
            || exists|i: int|
            0 <= i < doc.outputs@.len() && doc.outputs@[i].0@ == output@ && (forall|k: int|
                0 <= k < i ==> #[trigger] doc.outputs@[k].0@ != output@) && !layout_named(
                doc.layouts@,
                #[trigger] doc.outputs@[i].1.layout@,
            ),
{
    let n = doc.outputs.len();
    let mut i: usize = 0;
    while i < n
        invariant
            n == doc.outputs@.len(),
            i <= n,
            forall|k: int| 0 <= k < i ==> #[trigger] doc.outputs@[k].0@ != output@,
        decreases n - i,
    {
        if text_eq(doc.outputs[i].0.as_str(), output) {
            let r = find_layout(doc.layouts.as_slice(), doc.outputs[i].1.layout.as_str());
            assert(doc.outputs@[i as int].0@ == output@);
            proof {
                if r is None {
                    assert forall|i2: int|
                        0 <= i2 < doc.outputs@.len() && doc.outputs@[i2].0@ == output@ && (forall|k: int|
                            0 <= k < i2 ==> #[trigger] doc.outputs@[k].0@ != output@) implies !layout_named(
                        doc.layouts@,
                        #[trigger] doc.outputs@[i2].1.layout@,
                    ) by {
                        if i2 > i {
                            assert(doc.outputs@[i as int].0@ != output@);
                        }
                    }
                }
            }
            return r;
        }
        i = i + 1;
    }
    None
}

/// An activated configuration is consistent as a whole: it has the supported
/// version, a valid gap and tolerance, non-empty layouts with unique names and
/// unique, valid zones, outputs bound only to defined layouts, and rules that name
/// only defined layouts and zones, with valid regexes. A document of another version
/// is refused with that version, whatever else it holds.
pub proof fn law_activated_config_is_consistent(doc: ConfigDocument, r: Result<CompiledRules, ConfigError>)
    requires
        activation_result_ok(doc, r),
    ensures
        r is Ok ==> {
            &&& doc.version == CONFIG_VERSION
            &&& doc.gap_is_valid
            &&& doc.tolerance_is_valid
            &&& layouts_ok(doc.layouts@)
            &&& outputs_ok(doc.outputs@, doc.layouts@)
            &&& forall|i: int| 0 <= i < doc.rules@.len() ==> rule_fault(#[trigger] doc.rules@[i], doc.layouts@) is None
        },
        doc.version != CONFIG_VERSION ==> (r matches Err(ConfigError::UnsupportedVersion { found, expected })
            && found == doc.version && expected == CONFIG_VERSION),
{
}

} // verus!
