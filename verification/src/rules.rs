//! Window rules: compiled once when a configuration is activated, then matched
//! against window context. Higher priority wins, then specificity (the number of
//! match constraints), then file order.

use vstd::prelude::*;
use crate::config::{
    find_layout, layout_has_zone, layout_named, layout_names_unique, zone_in_layout, ConfigError,
    LayoutEntry,
};
use crate::pattern::{
    compile_pattern, pattern_is_match, regex_compiles, regex_error_message, regex_matches, Pattern,
};
use crate::text::{is_blank, is_blank_text, opt_str_view, opt_string_view, opt_text_is};

verus! {

/// A rule as written in the configuration.
#[derive(Debug, Clone)]
pub struct RuleConfig {
    pub priority: i32,
    pub app_id: Option<String>,
    pub app_id_regex: Option<String>,
    pub title_regex: Option<String>,
    pub output: Option<String>,
    pub workspace: Option<String>,
    pub layout: Option<String>,
    pub zone: String,
}

/// What is known about a window when rules are matched against it.
#[derive(Debug, Clone, Copy)]
pub struct RuleContext<'a> {
    pub app_id: Option<&'a str>,
    pub title: Option<&'a str>,
    pub output: Option<&'a str>,
    pub workspace: Option<&'a str>,
}

/// The rule that won for a context.
#[derive(Debug, Clone)]
pub struct RuleMatch<'a> {
    pub zone: &'a str,
    pub layout: Option<&'a str>,
    pub priority: i32,
    pub specificity: usize,
    pub source_index: usize,
}

/// The model of a compiled rule.
pub struct RuleSpec {
    pub priority: i32,
    pub specificity: nat,
    pub source_index: nat,
    pub app_id: Option<Seq<char>>,
    pub app_id_regex: Option<Seq<char>>,
    pub title_regex: Option<Seq<char>>,
    pub output: Option<Seq<char>>,
    pub workspace: Option<Seq<char>>,
    pub layout: Option<Seq<char>>,
    pub zone: Seq<char>,
}

/// The model of a rule context.
pub struct ContextSpec {
    pub app_id: Option<Seq<char>>,
    pub title: Option<Seq<char>>,
    pub output: Option<Seq<char>>,
    pub workspace: Option<Seq<char>>,
}

impl<'a> View for RuleContext<'a> {
    type V = ContextSpec;

    open spec fn view(&self) -> ContextSpec {
        ContextSpec {
            app_id: opt_str_view(self.app_id),
            title: opt_str_view(self.title),
            output: opt_str_view(self.output),
            workspace: opt_str_view(self.workspace),
        }
    }
}

pub open spec fn bool_count(b: bool) -> nat {
    if b {
        1
    } else {
        0
    }
}

/// The number of match constraints a rule sets: app id (plain or regex), title,
/// output and workspace.
pub open spec fn rule_specificity(rule: RuleConfig) -> nat {
    bool_count(rule.app_id is Some || rule.app_id_regex is Some) + bool_count(
        rule.title_regex is Some,
    ) + bool_count(rule.output is Some) + bool_count(rule.workspace is Some)
}

/// The compiled form of the rule at position `index` of the configuration.
pub open spec fn compiled_rule_spec(rule: RuleConfig, index: nat) -> RuleSpec {
    RuleSpec {
        priority: rule.priority,
        specificity: rule_specificity(rule),
        source_index: index,
        app_id: opt_string_view(rule.app_id),
        app_id_regex: opt_string_view(rule.app_id_regex),
        title_regex: opt_string_view(rule.title_regex),
        output: opt_string_view(rule.output),
        workspace: opt_string_view(rule.workspace),
        layout: opt_string_view(rule.layout),
        zone: rule.zone@,
    }
}

/// The compiled forms of all rules of a configuration, in file order.
pub open spec fn compiled_rules_spec(rules: Seq<RuleConfig>) -> Seq<RuleSpec> {
    Seq::new(rules.len(), |i: int| compiled_rule_spec(rules[i], i as nat))
}

/// An optional exact constraint is met when it is absent or the context value equals it.
pub open spec fn exact_ok(expected: Option<Seq<char>>, value: Option<Seq<char>>) -> bool {
    expected matches Some(e) ==> value == Some(e)
}

/// An optional regex constraint is met when it is absent or the context value is
/// present and matched by it.
pub open spec fn regex_ok(pattern: Option<Seq<char>>, value: Option<Seq<char>>) -> bool {
    pattern matches Some(p) ==> (value matches Some(v) && regex_matches(p, v))
}

/// A rule matches a context when every constraint it sets is met.
pub open spec fn rule_matches(r: RuleSpec, c: ContextSpec) -> bool {
    &&& exact_ok(r.app_id, c.app_id)
    &&& regex_ok(r.app_id_regex, c.app_id)
    &&& regex_ok(r.title_regex, c.title)
    &&& exact_ok(r.output, c.output)
    &&& exact_ok(r.workspace, c.workspace)
}

/// `a` wins over `b`: larger priority, then larger specificity, then earlier in the file.
pub open spec fn outranks(a: RuleSpec, b: RuleSpec) -> bool {
    ||| a.priority > b.priority
    ||| (a.priority == b.priority && a.specificity > b.specificity)
    ||| (a.priority == b.priority && a.specificity == b.specificity && a.source_index
        < b.source_index)
}

/// `m` reports rule `r`.
pub open spec fn reports(m: RuleMatch, r: RuleSpec) -> bool {
    &&& m.zone@ == r.zone
    &&& opt_str_view(m.layout) == r.layout
    &&& m.priority == r.priority
    &&& m.specificity == r.specificity
    &&& m.source_index == r.source_index
}

/// Position `i` holds the rule that wins among those of `rules` that match `c`.
pub open spec fn is_best_match(rules: Seq<RuleSpec>, c: ContextSpec, i: int) -> bool {
    &&& 0 <= i < rules.len()
    &&& rule_matches(rules[i], c)
    &&& forall|j: int|
        0 <= j < rules.len() && j != i && rule_matches(#[trigger] rules[j], c) ==> outranks(
            rules[i],
            rules[j],
        )
}

/// Why a configured rule is refused, in the order the checks are made.
#[derive(Debug, Clone, Copy, PartialEq, Eq, Structural)]
pub enum RuleFault {
    EmptyZone,
    ConflictingAppMatcher,
    UnknownLayout,
    UnknownZone,
    InvalidAppIdRegex,
    InvalidTitleRegex,
}

/// A layout named `name` in `ls` has a zone known as `zone`.
pub open spec fn layout_knows_zone(ls: Seq<LayoutEntry>, name: Seq<char>, zone: Seq<char>) -> bool {
    exists|j: int| 0 <= j < ls.len() && #[trigger] ls[j].name@ == name && zone_in_layout(ls[j], zone)
}

/// The first check that a configured rule fails, if any.
pub open spec fn rule_fault(rule: RuleConfig, ls: Seq<LayoutEntry>) -> Option<RuleFault> {
    if is_blank_text(rule.zone@) {
        Some(RuleFault::EmptyZone)
    } else if rule.app_id is Some && rule.app_id_regex is Some {
        Some(RuleFault::ConflictingAppMatcher)
    } else if rule.layout is Some && !layout_named(ls, rule.layout->0@) {
        Some(RuleFault::UnknownLayout)
    } else if rule.layout is Some && !layout_knows_zone(ls, rule.layout->0@, rule.zone@) {
        Some(RuleFault::UnknownZone)
    } else if rule.app_id_regex is Some && !regex_compiles(rule.app_id_regex->0@) {
        Some(RuleFault::InvalidAppIdRegex)
    } else if rule.title_regex is Some && !regex_compiles(rule.title_regex->0@) {
        Some(RuleFault::InvalidTitleRegex)
    } else {
        None
    }
}

/// `e` is an `InvalidRegex` error for rule `index` and the given field.
pub open spec fn is_invalid_regex_error(e: ConfigError, index: nat, field: Seq<char>) -> bool {
    match e {
        ConfigError::InvalidRegex { index: i, field: f, .. } => i == index && f@ == field,
        _ => false,
    }
}

/// `e` is the error reported for rule `index` failing with `fault`.
pub open spec fn reports_rule_fault(e: ConfigError, index: nat, rule: RuleConfig, fault: RuleFault) -> bool {
    match fault {
        RuleFault::EmptyZone => match e {
            ConfigError::EmptyRuleZone { index: i } => i == index,
            _ => false,
        },
        RuleFault::ConflictingAppMatcher => match e {
            ConfigError::ConflictingAppMatcher { index: i } => i == index,
            _ => false,
        },
        RuleFault::UnknownLayout => match e {
            ConfigError::UnknownRuleLayout { index: i, layout } => i == index && opt_string_view(
                rule.layout,
            ) == Some(layout@),
            _ => false,
        },
        RuleFault::UnknownZone => match e {
            ConfigError::UnknownRuleZone { index: i, layout, zone } => i == index
                && opt_string_view(rule.layout) == Some(layout@) && zone@ == rule.zone@,
            _ => false,
        },
        RuleFault::InvalidAppIdRegex => is_invalid_regex_error(e, index, "app_id_regex"@),
        RuleFault::InvalidTitleRegex => is_invalid_regex_error(e, index, "title_regex"@),
    }
}

/// The result of compiling `rules` against the validated layouts `ls`: the first
/// failing rule is reported, otherwise every rule is compiled in file order.
pub open spec fn compile_result_ok(
    rules: Seq<RuleConfig>,
    ls: Seq<LayoutEntry>,
    r: Result<CompiledRules, ConfigError>,
) -> bool {
    match r {
        Ok(c) => (forall|i: int| 0 <= i < rules.len() ==> rule_fault(#[trigger] rules[i], ls) is None)
            && c@ == compiled_rules_spec(rules),
        Err(e) => exists|i: int|
            0 <= i < rules.len() && (forall|j: int|
                0 <= j < i ==> rule_fault(#[trigger] rules[j], ls) is None) && (rule_fault(
                #[trigger] rules[i],
                ls,
            ) matches Some(f) && reports_rule_fault(e, i as nat, rules[i], f)),
    }
}

#[derive(Debug)]
struct CompiledRule {
    source_index: usize,
    priority: i32,
    specificity: usize,
    app_id: Option<String>,
    app_id_regex: Option<Pattern>,
    title_regex: Option<Pattern>,
    output: Option<String>,
    workspace: Option<String>,
    layout: Option<String>,
    zone: String,
}

spec fn opt_pattern_view(o: Option<Pattern>) -> Option<Seq<char>> {
    match o {
        Some(p) => Some(p@),
        None => None,
    }
}

impl View for CompiledRule {
    type V = RuleSpec;

    closed spec fn view(&self) -> RuleSpec {
        RuleSpec {
            priority: self.priority,
            specificity: self.specificity as nat,
            source_index: self.source_index as nat,
            app_id: opt_string_view(self.app_id),
            app_id_regex: opt_pattern_view(self.app_id_regex),
            title_regex: opt_pattern_view(self.title_regex),
            output: opt_string_view(self.output),
            workspace: opt_string_view(self.workspace),
            layout: opt_string_view(self.layout),
            zone: self.zone@,
        }
    }
}

/// The rules of an active configuration, in file order.
#[derive(Debug)]
pub struct CompiledRules {
    rules: Vec<CompiledRule>,
}

impl View for CompiledRules {
    type V = Seq<RuleSpec>;

    closed spec fn view(&self) -> Seq<RuleSpec> {
        self.rules@.map_values(|r: CompiledRule| r@)
    }
}

fn exact_matches(expected: &Option<String>, value: Option<&str>) -> (r: bool)
    ensures
        r == exact_ok(opt_string_view(*expected), opt_str_view(value)),
{
    match expected {
        Some(e) => opt_text_is(value, e.as_str()),
        None => true,
    }
}

fn regex_constraint_matches(pattern: &Option<Pattern>, value: Option<&str>) -> (r: bool)
    ensures
        r == regex_ok(opt_pattern_view(*pattern), opt_str_view(value)),
{
    match pattern {
        Some(p) => match value {
            Some(v) => pattern_is_match(p, v),
            None => false,
        },
        None => true,
    }
}

impl CompiledRule {
    fn matches(&self, context: RuleContext<'_>) -> (r: bool)
        ensures
            r == rule_matches(self@, context@),
    {
        if !exact_matches(&self.app_id, context.app_id) {
            return false;
        }
        if !regex_constraint_matches(&self.app_id_regex, context.app_id) {
            return false;
        }
        if !regex_constraint_matches(&self.title_regex, context.title) {
            return false;
        }
        if !exact_matches(&self.output, context.output) {
            return false;
        }
        if !exact_matches(&self.workspace, context.workspace) {
            return false;
        }
        true
    }
}

/// Whether rule `a` wins over rule `b`.
fn rule_outranks(a: &CompiledRule, b: &CompiledRule) -> (r: bool)
    ensures
        r == outranks(a@, b@),
{
    if a.priority != b.priority {
        a.priority > b.priority
    } else if a.specificity != b.specificity {
        a.specificity > b.specificity
    } else {
        a.source_index < b.source_index
    }
}

fn compile_optional_pattern(index: usize, field: &'static str, value: &Option<String>) -> (r:
    Result<Option<Pattern>, ConfigError>)
    ensures
        match r {
            Ok(p) => (value is Some ==> regex_compiles(value->0@)) && opt_pattern_view(p)
                == opt_string_view(*value),
            Err(e) => value is Some && !regex_compiles(value->0@) && is_invalid_regex_error(
                e,
                index as nat,
                field@,
            ),
        },
{
    match value {
        None => Ok(None),
        Some(source) => match compile_pattern(source.as_str()) {
            Ok(p) => Ok(Some(p)),
            Err(error) => {
                let message = regex_error_message(&error);
                Err(ConfigError::InvalidRegex { index, field, message })
            },
        },
    }
}

fn specificity_of(rule: &RuleConfig) -> (r: usize)
    ensures
        r == rule_specificity(*rule),
{
    let mut count: usize = 0;
    if rule.app_id.is_some() || rule.app_id_regex.is_some() {
        count = count + 1;
    }
    if rule.title_regex.is_some() {
        count = count + 1;
    }
    if rule.output.is_some() {
        count = count + 1;
    }
    if rule.workspace.is_some() {
        count = count + 1;
    }
    count
}

impl CompiledRules {
    #[verifier::type_invariant]
    spec fn inv(self) -> bool {
        forall|i: int| 0 <= i < self.rules@.len() ==> (#[trigger] self.rules@[i]).source_index == i
    }

    /// Compiles the configured rules against the validated layouts. The first rule
    /// that fails a check is reported, as `rule_fault` orders the checks.
    pub fn compile(rules: &[RuleConfig], layouts: &[LayoutEntry]) -> (r: Result<
        Self,
        ConfigError,
    >)
        requires
            layout_names_unique(layouts@),
        ensures
            compile_result_ok(rules@, layouts@, r),
    {
        let n = rules.len();
        let mut out: Vec<CompiledRule> = Vec::new();
        let mut index: usize = 0;
        while index < n
            invariant
                n == rules@.len(),
                index <= n,
                layout_names_unique(layouts@),
                out@.len() == index,
                forall|k: int| 0 <= k < index ==> rule_fault(#[trigger] rules@[k], layouts@) is None,
                forall|k: int|
                    0 <= k < index ==> (#[trigger] out@[k])@ == compiled_rule_spec(
                        rules@[k],
                        k as nat,
                    ),
                forall|k: int| 0 <= k < index ==> (#[trigger] out@[k]).source_index == k,
            decreases n - index,
        {
            let rule = &rules[index];
            proof {
                assert(forall|j: int| 0 <= j < index ==> rule_fault(#[trigger] rules@[j], layouts@) is None);
            }
            if is_blank(rule.zone.as_str()) {
                return Err(ConfigError::EmptyRuleZone { index });
            }
            if rule.app_id.is_some() && rule.app_id_regex.is_some() {
                return Err(ConfigError::ConflictingAppMatcher { index });
            }
            match &rule.layout {
                Some(layout_name) => {
                    match find_layout(layouts, layout_name.as_str()) {
                        None => {
                            return Err(
                                ConfigError::UnknownRuleLayout {
                                    index,
                                    layout: layout_name.clone(),
                                },
                            );
                        },
                        Some(j) => {
                            if !layout_has_zone(&layouts[j], rule.zone.as_str()) {
                                proof {
                                    assert forall|j2: int|
                                        0 <= j2 < layouts@.len() && #[trigger] layouts@[j2].name@
                                            == layout_name@ implies !zone_in_layout(
                                        layouts@[j2],
                                        rule.zone@,
                                    ) by {
                                        if j2 != j {
                                            if j2 < j {
                                                assert(layouts@[j2].name@ != layouts@[j as int].name@);
                                            } else {
                                                assert(layouts@[j as int].name@ != layouts@[j2].name@);
                                            }
                                        }
                                    }
                                }
                                return Err(
                                    ConfigError::UnknownRuleZone {
                                        index,
                                        layout: layout_name.clone(),
                                        zone: rule.zone.clone(),
                                    },
                                );
                            }
                        },
                    }
                },
                None => {},
            }
            let app_id_regex = match compile_optional_pattern(index, "app_id_regex", &rule.app_id_regex) {
                Ok(p) => p,
                Err(e) => {
                    return Err(e);
                },
            };
            let title_regex = match compile_optional_pattern(index, "title_regex", &rule.title_regex) {
                Ok(p) => p,
                Err(e) => {
                    return Err(e);
                },
            };
            let specificity = specificity_of(rule);
            let compiled = CompiledRule {
                source_index: index,
                priority: rule.priority,
                specificity,
                app_id: rule.app_id.clone(),
                app_id_regex,
                title_regex,
                output: rule.output.clone(),
                workspace: rule.workspace.clone(),
                layout: rule.layout.clone(),
                zone: rule.zone.clone(),
            };
            out.push(compiled);
            index = index + 1;
        }
        let result = CompiledRules { rules: out };
        assert(result@ =~= compiled_rules_spec(rules@));
        Ok(result)
    }

    /// The winning rule for a context: among the rules that match, the one with the
    /// largest priority, then the most match constraints, then the earliest in the file.
    pub fn best_match<'a>(&'a self, context: RuleContext<'_>) -> (r: Option<RuleMatch<'a>>)
        ensures
            match r {
                None => forall|i: int| 0 <= i < self@.len() ==> !rule_matches(#[trigger] self@[i], context@),
                Some(m) => exists|i: int| is_best_match(self@, context@, i) && reports(m, #[trigger] self@[i]),
            },
    {
        proof {
            use_type_invariant(self);
        }
        let n = self.rules.len();
        let mut best: Option<usize> = None;
        let mut i: usize = 0;
        while i < n
            invariant
                n == self.rules@.len(),
                i <= n,
                forall|k: int| 0 <= k < n ==> (#[trigger] self.rules@[k]).source_index == k,
                match best {
                    None => forall|k: int| 0 <= k < i ==> !rule_matches(#[trigger] self.rules@[k]@, context@),
                    Some(b) => b < i && rule_matches(self.rules@[b as int]@, context@) && forall|k: int|
                        0 <= k < i && k != b && rule_matches(#[trigger] self.rules@[k]@, context@)
                            ==> outranks(self.rules@[b as int]@, self.rules@[k]@),
                },
            decreases n - i,
        {
            let rule = &self.rules[i];
            if rule.matches(context) {
                match best {
                    None => {
                        best = Some(i);
                    },
                    Some(b) => {
                        if rule_outranks(rule, &self.rules[b]) {
                            best = Some(i);
                        }
                    },
                }
            }
            i = i + 1;
        }
        match best {
            None => None,
            Some(b) => {
                let rule = &self.rules[b];
                let layout = match &rule.layout {
                    Some(l) => Some(l.as_str()),
                    None => None,
                };
                let m = RuleMatch {
                    zone: rule.zone.as_str(),
                    layout,
                    priority: rule.priority,
                    specificity: rule.specificity,
                    source_index: rule.source_index,
                };
                assert(self@[b as int] == self.rules@[b as int]@);
                assert(is_best_match(self@, context@, b as int));
                Some(m)
            },
        }
    }
}

/// The rule order is a strict total order on rules from different positions of the
/// file, so the winning rule for a context is unique.
pub proof fn law_rule_order_is_total(a: RuleSpec, b: RuleSpec)
    requires
        a.source_index != b.source_index,
    ensures
        outranks(a, b) != outranks(b, a),
{
}

/// Among two matching rules, the one with the larger priority wins whatever their
/// specificity and position; at equal priority the more specific one wins whatever
/// its position.
pub proof fn law_priority_before_specificity_before_order(a: RuleSpec, b: RuleSpec)
    ensures
        a.priority > b.priority ==> outranks(a, b) && !outranks(b, a),
        a.priority == b.priority && a.specificity > b.specificity ==> outranks(a, b) && !outranks(b, a),
        a.priority == b.priority && a.specificity == b.specificity && a.source_index < b.source_index
            ==> outranks(a, b) && !outranks(b, a),
{
}

/// Each match constraint a rule sets adds one to its compiled specificity: the app id
/// (plain or as a regex, counted once), the title regex, the output and the
/// workspace. A rule that sets none has specificity zero, so the specificity is the
/// number of constraints set.
pub proof fn law_each_constraint_adds_specificity(rule: RuleConfig, index: nat, text: String)
    ensures
        compiled_rule_spec(
            RuleConfig { app_id: None, app_id_regex: None, title_regex: None, output: None, workspace: None, ..rule },
            index,
        ).specificity == 0,
        compiled_rule_spec(RuleConfig { workspace: Some(text), ..rule }, index).specificity
            == compiled_rule_spec(RuleConfig { workspace: None, ..rule }, index).specificity + 1,
        compiled_rule_spec(RuleConfig { output: Some(text), ..rule }, index).specificity
            == compiled_rule_spec(RuleConfig { output: None, ..rule }, index).specificity + 1,
        compiled_rule_spec(RuleConfig { title_regex: Some(text), ..rule }, index).specificity
            == compiled_rule_spec(RuleConfig { title_regex: None, ..rule }, index).specificity + 1,
        compiled_rule_spec(RuleConfig { app_id: Some(text), ..rule }, index).specificity
            == compiled_rule_spec(RuleConfig { app_id: None, app_id_regex: None, ..rule }, index).specificity + 1,
        compiled_rule_spec(RuleConfig { app_id_regex: Some(text), ..rule }, index).specificity
            == compiled_rule_spec(RuleConfig { app_id: None, app_id_regex: None, ..rule }, index).specificity + 1,
        compiled_rule_spec(RuleConfig { app_id: Some(text), app_id_regex: Some(text), ..rule }, index).specificity
            == compiled_rule_spec(RuleConfig { app_id: Some(text), app_id_regex: None, ..rule }, index).specificity,
{
}

/// Of two rules with the same priority that differ only in that one also pins the
/// workspace, the one pinning the workspace wins whenever both match, wherever the
/// two stand in the file.
pub proof fn law_workspace_rule_outranks_general_one(rule: RuleConfig, workspace: String, i: nat, j: nat)
    requires
        rule.workspace is None,
    ensures
        outranks(
            compiled_rule_spec(RuleConfig { workspace: Some(workspace), ..rule }, j),
            compiled_rule_spec(rule, i),
        ),
        !outranks(
            compiled_rule_spec(rule, i),
            compiled_rule_spec(RuleConfig { workspace: Some(workspace), ..rule }, j),
        ),
{
    law_each_constraint_adds_specificity(rule, i, workspace);
    law_each_constraint_adds_specificity(rule, j, workspace);
    assert(RuleConfig { workspace: None, ..rule } == rule);
}

} // verus!
