//! Pattern rules and the registry that holds them.

use crate::corpus::{standard_definitions, standard_ids_are_distinct, standard_table};
use crate::pattern::{compile, compiled, is_match, pattern_matches};
use crate::taxonomy::{Category, Confidence, Severity};
use crate::text::{chars_of, same_chars};
use regex::Regex;
use vstd::prelude::*;

verus! {

/// A rule as it is written down: its labels and the source text of its pattern.
#[derive(Clone, Copy, Debug)]
pub struct RuleDefinition {
    pub id: &'static str,
    pub name: &'static str,
    pub pattern: &'static str,
    pub severity: Severity,
    pub category: Category,
    pub weight: u32,
    pub description: &'static str,
    pub hard_trigger: bool,
    pub confidence: Confidence,
}

/// The definition with the given fields.
pub open spec fn definition(
    id: &'static str,
    name: &'static str,
    pattern: &'static str,
    severity: Severity,
    category: Category,
    weight: u32,
    description: &'static str,
    hard_trigger: bool,
    confidence: Confidence,
) -> RuleDefinition {
    RuleDefinition {
        id,
        name,
        pattern,
        severity,
        category,
        weight,
        description,
        hard_trigger,
        confidence,
    }
}

impl RuleDefinition {
    pub fn new(
        id: &'static str,
        name: &'static str,
        pattern: &'static str,
        severity: Severity,
        category: Category,
        weight: u32,
        description: &'static str,
        hard_trigger: bool,
        confidence: Confidence,
    ) -> (r: RuleDefinition)
        ensures
            r == definition(
                id,
                name,
                pattern,
                severity,
                category,
                weight,
                description,
                hard_trigger,
                confidence,
            ),
    {
        RuleDefinition {
            id,
            name,
            pattern,
            severity,
            category,
            weight,
            description,
            hard_trigger,
            confidence,
        }
    }
}

/// A rule ready for matching: its labels and its compiled pattern.
#[derive(Debug)]
pub struct SecurityRule {
    pub id: &'static str,
    pub name: &'static str,
    pub pattern: Regex,
    pub severity: Severity,
    pub category: Category,
    pub weight: u32,
    pub description: &'static str,
    pub hard_trigger: bool,
    pub confidence: Confidence,
}

/// Why a registry could not be built.
#[derive(Clone, Copy, Debug, PartialEq, Eq, Structural)]
pub enum RuleError {
    /// The pattern of the definition at this index does not compile.
    InvalidPattern(usize),
    /// The rule at this index repeats the id of an earlier one.
    DuplicateId(usize),
}

impl SecurityRule {
    /// Whether the rule carries the labels of `def` and the compiled form of its pattern.
    pub open spec fn built_from(self, def: RuleDefinition) -> bool {
        &&& self.id == def.id
        &&& self.name == def.name
        &&& compiled(def.pattern@) == Some(self.pattern)
        &&& self.severity == def.severity
        &&& self.category == def.category
        &&& self.weight == def.weight
        &&& self.description == def.description
        &&& self.hard_trigger == def.hard_trigger
        &&& self.confidence == def.confidence
    }

    /// Whether the rule's pattern matches somewhere in `line`.
    pub open spec fn matches(self, line: Seq<char>) -> bool {
        pattern_matches(self.pattern, line)
    }

    /// Compiles the pattern of `def`; `None` where it does not compile.
    pub fn from_definition(def: &RuleDefinition) -> (r: Option<SecurityRule>)
        ensures
            r is Some <==> compiled(def.pattern@) is Some,
            r matches Some(rule) ==> rule.built_from(*def),
    {
        match compile(def.pattern) {
            Ok(re) => Some(
                SecurityRule {
                    id: def.id,
                    name: def.name,
                    pattern: re,
                    severity: def.severity,
                    category: def.category,
                    weight: def.weight,
                    description: def.description,
                    hard_trigger: def.hard_trigger,
                    confidence: def.confidence,
                },
            ),
            Err(_) => None,
        }
    }

    /// Whether the rule's pattern matches somewhere in `line`.
    pub fn is_match(&self, line: &str) -> (b: bool)
        ensures
            b == self.matches(line@),
    {
        is_match(&self.pattern, line)
    }
}

/// The ids of `rules`, in order.
pub open spec fn rule_ids(rules: Seq<SecurityRule>) -> Seq<Seq<char>> {
    rules.map_values(|r: SecurityRule| r.id@)
}

/// The ids of `defs`, in order.
pub open spec fn definition_ids(defs: Seq<RuleDefinition>) -> Seq<Seq<char>> {
    defs.map_values(|d: RuleDefinition| d.id@)
}

/// Whether the id at index `j` already stands at an earlier index.
pub open spec fn repeats_at(ids: Seq<Seq<char>>, j: int) -> bool {
    exists|i: int| 0 <= i < j && ids[i] == ids[j]
}

/// Whether no id occurs twice.
pub open spec fn ids_distinct(ids: Seq<Seq<char>>) -> bool {
    forall|j: int| 0 <= j < ids.len() ==> !repeats_at(ids, j)
}

/// Whether every pattern among the first `n` definitions compiles.
pub open spec fn all_compile(defs: Seq<RuleDefinition>, n: int) -> bool {
    forall|k: int| 0 <= k < n ==> compiled(#[trigger] defs[k].pattern@) is Some
}

/// The registry of rules: an ordered sequence of rules with distinct ids, fixed once built.
pub struct RuleSet {
    rules: Vec<SecurityRule>,
}

impl View for RuleSet {
    type V = Seq<SecurityRule>;

    closed spec fn view(&self) -> Seq<SecurityRule> {
        self.rules@
    }
}

impl RuleSet {
    #[verifier::type_invariant]
    spec fn ids_are_distinct(self) -> bool {
        ids_distinct(rule_ids(self.rules@))
    }

    /// A registry of the given rules, in their order. It is refused where an
    /// id occurs twice; the error names the first index that repeats one.
    pub fn new(rules: Vec<SecurityRule>) -> (r: Result<RuleSet, RuleError>)
        ensures
            match r {
                Ok(set) => set@ == rules@ && ids_distinct(rule_ids(rules@)),
                Err(RuleError::DuplicateId(j)) => {
                    &&& j < rules.len()
                    &&& repeats_at(rule_ids(rules@), j as int)
                    &&& forall|k: int| 0 <= k < j ==> !repeats_at(rule_ids(rules@), k)
                },
                Err(RuleError::InvalidPattern(_)) => false,
            },
    {
        let ghost ids = rule_ids(rules@);
        let mut j: usize = 0;
        while j < rules.len()
            invariant
                j <= rules.len(),
                ids == rule_ids(rules@),
                forall|k: int| 0 <= k < j ==> !repeats_at(ids, k),
            decreases rules.len() - j,
        {
            let id_j = chars_of(rules[j].id);
            let mut i: usize = 0;
            while i < j
                invariant
                    i <= j < rules.len(),
                    ids == rule_ids(rules@),
                    id_j@ == ids[j as int],
                    forall|k: int| 0 <= k < j ==> !repeats_at(ids, k),
                    forall|k: int| 0 <= k < i ==> ids[k] != ids[j as int],
                decreases j - i,
            {
                let id_i = chars_of(rules[i].id);
                assert(ids[i as int] == rules@[i as int].id@);
                if same_chars(&id_i, &id_j) {
                    assert(repeats_at(ids, j as int));
                    return Err(RuleError::DuplicateId(j));
                }
                i += 1;
            }
            j += 1;
        }
        Ok(RuleSet { rules })
    }

    /// The registry compiled from `defs`, in their order. It is refused where
    /// a pattern does not compile, with the first such index; and where all
    /// compile and an id occurs twice, with the first index that repeats one.
    pub fn from_definitions(defs: &Vec<RuleDefinition>) -> (r: Result<RuleSet, RuleError>)
        ensures
            match r {
                Ok(set) => {
                    &&& set@.len() == defs.len()
                    &&& forall|i: int|
                        0 <= i < defs.len() ==> (#[trigger] set@[i]).built_from(defs@[i])
                    &&& ids_distinct(definition_ids(defs@))
                },
                Err(RuleError::InvalidPattern(i)) => {
                    &&& i < defs.len()
                    &&& compiled(defs@[i as int].pattern@) is None
                    &&& all_compile(defs@, i as int)
                },
                Err(RuleError::DuplicateId(j)) => {
                    &&& j < defs.len()
                    &&& all_compile(defs@, defs.len() as int)
                    &&& repeats_at(definition_ids(defs@), j as int)
                    &&& forall|k: int| 0 <= k < j ==> !repeats_at(definition_ids(defs@), k)
                },
            },
    {
        let mut rules: Vec<SecurityRule> = Vec::new();
        let mut i: usize = 0;
        while i < defs.len()
            invariant
                i <= defs.len(),
                rules.len() == i,
                forall|k: int| 0 <= k < i ==> (#[trigger] rules@[k]).built_from(defs@[k]),
                all_compile(defs@, i as int),
            decreases defs.len() - i,
        {
            match SecurityRule::from_definition(&defs[i]) {
                Some(rule) => {
                    rules.push(rule);
                },
                None => {
                    return Err(RuleError::InvalidPattern(i));
                },
            }
            i += 1;
        }
        proof {
            assert forall|k: int| 0 <= k < defs.len() implies rule_ids(rules@)[k]
                == definition_ids(defs@)[k] by {
                assert(rules@[k].built_from(defs@[k]));
            }
            assert(rule_ids(rules@) =~= definition_ids(defs@));
        }
        RuleSet::new(rules)
    }

    /// The standard registry: the rules of the standard corpus, in its order.
    /// It is refused only where a pattern of the corpus does not compile.
    pub fn standard() -> (r: Result<RuleSet, RuleError>)
        ensures
            match r {
                Ok(set) => {
                    &&& set@.len() == standard_table().len()
                    &&& forall|i: int|
                        0 <= i < set@.len() ==> (#[trigger] set@[i]).built_from(
                            standard_table()[i],
                        )
                },
                Err(RuleError::InvalidPattern(i)) => {
                    &&& i < standard_table().len()
                    &&& compiled(standard_table()[i as int].pattern@) is None
                    &&& all_compile(standard_table(), i as int)
                },
                Err(RuleError::DuplicateId(_)) => false,
            },
    {
        let defs = standard_definitions();
        proof {
            standard_ids_are_distinct();
        }
        RuleSet::from_definitions(&defs)
    }

    /// The rules, in registration order.
    pub fn rules(&self) -> (r: &Vec<SecurityRule>)
        ensures
            r@ == self@,
            ids_distinct(rule_ids(r@)),
    {
        proof {
            use_type_invariant(self);
        }
        &self.rules
    }
}

} // verus!
