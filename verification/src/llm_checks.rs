//! Shape checks on merged generation results: duplicate identifiers,
//! normative phrasing, ambiguous words, identifier formats, coverage depth
//! and dangling references. Each finding is a warning; nothing is rejected
//! here.

use vstd::prelude::*;
use vstd::string::*;

use crate::lexicon::{ambiguous_words, spec_ambiguous_words};
use crate::specification::{FunctionalRequirementView, RequirementCategory, Specification,
    SpecificationView};
use crate::story::Priority;
use crate::test_case::{FeatureView, ScenarioView, TestSuite, TestSuiteView};
use crate::textutil::{fold_lower, fold_upper, chars_to_string, contains_string, contains_sub,
    push_u64_digits, seq_contains_str, spec_fold_lower, spec_fold_upper, spec_contains,
    spec_digits, spec_trim, to_chars, trim, string_eq_str};
use crate::wellformed::{contains_word_chars, spec_contains_word, spec_has_normative,
    spec_starts_with, starts_with_str, has_normative_chars};

verus! {

/// Severity of a shape warning.
#[derive(Clone, Copy, Debug, PartialEq, Eq, Structural)]
pub enum WarningSeverity {
    Error,
    Warning,
    Info,
}

impl DeepView for WarningSeverity {
    type V = WarningSeverity;

    open spec fn deep_view(&self) -> WarningSeverity {
        *self
    }
}

/// Mathematical model of an `LlmValidationWarning`.
pub struct LlmValidationWarningView {
    pub rule: Seq<char>,
    pub element_id: Seq<char>,
    pub severity: WarningSeverity,
    pub message: Seq<char>,
}

/// One shape warning on a generated result.
#[derive(Clone, Debug)]
pub struct LlmValidationWarning {
    pub rule: String,
    pub element_id: String,
    pub severity: WarningSeverity,
    pub message: String,
}

impl DeepView for LlmValidationWarning {
    type V = LlmValidationWarningView;

    open spec fn deep_view(&self) -> LlmValidationWarningView {
        LlmValidationWarningView {
            rule: self.rule@,
            element_id: self.element_id@,
            severity: self.severity,
            message: self.message@,
        }
    }
}

fn warning(rule: &str, element_id: &String, severity: WarningSeverity, message: String) -> (r:
    LlmValidationWarning)
    ensures
        r.deep_view().rule == rule@,
        r.deep_view().element_id == element_id@,
        r.deep_view().severity == severity,
        r.deep_view().message == message@,
{
    LlmValidationWarning {
        rule: String::from_str(rule),
        element_id: element_id.clone(),
        severity,
        message,
    }
}

fn id_message(id: &String, suffix: &str) -> (r: String)
    ensures
        r@ == id@ + suffix@,
{
    let mut s = id.clone();
    s.append(suffix);
    proof {
        assert(s@ =~= id@ + suffix@);
    }
    s
}

fn id_quoted_message(id: &String, mid: &str, word: &String, tail: &str) -> (r: String)
    ensures
        r@ == id@ + mid@ + word@ + tail@,
{
    let mut s = id.clone();
    s.append(mid);
    s.append(word.as_str());
    s.append(tail);
    proof {
        assert(s@ =~= id@ + mid@ + word@ + tail@);
    }
    s
}

// ---------------------------------------------------------------------------
// Specification output checks
// ---------------------------------------------------------------------------

/// The per-word ambiguity warnings of one requirement, in word-list order.
pub open spec fn spec_ambiguous_warns(
    id: Seq<char>,
    lower: Seq<char>,
    words: Seq<Seq<char>>,
) -> Seq<LlmValidationWarningView>
    decreases words.len(),
{
    if words.len() == 0 {
        Seq::<LlmValidationWarningView>::empty()
    } else {
        (if spec_contains_word(lower, words[0]) {
            seq![
                LlmValidationWarningView {
                    rule: "ISO-29148-UNAMBIGUOUS"@,
                    element_id: id,
                    severity: WarningSeverity::Warning,
                    message: id + ": mot ambigu detecte: \""@ + words[0] + "\""@,
                },
            ]
        } else {
            Seq::<LlmValidationWarningView>::empty()
        }) + spec_ambiguous_warns(id, lower, words.drop_first())
    }
}

/// The per-requirement warnings: normative phrasing, ambiguous words,
/// identifier format, empty statement, top-priority risk, quality
/// characteristic.
pub open spec fn spec_fr_warns(fr: FunctionalRequirementView) -> Seq<LlmValidationWarningView> {
    let lower = spec_fold_lower(fr.statement);
    let upper = spec_fold_upper(fr.statement);
    (if !spec_has_normative(upper) {
        seq![
            LlmValidationWarningView {
                rule: "ISO-29148-NORMATIVE"@,
                element_id: fr.id,
                severity: WarningSeverity::Warning,
                message: fr.id + ": enonce sans mot normatif (MUST/SHOULD/COULD)"@,
            },
        ]
    } else {
        Seq::<LlmValidationWarningView>::empty()
    }) + spec_ambiguous_warns(fr.id, lower, spec_ambiguous_words()) + (if !spec_starts_with(
        fr.id,
        "FR-"@,
    ) {
        seq![
            LlmValidationWarningView {
                rule: "ISO-29148-CONFORMING"@,
                element_id: fr.id,
                severity: WarningSeverity::Warning,
                message: fr.id + ": ID ne suit pas le format FR-NNN"@,
            },
        ]
    } else {
        Seq::<LlmValidationWarningView>::empty()
    }) + (if spec_trim(fr.statement).len() == 0 {
        seq![
            LlmValidationWarningView {
                rule: "ISO-29148-COMPLETE"@,
                element_id: fr.id,
                severity: WarningSeverity::Error,
                message: fr.id + ": enonce vide"@,
            },
        ]
    } else {
        Seq::<LlmValidationWarningView>::empty()
    }) + (if fr.priority == Priority::P1 && fr.risk_level is None {
        seq![
            LlmValidationWarningView {
                rule: "ISO-29148-RISK"@,
                element_id: fr.id,
                severity: WarningSeverity::Info,
                message: fr.id + ": exigence P1 sans niveau de risque"@,
            },
        ]
    } else {
        Seq::<LlmValidationWarningView>::empty()
    }) + (if fr.category == RequirementCategory::NonFunctional && fr.quality_characteristic
        is None {
        seq![
            LlmValidationWarningView {
                rule: "ISO-25010-NFR"@,
                element_id: fr.id,
                severity: WarningSeverity::Info,
                message: fr.id
                    + ": exigence non-fonctionnelle sans quality_characteristic ISO 25010"@,
            },
        ]
    } else {
        Seq::<LlmValidationWarningView>::empty()
    })
}

/// The duplicate-identifier warnings: one per requirement whose identifier
/// already occurred earlier.
pub open spec fn spec_dup_warns(
    frs: Seq<FunctionalRequirementView>,
    i: int,
) -> Seq<LlmValidationWarningView>
    decreases frs.len() - i,
{
    if i < 0 || i >= frs.len() {
        Seq::<LlmValidationWarningView>::empty()
    } else {
        (if exists|j: int| 0 <= j < i && (#[trigger] frs[j].id) == frs[i].id {
            seq![
                LlmValidationWarningView {
                    rule: "ISO-29148-ID-UNIQUE"@,
                    element_id: frs[i].id,
                    severity: WarningSeverity::Error,
                    message: "ID duplique: "@ + frs[i].id,
                },
            ]
        } else {
            Seq::<LlmValidationWarningView>::empty()
        }) + spec_dup_warns(frs, i + 1)
    }
}

/// The per-requirement warnings of a whole sequence, in order.
pub open spec fn spec_all_fr_warns(
    frs: Seq<FunctionalRequirementView>,
) -> Seq<LlmValidationWarningView>
    decreases frs.len(),
{
    if frs.len() == 0 {
        Seq::<LlmValidationWarningView>::empty()
    } else {
        spec_fr_warns(frs[0]) + spec_all_fr_warns(frs.drop_first())
    }
}

/// An acceptance scenario is incomplete when one of its parts is blank.
pub open spec fn spec_ac_incomplete(a: crate::specification::AcceptanceScenarioView) -> bool {
    spec_trim(a.given).len() == 0 || spec_trim(a.when).len() == 0 || spec_trim(a.then_).len()
        == 0
}

/// The incomplete-acceptance warnings of one scenario, numbered from one.
pub open spec fn spec_ac_warns(
    us_id: Seq<char>,
    acs: Seq<crate::specification::AcceptanceScenarioView>,
    k: int,
) -> Seq<LlmValidationWarningView>
    decreases acs.len() - k,
{
    if k < 0 || k >= acs.len() {
        Seq::<LlmValidationWarningView>::empty()
    } else {
        (if spec_ac_incomplete(acs[k]) {
            seq![
                LlmValidationWarningView {
                    rule: "ISO-29148-TESTABLE"@,
                    element_id: us_id,
                    severity: WarningSeverity::Warning,
                    message: us_id + ": scenario d'acceptation "@ + spec_digits((k + 1) as nat)
                        + " incomplet (Given/When/Then vide)"@,
                },
            ]
        } else {
            Seq::<LlmValidationWarningView>::empty()
        }) + spec_ac_warns(us_id, acs, k + 1)
    }
}

pub open spec fn spec_all_ac_warns(
    us: Seq<crate::specification::UserScenarioView>,
) -> Seq<LlmValidationWarningView>
    decreases us.len(),
{
    if us.len() == 0 {
        Seq::<LlmValidationWarningView>::empty()
    } else {
        spec_ac_warns(us[0].id, us[0].acceptance_scenarios, 0) + spec_all_ac_warns(
            us.drop_first(),
        )
    }
}

/// Every warning the specification-output check reports, in order.
pub open spec fn spec_llm_spec_warns(sv: SpecificationView) -> Seq<LlmValidationWarningView> {
    spec_dup_warns(sv.functional_requirements, 0) + spec_all_fr_warns(sv.functional_requirements)
        + spec_all_ac_warns(sv.user_scenarios)
}

fn ambiguous_warns(id: &String, lower: &Vec<char>) -> (r: Vec<LlmValidationWarning>)
    ensures
        r.deep_view() == spec_ambiguous_warns(id@, lower@, spec_ambiguous_words()),
{
    let words = ambiguous_words();
    let mut out: Vec<LlmValidationWarning> = Vec::new();
    let mut i: usize = 0;
    proof {
        assert(spec_ambiguous_words().skip(0) =~= spec_ambiguous_words());
    }
    while i < words.len()
        invariant
            i <= words@.len(),
            words.deep_view() == spec_ambiguous_words(),
            out.deep_view() + spec_ambiguous_warns(id@, lower@, spec_ambiguous_words().skip(
                i as int,
            )) =~= spec_ambiguous_warns(id@, lower@, spec_ambiguous_words()),
        decreases words@.len() - i,
    {
        let ghost rem = spec_ambiguous_words().skip(i as int);
        proof {
            assert(rem[0] == spec_ambiguous_words()[i as int]);
            assert(rem.drop_first() =~= spec_ambiguous_words().skip(i + 1));
            assert(words.deep_view()[i as int] == spec_ambiguous_words()[i as int]);
        }
        let w = to_chars(words[i].as_str());
        if contains_word_chars(lower, &w) {
            let msg = id_quoted_message(id, ": mot ambigu detecte: \"", &words[i], "\"");
            let ghost pre = out.deep_view();
            out.push(warning("ISO-29148-UNAMBIGUOUS", id, WarningSeverity::Warning, msg));
            proof {
                assert(out.deep_view() =~= pre.push(
                    LlmValidationWarningView {
                        rule: "ISO-29148-UNAMBIGUOUS"@,
                        element_id: id@,
                        severity: WarningSeverity::Warning,
                        message: id@ + ": mot ambigu detecte: \""@ + spec_ambiguous_words()[
                            i as int
                        ] + "\""@,
                    },
                ));
            }
        }
        i = i + 1;
        proof {
            assert(out.deep_view() + spec_ambiguous_warns(id@, lower@, spec_ambiguous_words().skip(
                i as int,
            )) =~= spec_ambiguous_warns(id@, lower@, spec_ambiguous_words()));
        }
    }
    proof {
        assert(spec_ambiguous_words().skip(spec_ambiguous_words().len() as int) =~= Seq::<
            Seq<char>,
        >::empty());
        assert(out.deep_view() =~= spec_ambiguous_warns(id@, lower@, spec_ambiguous_words()));
    }
    out
}

fn fr_warns(fr: &crate::specification::FunctionalRequirement) -> (r: Vec<LlmValidationWarning>)
    ensures
        r.deep_view() == spec_fr_warns(fr.deep_view()),
{
    let ghost fv = fr.deep_view();
    let stmt = to_chars(fr.statement.as_str());
    let lower = fold_lower(&stmt);
    let upper = fold_upper(&stmt);
    let mut out: Vec<LlmValidationWarning> = Vec::new();
    if !has_normative_chars(&upper) {
        out.push(
            warning(
                "ISO-29148-NORMATIVE",
                &fr.id,
                WarningSeverity::Warning,
                id_message(&fr.id, ": enonce sans mot normatif (MUST/SHOULD/COULD)"),
            ),
        );
    }
    let mut amb = ambiguous_warns(&fr.id, &lower);
    out.append(&mut amb);
    if !starts_with_str(fr.id.as_str(), "FR-") {
        out.push(
            warning(
                "ISO-29148-CONFORMING",
                &fr.id,
                WarningSeverity::Warning,
                id_message(&fr.id, ": ID ne suit pas le format FR-NNN"),
            ),
        );
    }
    let trimmed = trim(&stmt);
    if trimmed.len() == 0 {
        out.push(
            warning(
                "ISO-29148-COMPLETE",
                &fr.id,
                WarningSeverity::Error,
                id_message(&fr.id, ": enonce vide"),
            ),
        );
    }
    let no_risk: bool = match fr.risk_level {
        Some(_) => false,
        None => true,
    };
    if fr.priority == Priority::P1 && no_risk {
        out.push(
            warning(
                "ISO-29148-RISK",
                &fr.id,
                WarningSeverity::Info,
                id_message(&fr.id, ": exigence P1 sans niveau de risque"),
            ),
        );
    }
    let no_qc: bool = match fr.quality_characteristic {
        Some(_) => false,
        None => true,
    };
    if fr.category == RequirementCategory::NonFunctional && no_qc {
        out.push(
            warning(
                "ISO-25010-NFR",
                &fr.id,
                WarningSeverity::Info,
                id_message(
                    &fr.id,
                    ": exigence non-fonctionnelle sans quality_characteristic ISO 25010",
                ),
            ),
        );
    }
    proof {
        assert(out.deep_view() =~= spec_fr_warns(fv));
    }
    out
}

/// Checks a merged specification's shape: duplicate identifiers, normative
/// phrasing, ambiguous words, identifier formats, top-priority risk levels,
/// quality characteristics and complete acceptance scenarios.
#[verifier::rlimit(100)]
pub fn validate_llm_spec_output(spec: &Specification) -> (r: Vec<LlmValidationWarning>)
    ensures
        r.deep_view() == spec_llm_spec_warns(spec.deep_view()),
{
    let ghost sv = spec.deep_view();
    let ghost frs = sv.functional_requirements;
    let mut out: Vec<LlmValidationWarning> = Vec::new();

    // Duplicate identifiers.
    let mut i: usize = 0;
    while i < spec.functional_requirements.len()
        invariant
            i <= spec.functional_requirements@.len(),
            sv == spec.deep_view(),
            frs == sv.functional_requirements,
            out.deep_view() + spec_dup_warns(frs, i as int) =~= spec_dup_warns(frs, 0),
        decreases spec.functional_requirements@.len() - i,
    {
        let mut dup: bool = false;
        let mut j: usize = 0;
        while j < i
            invariant
                j <= i < spec.functional_requirements@.len(),
                sv == spec.deep_view(),
                frs == sv.functional_requirements,
                dup == exists|m: int| 0 <= m < j && (#[trigger] frs[m].id) == frs[i as int].id,
            decreases i - j,
        {
            if string_eq_str(
                &spec.functional_requirements[j].id,
                spec.functional_requirements[i].id.as_str(),
            ) {
                proof {
                    assert(frs[j as int].id == frs[i as int].id);
                }
                dup = true;
            } else {
                proof {
                    assert(frs[j as int].id != frs[i as int].id);
                }
            }
            j = j + 1;
        }
        if dup {
            let mut msg = String::from_str("ID duplique: ");
            msg.append(spec.functional_requirements[i].id.as_str());
            proof {
                assert(msg@ =~= "ID duplique: "@ + frs[i as int].id);
            }
            let ghost pre = out.deep_view();
            out.push(
                warning(
                    "ISO-29148-ID-UNIQUE",
                    &spec.functional_requirements[i].id,
                    WarningSeverity::Error,
                    msg,
                ),
            );
        }
        i = i + 1;
        proof {
            assert(out.deep_view() + spec_dup_warns(frs, i as int) =~= spec_dup_warns(frs, 0));
        }
    }
    proof {
        assert(out.deep_view() =~= spec_dup_warns(frs, 0));
    }

    // Per-requirement checks.
    let mut i: usize = 0;
    proof {
        assert(frs.skip(0) =~= frs);
    }
    while i < spec.functional_requirements.len()
        invariant
            i <= spec.functional_requirements@.len(),
            sv == spec.deep_view(),
            frs == sv.functional_requirements,
            out.deep_view() + spec_all_fr_warns(frs.skip(i as int)) =~= spec_dup_warns(frs, 0)
                + spec_all_fr_warns(frs),
        decreases spec.functional_requirements@.len() - i,
    {
        let ghost rem = frs.skip(i as int);
        proof {
            assert(rem[0] == frs[i as int]);
            assert(rem.drop_first() =~= frs.skip(i + 1));
        }
        let mut w = fr_warns(&spec.functional_requirements[i]);
        out.append(&mut w);
        i = i + 1;
        proof {
            assert(out.deep_view() + spec_all_fr_warns(frs.skip(i as int)) =~= spec_dup_warns(
                frs,
                0,
            ) + spec_all_fr_warns(frs));
        }
    }
    proof {
        assert(frs.skip(frs.len() as int) =~= Seq::<FunctionalRequirementView>::empty());
    }

    // Acceptance-scenario completeness.
    let ghost usv = sv.user_scenarios;
    let mut i: usize = 0;
    proof {
        assert(usv.skip(0) =~= usv);
    }
    while i < spec.user_scenarios.len()
        invariant
            i <= spec.user_scenarios@.len(),
            sv == spec.deep_view(),
            frs == sv.functional_requirements,
            usv == sv.user_scenarios,
            out.deep_view() + spec_all_ac_warns(usv.skip(i as int)) =~= spec_llm_spec_warns(sv),
        decreases spec.user_scenarios@.len() - i,
    {
        let ghost rem = usv.skip(i as int);
        proof {
            assert(rem[0] == usv[i as int]);
            assert(rem.drop_first() =~= usv.skip(i + 1));
        }
        let us = &spec.user_scenarios[i];
        let ghost acs = us.deep_view().acceptance_scenarios;
        let mut k: usize = 0;
        while k < us.acceptance_scenarios.len()
            invariant
                k <= us.acceptance_scenarios@.len(),
                acs == us.deep_view().acceptance_scenarios,
                us.deep_view() == usv[i as int],
                i < usv.len(),
                sv == spec.deep_view(),
                usv == sv.user_scenarios,
                out.deep_view() + spec_ac_warns(usv[i as int].id, acs, k as int) + spec_all_ac_warns(
                    usv.skip(i + 1),
                ) =~= spec_llm_spec_warns(sv),
            decreases us.acceptance_scenarios@.len() - k,
        {
            let a = &us.acceptance_scenarios[k];
            proof {
                assert(a.deep_view() == acs[k as int]);
            }
            let g = trim(&to_chars(a.given.as_str()));
            let w2 = trim(&to_chars(a.when.as_str()));
            let t2 = trim(&to_chars(a.then_.as_str()));
            if g.len() == 0 || w2.len() == 0 || t2.len() == 0 {
                let mut msg = us.id.clone();
                msg.append(": scenario d'acceptation ");
                let mut digits: Vec<char> = Vec::new();
                push_u64_digits((k as u64) + 1, &mut digits);
                let ds = chars_to_string(&digits);
                msg.append(ds.as_str());
                msg.append(" incomplet (Given/When/Then vide)");
                proof {
                    assert(msg@ =~= usv[i as int].id + ": scenario d'acceptation "@ + spec_digits(
                        (k + 1) as nat,
                    ) + " incomplet (Given/When/Then vide)"@);
                }
                let ghost pre = out.deep_view();
                out.push(warning("ISO-29148-TESTABLE", &us.id, WarningSeverity::Warning, msg));
                proof {
                    assert(out.deep_view() =~= pre.push(
                        LlmValidationWarningView {
                            rule: "ISO-29148-TESTABLE"@,
                            element_id: usv[i as int].id,
                            severity: WarningSeverity::Warning,
                            message: usv[i as int].id + ": scenario d'acceptation "@
                                + spec_digits((k + 1) as nat)
                                + " incomplet (Given/When/Then vide)"@,
                        },
                    ));
                }
            }
            k = k + 1;
            proof {
                assert(out.deep_view() + spec_ac_warns(usv[i as int].id, acs, k as int)
                    + spec_all_ac_warns(usv.skip(i + 1)) =~= spec_llm_spec_warns(sv));
            }
        }
        i = i + 1;
        proof {
            assert(spec_ac_warns(usv[(i - 1) as int].id, acs, acs.len() as int) =~= Seq::<
                LlmValidationWarningView,
            >::empty());
            assert(out.deep_view() + spec_all_ac_warns(usv.skip(i as int)) =~= spec_llm_spec_warns(
                sv,
            ));
        }
    }
    proof {
        assert(usv.skip(usv.len() as int) =~= Seq::<
            crate::specification::UserScenarioView,
        >::empty());
        assert(out.deep_view() =~= spec_llm_spec_warns(sv));
    }
    out
}


// ---------------------------------------------------------------------------
// Test-suite output checks
// ---------------------------------------------------------------------------

/// A scenario references the requirement: a verification link, or a tag
/// containing the identifier as a substring.
pub open spec fn spec_scen_refs(s: ScenarioView, id: Seq<char>) -> bool {
    seq_contains_str(s.verification_of, id) || exists|t: int|
        0 <= t < s.tags.len() && spec_contains(#[trigger] s.tags[t], id)
}

pub open spec fn spec_count_refs_in(ss: Seq<ScenarioView>, id: Seq<char>) -> nat
    decreases ss.len(),
{
    if ss.len() == 0 {
        0
    } else {
        (if spec_scen_refs(ss[0], id) {
            1nat
        } else {
            0nat
        }) + spec_count_refs_in(ss.drop_first(), id)
    }
}

/// How many scenarios across the suite reference the requirement.
pub open spec fn spec_count_refs(fs: Seq<FeatureView>, id: Seq<char>) -> nat
    decreases fs.len(),
{
    if fs.len() == 0 {
        0
    } else {
        spec_count_refs_in(fs[0].scenarios, id) + spec_count_refs(fs.drop_first(), id)
    }
}

/// The uncovered-requirement warnings, in requirement order.
pub open spec fn spec_cov_warns(
    frs: Seq<FunctionalRequirementView>,
    covered: Seq<Seq<char>>,
) -> Seq<LlmValidationWarningView>
    decreases frs.len(),
{
    if frs.len() == 0 {
        Seq::<LlmValidationWarningView>::empty()
    } else {
        (if !seq_contains_str(covered, frs[0].id) {
            seq![
                LlmValidationWarningView {
                    rule: "ISO-29119-COVERAGE"@,
                    element_id: frs[0].id,
                    severity: WarningSeverity::Warning,
                    message: frs[0].id + ": exigence non couverte par aucun test"@,
                },
            ]
        } else {
            Seq::<LlmValidationWarningView>::empty()
        }) + spec_cov_warns(frs.drop_first(), covered)
    }
}

/// The depth warnings for top-priority requirements with fewer than two
/// referencing scenarios.
pub open spec fn spec_depth_warns(
    frs: Seq<FunctionalRequirementView>,
    fs: Seq<FeatureView>,
) -> Seq<LlmValidationWarningView>
    decreases frs.len(),
{
    if frs.len() == 0 {
        Seq::<LlmValidationWarningView>::empty()
    } else {
        (if frs[0].priority == Priority::P1 && spec_count_refs(fs, frs[0].id) < 2 {
            seq![
                LlmValidationWarningView {
                    rule: "ISO-29119-P1-DEPTH"@,
                    element_id: frs[0].id,
                    severity: WarningSeverity::Info,
                    message: frs[0].id + ": exigence P1 avec seulement "@ + spec_digits(
                        spec_count_refs(fs, frs[0].id),
                    ) + " scenario(s) (recommande >= 2)"@,
                },
            ]
        } else {
            Seq::<LlmValidationWarningView>::empty()
        }) + spec_depth_warns(frs.drop_first(), fs)
    }
}

/// A scenario carries some requirement reference: a verification link, or a
/// tag opening with the requirement prefix.
pub open spec fn spec_has_fr_ref(s: ScenarioView) -> bool {
    s.verification_of.len() > 0 || exists|t: int|
        0 <= t < s.tags.len() && spec_starts_with(#[trigger] s.tags[t], "@FR-"@)
}

pub open spec fn spec_orphan_warns_in(ss: Seq<ScenarioView>) -> Seq<LlmValidationWarningView>
    decreases ss.len(),
{
    if ss.len() == 0 {
        Seq::<LlmValidationWarningView>::empty()
    } else {
        (if !spec_has_fr_ref(ss[0]) {
            seq![
                LlmValidationWarningView {
                    rule: "ISO-29119-TRACEABILITY"@,
                    element_id: ss[0].name,
                    severity: WarningSeverity::Info,
                    message: "Scenario \""@ + ss[0].name
                        + "\" sans reference a une exigence (verification_of vide)"@,
                },
            ]
        } else {
            Seq::<LlmValidationWarningView>::empty()
        }) + spec_orphan_warns_in(ss.drop_first())
    }
}

pub open spec fn spec_orphan_warns(fs: Seq<FeatureView>) -> Seq<LlmValidationWarningView>
    decreases fs.len(),
{
    if fs.len() == 0 {
        Seq::<LlmValidationWarningView>::empty()
    } else {
        spec_orphan_warns_in(fs[0].scenarios) + spec_orphan_warns(fs.drop_first())
    }
}

/// The dangling-reference warnings of one scenario, in link order.
pub open spec fn spec_ref_warns_scen(
    s: ScenarioView,
    fr_ids: Seq<Seq<char>>,
    k: int,
) -> Seq<LlmValidationWarningView>
    decreases s.verification_of.len() - k,
{
    if k < 0 || k >= s.verification_of.len() {
        Seq::<LlmValidationWarningView>::empty()
    } else {
        (if !seq_contains_str(fr_ids, s.verification_of[k]) {
            seq![
                LlmValidationWarningView {
                    rule: "ISO-29119-REF-VALID"@,
                    element_id: s.name,
                    severity: WarningSeverity::Warning,
                    message: "Scenario \""@ + s.name + "\" reference "@ + s.verification_of[k]
                        + " qui n'existe pas dans la spec"@,
                },
            ]
        } else {
            Seq::<LlmValidationWarningView>::empty()
        }) + spec_ref_warns_scen(s, fr_ids, k + 1)
    }
}

pub open spec fn spec_ref_warns_in(
    ss: Seq<ScenarioView>,
    fr_ids: Seq<Seq<char>>,
) -> Seq<LlmValidationWarningView>
    decreases ss.len(),
{
    if ss.len() == 0 {
        Seq::<LlmValidationWarningView>::empty()
    } else {
        spec_ref_warns_scen(ss[0], fr_ids, 0) + spec_ref_warns_in(ss.drop_first(), fr_ids)
    }
}

pub open spec fn spec_ref_warns(
    fs: Seq<FeatureView>,
    fr_ids: Seq<Seq<char>>,
) -> Seq<LlmValidationWarningView>
    decreases fs.len(),
{
    if fs.len() == 0 {
        Seq::<LlmValidationWarningView>::empty()
    } else {
        spec_ref_warns_in(fs[0].scenarios, fr_ids) + spec_ref_warns(fs.drop_first(), fr_ids)
    }
}

/// Every warning the suite-output check reports, in order.
pub open spec fn spec_llm_test_warns(
    tv: TestSuiteView,
    sv: SpecificationView,
) -> Seq<LlmValidationWarningView> {
    spec_cov_warns(
        sv.functional_requirements,
        crate::wellformed::spec_feature_covered(tv.features),
    ) + spec_depth_warns(sv.functional_requirements, tv.features) + spec_orphan_warns(tv.features)
        + spec_ref_warns(tv.features, crate::traceability::spec_fr_ids(
        sv.functional_requirements,
    ))
}

fn scen_refs(s: &crate::test_case::Scenario, id: &String) -> (r: bool)
    ensures
        r == spec_scen_refs(s.deep_view(), id@),
{
    if contains_string(&s.verification_of, id.as_str()) {
        return true;
    }
    let idc = to_chars(id.as_str());
    let mut t: usize = 0;
    while t < s.tags.len()
        invariant
            t <= s.tags@.len(),
            idc@ == id@,
            forall|m: int|
                0 <= m < t ==> !spec_contains(#[trigger] s.deep_view().tags[m], id@),
        decreases s.tags@.len() - t,
    {
        let tagc = to_chars(s.tags[t].as_str());
        proof {
            assert(tagc@ == s.deep_view().tags[t as int]);
        }
        if contains_sub(&tagc, &idc) {
            proof {
                assert(spec_contains(s.deep_view().tags[t as int], id@));
            }
            return true;
        }
        t = t + 1;
    }
    false
}

fn count_refs(suite: &TestSuite, id: &String) -> (r: usize)
    ensures
        r < usize::MAX ==> r == spec_count_refs(suite.features.deep_view(), id@),
        r == usize::MAX ==> spec_count_refs(suite.features.deep_view(), id@) >= usize::MAX,
{
    let ghost fs = suite.features.deep_view();
    let mut count: usize = 0;
    let mut i: usize = 0;
    proof {
        assert(fs.skip(0) =~= fs);
    }
    while i < suite.features.len()
        invariant
            i <= suite.features@.len(),
            fs == suite.features.deep_view(),
            count < usize::MAX ==> count as nat + spec_count_refs(fs.skip(i as int), id@)
                == spec_count_refs(fs, id@),
            count == usize::MAX ==> spec_count_refs(fs, id@) >= usize::MAX,
        decreases suite.features@.len() - i,
    {
        let ghost rem = fs.skip(i as int);
        proof {
            assert(rem[0] == fs[i as int]);
            assert(rem.drop_first() =~= fs.skip(i + 1));
        }
        let feature = &suite.features[i];
        let ghost ss = feature.deep_view().scenarios;
        let mut j: usize = 0;
        proof {
            assert(ss.skip(0) =~= ss);
        }
        while j < feature.scenarios.len()
            invariant
                j <= feature.scenarios@.len(),
                ss == feature.deep_view().scenarios,
                i < fs.len(),
                feature.deep_view() == fs[i as int],
                fs == suite.features.deep_view(),
                count < usize::MAX ==> count as nat + spec_count_refs_in(ss.skip(j as int), id@)
                    + spec_count_refs(fs.skip(i + 1), id@) == spec_count_refs(fs, id@),
                count == usize::MAX ==> spec_count_refs(fs, id@) >= usize::MAX,
            decreases feature.scenarios@.len() - j,
        {
            let ghost srem = ss.skip(j as int);
            proof {
                assert(srem[0] == ss[j as int]);
                assert(srem.drop_first() =~= ss.skip(j + 1));
            }
            if scen_refs(&feature.scenarios[j], id) {
                if count < usize::MAX {
                    count = count + 1;
                }
            }
            j = j + 1;
        }
        proof {
            assert(ss.skip(ss.len() as int) =~= Seq::<ScenarioView>::empty());
        }
        i = i + 1;
    }
    proof {
        assert(fs.skip(fs.len() as int) =~= Seq::<FeatureView>::empty());
    }
    count
}

/// Checks a merged suite against its specification: uncovered requirements,
/// shallow top-priority coverage, scenarios with no requirement reference,
/// and references to unknown requirements.
#[verifier::rlimit(100)]
pub fn validate_llm_test_output(suite: &TestSuite, spec: &Specification) -> (r: Vec<
    LlmValidationWarning,
>)
    ensures
        r.deep_view() == spec_llm_test_warns(suite.deep_view(), spec.deep_view()),
{
    let ghost tv = suite.deep_view();
    let ghost sv = spec.deep_view();
    let ghost fs = tv.features;
    let ghost frs = sv.functional_requirements;
    let mut out: Vec<LlmValidationWarning> = Vec::new();

    // The explicitly covered identifiers, for the coverage warnings.
    let mut covered: Vec<String> = Vec::new();
    let mut i: usize = 0;
    proof {
        assert(fs.skip(0) =~= fs);
    }
    while i < suite.features.len()
        invariant
            i <= suite.features@.len(),
            tv == suite.deep_view(),
            fs == tv.features,
            covered.deep_view() + crate::wellformed::spec_feature_covered(fs.skip(i as int))
                =~= crate::wellformed::spec_feature_covered(fs),
        decreases suite.features@.len() - i,
    {
        let ghost rem = fs.skip(i as int);
        proof {
            assert(rem[0] == fs[i as int]);
            assert(rem.drop_first() =~= fs.skip(i + 1));
        }
        let feature = &suite.features[i];
        let ghost cr = feature.deep_view().covered_requirements;
        let ghost base = covered.deep_view();
        let mut k: usize = 0;
        while k < feature.covered_requirements.len()
            invariant
                k <= feature.covered_requirements@.len(),
                cr == feature.deep_view().covered_requirements,
                covered.deep_view() =~= base + cr.take(k as int),
            decreases feature.covered_requirements@.len() - k,
        {
            crate::dup::push_string(&mut covered, &feature.covered_requirements[k]);
            k = k + 1;
            proof {
                assert(covered.deep_view() =~= base + cr.take(k as int));
            }
        }
        i = i + 1;
        proof {
            assert(cr.take(cr.len() as int) =~= cr);
            assert(covered.deep_view() + crate::wellformed::spec_feature_covered(fs.skip(i as int))
                =~= crate::wellformed::spec_feature_covered(fs));
        }
    }
    proof {
        assert(fs.skip(fs.len() as int) =~= Seq::<FeatureView>::empty());
        assert(covered.deep_view() =~= crate::wellformed::spec_feature_covered(fs));
    }

    // Uncovered requirements.
    let mut i: usize = 0;
    proof {
        assert(frs.skip(0) =~= frs);
    }
    while i < spec.functional_requirements.len()
        invariant
            i <= spec.functional_requirements@.len(),
            sv == spec.deep_view(),
            frs == sv.functional_requirements,
            covered.deep_view() == crate::wellformed::spec_feature_covered(fs),
            fs == tv.features,
            tv == suite.deep_view(),
            out.deep_view() + spec_cov_warns(frs.skip(i as int), covered.deep_view())
                =~= spec_cov_warns(frs, covered.deep_view()),
        decreases spec.functional_requirements@.len() - i,
    {
        let ghost rem = frs.skip(i as int);
        proof {
            assert(rem[0] == frs[i as int]);
            assert(rem.drop_first() =~= frs.skip(i + 1));
        }
        let fr = &spec.functional_requirements[i];
        if !contains_string(&covered, fr.id.as_str()) {
            let ghost pre = out.deep_view();
            out.push(
                warning(
                    "ISO-29119-COVERAGE",
                    &fr.id,
                    WarningSeverity::Warning,
                    id_message(&fr.id, ": exigence non couverte par aucun test"),
                ),
            );
        }
        i = i + 1;
        proof {
            assert(out.deep_view() + spec_cov_warns(frs.skip(i as int), covered.deep_view())
                =~= spec_cov_warns(frs, covered.deep_view()));
        }
    }
    proof {
        assert(frs.skip(frs.len() as int) =~= Seq::<FunctionalRequirementView>::empty());
    }

    // Shallow top-priority coverage.
    let mut i: usize = 0;
    proof {
        assert(frs.skip(0) =~= frs);
    }
    while i < spec.functional_requirements.len()
        invariant
            i <= spec.functional_requirements@.len(),
            sv == spec.deep_view(),
            frs == sv.functional_requirements,
            fs == tv.features,
            tv == suite.deep_view(),
            covered.deep_view() == crate::wellformed::spec_feature_covered(fs),
            out.deep_view() + spec_depth_warns(frs.skip(i as int), fs) =~= spec_cov_warns(
                frs,
                covered.deep_view(),
            ) + spec_depth_warns(frs, fs),
        decreases spec.functional_requirements@.len() - i,
    {
        let ghost rem = frs.skip(i as int);
        proof {
            assert(rem[0] == frs[i as int]);
            assert(rem.drop_first() =~= frs.skip(i + 1));
        }
        let fr = &spec.functional_requirements[i];
        if fr.priority == Priority::P1 {
            let n = count_refs(suite, &fr.id);
            if n < 2 {
                let mut msg = fr.id.clone();
                msg.append(": exigence P1 avec seulement ");
                let mut digits: Vec<char> = Vec::new();
                push_u64_digits(n as u64, &mut digits);
                let ds = chars_to_string(&digits);
                msg.append(ds.as_str());
                msg.append(" scenario(s) (recommande >= 2)");
                proof {
                    assert(msg@ =~= frs[i as int].id + ": exigence P1 avec seulement "@
                        + spec_digits(spec_count_refs(fs, frs[i as int].id))
                        + " scenario(s) (recommande >= 2)"@);
                }
                out.push(warning("ISO-29119-P1-DEPTH", &fr.id, WarningSeverity::Info, msg));
            }
        }
        i = i + 1;
        proof {
            assert(out.deep_view() + spec_depth_warns(frs.skip(i as int), fs) =~= spec_cov_warns(
                frs,
                covered.deep_view(),
            ) + spec_depth_warns(frs, fs));
        }
    }

    // Orphan scenarios and dangling references share the feature loop.
    let mut fr_ids: Vec<String> = Vec::new();
    let mut i: usize = 0;
    while i < spec.functional_requirements.len()
        invariant
            i <= spec.functional_requirements@.len(),
            sv == spec.deep_view(),
            frs == sv.functional_requirements,
            fr_ids@.len() == i,
            forall|k: int|
                0 <= k < i ==> fr_ids.deep_view()[k] == crate::traceability::spec_fr_ids(frs)[k],
        decreases spec.functional_requirements@.len() - i,
    {
        let ghost pre = fr_ids.deep_view();
        crate::dup::push_string(&mut fr_ids, &spec.functional_requirements[i].id);
        i = i + 1;
        proof {
            assert forall|k: int|
                0 <= k < i implies fr_ids.deep_view()[k] == crate::traceability::spec_fr_ids(
                frs,
            )[k] by {
                if k < i - 1 {
                    assert(fr_ids.deep_view()[k] == pre[k]);
                }
            }
        }
    }
    proof {
        assert(fr_ids.deep_view() =~= crate::traceability::spec_fr_ids(frs));
    }

    let ghost cov_depth = spec_cov_warns(frs, covered.deep_view()) + spec_depth_warns(frs, fs);
    let mut i: usize = 0;
    proof {
        assert(fs.skip(0) =~= fs);
    }
    while i < suite.features.len()
        invariant
            i <= suite.features@.len(),
            tv == suite.deep_view(),
            fs == tv.features,
            cov_depth == spec_cov_warns(frs, covered.deep_view()) + spec_depth_warns(frs, fs),
            covered.deep_view() == crate::wellformed::spec_feature_covered(fs),
            frs == sv.functional_requirements,
            sv == spec.deep_view(),
            out.deep_view() + spec_orphan_warns(fs.skip(i as int)) =~= cov_depth
                + spec_orphan_warns(fs),
        decreases suite.features@.len() - i,
    {
        let ghost rem = fs.skip(i as int);
        proof {
            assert(rem[0] == fs[i as int]);
            assert(rem.drop_first() =~= fs.skip(i + 1));
        }
        let feature = &suite.features[i];
        let ghost ss = feature.deep_view().scenarios;
        let ghost base = out.deep_view();
        let mut j: usize = 0;
        proof {
            assert(ss.skip(0) =~= ss);
        }
        while j < feature.scenarios.len()
            invariant
                j <= feature.scenarios@.len(),
                ss == feature.deep_view().scenarios,
                out.deep_view() + spec_orphan_warns_in(ss.skip(j as int)) =~= base
                    + spec_orphan_warns_in(ss),
            decreases feature.scenarios@.len() - j,
        {
            let ghost srem = ss.skip(j as int);
            proof {
                assert(srem[0] == ss[j as int]);
                assert(srem.drop_first() =~= ss.skip(j + 1));
            }
            let sc = &feature.scenarios[j];
            proof {
                assert(sc.deep_view() == ss[j as int]);
            }
            let mut has_ref: bool = sc.verification_of.len() > 0;
            if !has_ref {
                let mut t: usize = 0;
                while t < sc.tags.len()
                    invariant
                        t <= sc.tags@.len(),
                        sc.deep_view() == ss[j as int],
                        !has_ref ==> forall|m: int|
                            0 <= m < t ==> !spec_starts_with(
                                #[trigger] sc.deep_view().tags[m],
                                "@FR-"@,
                            ),
                        has_ref ==> spec_has_fr_ref(sc.deep_view()),
                    decreases sc.tags@.len() - t,
                {
                    let tagc = to_chars(sc.tags[t].as_str());
                    proof {
                        assert(tagc@ == sc.deep_view().tags[t as int]);
                    }
                    if starts_with_str(sc.tags[t].as_str(), "@FR-") {
                        proof {
                            assert(spec_starts_with(sc.deep_view().tags[t as int], "@FR-"@));
                        }
                        has_ref = true;
                    }
                    t = t + 1;
                }
            }
            if !has_ref {
                proof {
                    assert(!spec_has_fr_ref(ss[j as int]));
                }
                let mut msg = String::from_str("Scenario \"");
                msg.append(sc.name.as_str());
                msg.append("\" sans reference a une exigence (verification_of vide)");
                proof {
                    assert(msg@ =~= "Scenario \""@ + ss[j as int].name
                        + "\" sans reference a une exigence (verification_of vide)"@);
                }
                out.push(warning("ISO-29119-TRACEABILITY", &sc.name, WarningSeverity::Info, msg));
            } else {
                proof {
                    assert(spec_has_fr_ref(ss[j as int]));
                }
            }
            j = j + 1;
            proof {
                assert(out.deep_view() + spec_orphan_warns_in(ss.skip(j as int)) =~= base
                    + spec_orphan_warns_in(ss));
            }
        }
        i = i + 1;
        proof {
            assert(ss.skip(ss.len() as int) =~= Seq::<ScenarioView>::empty());
            assert(out.deep_view() + spec_orphan_warns(fs.skip(i as int)) =~= cov_depth
                + spec_orphan_warns(fs));
        }
    }

    let ghost before_refs = cov_depth + spec_orphan_warns(fs);
    let mut i: usize = 0;
    proof {
        assert(fs.skip(0) =~= fs);
    }
    while i < suite.features.len()
        invariant
            i <= suite.features@.len(),
            tv == suite.deep_view(),
            fs == tv.features,
            sv == spec.deep_view(),
            frs == sv.functional_requirements,
            fr_ids.deep_view() == crate::traceability::spec_fr_ids(frs),
            before_refs == cov_depth + spec_orphan_warns(fs),
            cov_depth == spec_cov_warns(frs, covered.deep_view()) + spec_depth_warns(frs, fs),
            covered.deep_view() == crate::wellformed::spec_feature_covered(fs),
            out.deep_view() + spec_ref_warns(fs.skip(i as int), fr_ids.deep_view())
                =~= before_refs + spec_ref_warns(fs, fr_ids.deep_view()),
        decreases suite.features@.len() - i,
    {
        let ghost rem = fs.skip(i as int);
        proof {
            assert(rem[0] == fs[i as int]);
            assert(rem.drop_first() =~= fs.skip(i + 1));
        }
        let feature = &suite.features[i];
        let ghost ss = feature.deep_view().scenarios;
        let ghost base = out.deep_view();
        let mut j: usize = 0;
        proof {
            assert(ss.skip(0) =~= ss);
        }
        while j < feature.scenarios.len()
            invariant
                j <= feature.scenarios@.len(),
                ss == feature.deep_view().scenarios,
                fr_ids.deep_view() == crate::traceability::spec_fr_ids(frs),
                frs == sv.functional_requirements,
                out.deep_view() + spec_ref_warns_in(ss.skip(j as int), fr_ids.deep_view())
                    =~= base + spec_ref_warns_in(ss, fr_ids.deep_view()),
            decreases feature.scenarios@.len() - j,
        {
            let ghost srem = ss.skip(j as int);
            proof {
                assert(srem[0] == ss[j as int]);
                assert(srem.drop_first() =~= ss.skip(j + 1));
            }
            let sc = &feature.scenarios[j];
            proof {
                assert(sc.deep_view() == ss[j as int]);
            }
            let ghost vbase = out.deep_view();
            let mut k: usize = 0;
            while k < sc.verification_of.len()
                invariant
                    k <= sc.verification_of@.len(),
                    sc.deep_view() == ss[j as int],
                    fr_ids.deep_view() == crate::traceability::spec_fr_ids(frs),
                    out.deep_view() + spec_ref_warns_scen(ss[j as int], fr_ids.deep_view(),
                        k as int) =~= vbase + spec_ref_warns_scen(
                        ss[j as int],
                        fr_ids.deep_view(),
                        0,
                    ),
                decreases sc.verification_of@.len() - k,
            {
                let v = &sc.verification_of[k];
                proof {
                    assert(v@ == ss[j as int].verification_of[k as int]);
                }
                if !contains_string(&fr_ids, v.as_str()) {
                    let mut msg = String::from_str("Scenario \"");
                    msg.append(sc.name.as_str());
                    msg.append("\" reference ");
                    msg.append(v.as_str());
                    msg.append(" qui n'existe pas dans la spec");
                    proof {
                        assert(msg@ =~= "Scenario \""@ + ss[j as int].name + "\" reference "@
                            + ss[j as int].verification_of[k as int]
                            + " qui n'existe pas dans la spec"@);
                    }
                    out.push(warning("ISO-29119-REF-VALID", &sc.name, WarningSeverity::Warning, msg));
                }
                k = k + 1;
                proof {
                    assert(out.deep_view() + spec_ref_warns_scen(ss[j as int],
                        fr_ids.deep_view(), k as int) =~= vbase + spec_ref_warns_scen(
                        ss[j as int],
                        fr_ids.deep_view(),
                        0,
                    ));
                }
            }
            j = j + 1;
            proof {
                assert(spec_ref_warns_scen(ss[(j - 1) as int], fr_ids.deep_view(),
                    ss[(j - 1) as int].verification_of.len() as int) =~= Seq::<
                    LlmValidationWarningView,
                >::empty());
                assert(out.deep_view() + spec_ref_warns_in(ss.skip(j as int),
                    fr_ids.deep_view()) =~= base + spec_ref_warns_in(ss, fr_ids.deep_view()));
            }
        }
        i = i + 1;
        proof {
            assert(ss.skip(ss.len() as int) =~= Seq::<ScenarioView>::empty());
            assert(out.deep_view() + spec_ref_warns(fs.skip(i as int), fr_ids.deep_view())
                =~= before_refs + spec_ref_warns(fs, fr_ids.deep_view()));
        }
    }
    proof {
        assert(fs.skip(fs.len() as int) =~= Seq::<FeatureView>::empty());
        assert(out.deep_view() =~= spec_llm_test_warns(tv, sv));
    }
    out
}

} // verus!
