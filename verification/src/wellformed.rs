//! Well-formedness rules for requirements: ambiguous-word detection with
//! word boundaries, the per-requirement criteria check, the specification
//! checklist, and the simple forward-coverage gap list.

use vstd::prelude::*;
use vstd::string::*;

use crate::lexicon::{ambiguous_words, normative_keywords, spec_ambiguous_words,
    spec_normative_keywords};
use crate::specification::{ChecklistItem, FunctionalRequirement, FunctionalRequirementView,
    RequirementCategory, SpecValidation, Specification, SpecificationView, VerificationMethod};
use crate::story::Priority;
use crate::test_case::{TestSuite, TestSuiteView};
use crate::textutil::{fold_lower, fold_upper, chars_to_string, contains_string, contains_sub,
    find_from, is_match_at, lemma_find_from_first, lemma_find_from_none, match_at,
    seq_contains_str, spec_fold_lower, spec_fold_upper, spec_contains, spec_is_ascii_alnum,
    spec_trim, to_chars, trim, is_ascii_alnum_char, string_eq_str};
use crate::dup::push_string;

verus! {

// ---------------------------------------------------------------------------
// Word-boundary matching
// ---------------------------------------------------------------------------

/// The word occurs at position `p` with no alphanumeric neighbour.
pub open spec fn word_at(text: Seq<char>, word: Seq<char>, p: int) -> bool {
    &&& match_at(text, word, p)
    &&& (p == 0 || !spec_is_ascii_alnum(text[p - 1]))
    &&& (p + word.len() == text.len() || !spec_is_ascii_alnum(text[p + word.len() as int]))
}

/// The word occurs as a whole word; a phrase with a space is matched as a
/// plain substring.
pub open spec fn spec_contains_word(text: Seq<char>, word: Seq<char>) -> bool {
    if spec_contains(word, seq![' ']) {
        spec_contains(text, word)
    } else {
        exists|p: int| word_at(text, word, p)
    }
}

pub fn contains_word_chars(text: &Vec<char>, word: &Vec<char>) -> (r: bool)
    ensures
        r == spec_contains_word(text@, word@),
{
    let mut space: Vec<char> = Vec::new();
    space.push(' ');
    proof {
        assert(space@ =~= seq![' ']);
    }
    if contains_sub(word, &space) {
        return contains_sub(text, word);
    }
    let tl: usize = text.len();
    let wl: usize = word.len();
    let mut start: usize = 0;
    loop
        invariant
            tl == text@.len(),
            wl == word@.len(),
            !spec_contains(word@, seq![' ']),
            forall|p: int| 0 <= p < start ==> !word_at(text@, word@, p),
        decreases tl + 1 - start,
    {
        if start > tl {
            proof {
                assert forall|p: int| word_at(text@, word@, p) implies false by {
                    assert(p + word@.len() <= text@.len());
                }
            }
            return false;
        }
        match find_from(text, word, start) {
            Some(p) => {
                let before_ok: bool = p == 0 || !is_ascii_alnum_char(text[p - 1]);
                let end: usize = p + word.len();
                let after_ok: bool = end == text.len() || !is_ascii_alnum_char(text[end]);
                if before_ok && after_ok {
                    proof {
                        assert(word_at(text@, word@, p as int));
                    }
                    return true;
                }
                proof {
                    assert forall|q: int| 0 <= q < p + 1 implies !word_at(text@, word@, q) by {
                        if q < start {
                        } else if q < p {
                            lemma_find_from_first(text@, word@, start as int, p as int, q);
                        } else {
                            assert(!word_at(text@, word@, p as int));
                        }
                    }
                }
                if p == tl {
                    proof {
                        assert forall|q: int| word_at(text@, word@, q) implies false by {
                            assert(q + word@.len() <= text@.len());
                        }
                    }
                    return false;
                }
                start = p + 1;
            },
            None => {
                proof {
                    assert forall|p: int| word_at(text@, word@, p) implies false by {
                        if p >= start {
                            lemma_find_from_none(text@, word@, start as int, p);
                        }
                    }
                }
                return false;
            },
        }
    }
}

/// Whether the word occurs in the text as a whole word (no alphanumeric
/// neighbours); a phrase containing a space is looked up as a substring.
pub fn contains_word(text: &str, word: &str) -> (r: bool)
    ensures
        r == spec_contains_word(text@, word@),
{
    let t = to_chars(text);
    let w = to_chars(word);
    contains_word_chars(&t, &w)
}

/// Same rule, applied to the ambiguous-word check.
pub fn contains_ambiguous_word(text: &str, word: &str) -> (r: bool)
    ensures
        r == spec_contains_word(text@, word@),
{
    contains_word(text, word)
}

/// The first ambiguous word (in list order) occurring in the lower-cased
/// statement, if any.
pub open spec fn spec_first_ambiguous(lower: Seq<char>, words: Seq<Seq<char>>) -> Option<
    Seq<char>,
>
    decreases words.len(),
{
    if words.len() == 0 {
        Option::None
    } else if spec_contains_word(lower, words[0]) {
        Option::Some(words[0])
    } else {
        spec_first_ambiguous(lower, words.drop_first())
    }
}

fn first_ambiguous(lower: &Vec<char>) -> (r: Option<String>)
    ensures
        match r {
            Some(w) => spec_first_ambiguous(lower@, spec_ambiguous_words()) == Some(w@),
            None => spec_first_ambiguous(lower@, spec_ambiguous_words()) is None,
        },
{
    let words = ambiguous_words();
    let ghost all = spec_ambiguous_words();
    let mut i: usize = 0;
    proof {
        assert(all.skip(0) =~= all);
    }
    while i < words.len()
        invariant
            i <= words@.len(),
            all == spec_ambiguous_words(),
            words.deep_view() == all,
            spec_first_ambiguous(lower@, all.skip(i as int)) == spec_first_ambiguous(lower@, all),
        decreases words@.len() - i,
    {
        let ghost rem = all.skip(i as int);
        proof {
            assert(rem[0] == all[i as int]);
            assert(rem.drop_first() =~= all.skip(i + 1));
        }
        let w = to_chars(words[i].as_str());
        if contains_word_chars(lower, &w) {
            let out = words[i].clone();
            proof {
                assert(words.deep_view()[i as int] == spec_ambiguous_words()[i as int]);
                assert(spec_first_ambiguous(lower@, spec_ambiguous_words().skip(i as int))
                    == Some(spec_ambiguous_words()[i as int]));
                assert(spec_first_ambiguous(lower@, spec_ambiguous_words()) == Some(out@));
            }
            return Some(out);
        }
        i = i + 1;
    }
    proof {
        assert(all.skip(all.len() as int) =~= Seq::<Seq<char>>::empty());
    }
    None
}

/// Some normative keyword occurs in the upper-cased statement (as a plain
/// substring).
pub open spec fn spec_has_normative(upper: Seq<char>) -> bool {
    exists|i: int|
        0 <= i < spec_normative_keywords().len() && spec_contains(
            upper,
            #[trigger] spec_normative_keywords()[i],
        )
}

pub fn has_normative_chars(upper: &Vec<char>) -> (r: bool)
    ensures
        r == spec_has_normative(upper@),
{
    let kws = normative_keywords();
    let ghost all = spec_normative_keywords();
    let mut i: usize = 0;
    while i < kws.len()
        invariant
            i <= kws@.len(),
            all == spec_normative_keywords(),
            kws.deep_view() == all,
            forall|k: int| 0 <= k < i ==> !spec_contains(upper@, #[trigger] all[k]),
        decreases kws@.len() - i,
    {
        let w = to_chars(kws[i].as_str());
        if contains_sub(upper, &w) {
            proof {
                assert(kws.deep_view()[i as int] == spec_normative_keywords()[i as int]);
                assert(spec_contains(upper@, spec_normative_keywords()[i as int]));
            }
            return true;
        }
        i = i + 1;
    }
    false
}

// ---------------------------------------------------------------------------
// The nine well-formedness criteria
// ---------------------------------------------------------------------------

/// The criteria a well-formed requirement satisfies.
#[derive(Clone, Copy, Debug, PartialEq, Eq, Structural)]
pub enum WellFormednessCriterion {
    /// Needed (no duplicate).
    Necessary,
    /// No vague words.
    Unambiguous,
    /// All fields filled in.
    Complete,
    /// One requirement per statement.
    Singular,
    /// Achievable.
    Feasible,
    /// Verifiable.
    Verifiable,
    /// Normative phrasing.
    Correct,
    /// Conforming identifier format.
    Conforming,
    /// Traceable to a source.
    Traceable,
}

impl DeepView for WellFormednessCriterion {
    type V = WellFormednessCriterion;

    open spec fn deep_view(&self) -> WellFormednessCriterion {
        *self
    }
}

/// Mathematical model of a `WellFormednessWarning`.
pub struct WellFormednessWarningView {
    pub requirement_id: Seq<char>,
    pub criterion: WellFormednessCriterion,
    pub message: Seq<char>,
}

/// One conformance warning on a requirement.
#[derive(Clone, Debug)]
pub struct WellFormednessWarning {
    pub requirement_id: String,
    pub criterion: WellFormednessCriterion,
    pub message: String,
}

impl DeepView for WellFormednessWarning {
    type V = WellFormednessWarningView;

    open spec fn deep_view(&self) -> WellFormednessWarningView {
        WellFormednessWarningView {
            requirement_id: self.requirement_id@,
            criterion: self.criterion,
            message: self.message@,
        }
    }
}

/// The compound connectors betraying several requirements in one statement.
pub open spec fn spec_connectors() -> Seq<Seq<char>> {
    seq![" and shall "@, " et doit "@, " and must "@, " et le systeme "@, " and the system "@]
}

fn connectors() -> (r: Vec<String>)
    ensures
        r.deep_view() == spec_connectors(),
{
    let mut r: Vec<String> = Vec::new();
    r.push(String::from_str(" and shall "));
    r.push(String::from_str(" et doit "));
    r.push(String::from_str(" and must "));
    r.push(String::from_str(" et le systeme "));
    r.push(String::from_str(" and the system "));
    proof {
        assert(r.deep_view() =~= spec_connectors());
    }
    r
}

/// The first compound connector occurring in the lower-cased statement.
pub open spec fn spec_first_connector(lower: Seq<char>, cs: Seq<Seq<char>>) -> Option<Seq<char>>
    decreases cs.len(),
{
    if cs.len() == 0 {
        Option::None
    } else if spec_contains(lower, cs[0]) {
        Option::Some(cs[0])
    } else {
        spec_first_connector(lower, cs.drop_first())
    }
}

fn first_connector(lower: &Vec<char>) -> (r: Option<String>)
    ensures
        match r {
            Some(w) => spec_first_connector(lower@, spec_connectors()) == Some(w@),
            None => spec_first_connector(lower@, spec_connectors()) is None,
        },
{
    let cs = connectors();
    let ghost all = spec_connectors();
    let mut i: usize = 0;
    proof {
        assert(all.skip(0) =~= all);
    }
    while i < cs.len()
        invariant
            i <= cs@.len(),
            all == spec_connectors(),
            cs.deep_view() == all,
            spec_first_connector(lower@, all.skip(i as int)) == spec_first_connector(lower@, all),
        decreases cs@.len() - i,
    {
        let ghost rem = all.skip(i as int);
        proof {
            assert(rem[0] == all[i as int]);
            assert(rem.drop_first() =~= all.skip(i + 1));
        }
        let w = to_chars(cs[i].as_str());
        if contains_sub(lower, &w) {
            let out = cs[i].clone();
            proof {
                assert(cs.deep_view()[i as int] == spec_connectors()[i as int]);
                assert(spec_first_connector(lower@, spec_connectors().skip(i as int)) == Some(
                    spec_connectors()[i as int],
                ));
                assert(spec_first_connector(lower@, spec_connectors()) == Some(out@));
            }
            return Some(out);
        }
        i = i + 1;
    }
    proof {
        assert(all.skip(all.len() as int) =~= Seq::<Seq<char>>::empty());
    }
    None
}

/// `s` starts with `p`.
pub open spec fn spec_starts_with(s: Seq<char>, p: Seq<char>) -> bool {
    match_at(s, p, 0)
}

pub fn starts_with(s: &Vec<char>, p: &Vec<char>) -> (r: bool)
    ensures
        r == spec_starts_with(s@, p@),
{
    if p.len() > s.len() {
        return false;
    }
    is_match_at(s, p, 0)
}

pub fn starts_with_str(s: &str, p: &str) -> (r: bool)
    ensures
        r == spec_starts_with(s@, p@),
{
    let sv = to_chars(s);
    let pv = to_chars(p);
    starts_with(&sv, &pv)
}

/// The warnings the nine-criteria check reports for one requirement, given
/// the set of all requirement identifiers.
pub open spec fn spec_wellformedness(
    fr: FunctionalRequirementView,
    all_ids: Seq<Seq<char>>,
) -> Seq<WellFormednessWarningView> {
    let lower = spec_fold_lower(fr.statement);
    let upper = spec_fold_upper(fr.statement);
    let w_ambiguous: Seq<WellFormednessWarningView> = match spec_first_ambiguous(
        lower,
        spec_ambiguous_words(),
    ) {
        Option::Some(w) => seq![
            WellFormednessWarningView {
                requirement_id: fr.id,
                criterion: WellFormednessCriterion::Unambiguous,
                message: "Mot ambigu detecte: \""@ + w + "\""@,
            },
        ],
        Option::None => Seq::empty(),
    };
    let w_complete: Seq<WellFormednessWarningView> = if spec_trim(fr.statement).len() == 0 {
        seq![
            WellFormednessWarningView {
                requirement_id: fr.id,
                criterion: WellFormednessCriterion::Complete,
                message: "Enonce vide"@,
            },
        ]
    } else {
        Seq::empty()
    };
    let w_singular: Seq<WellFormednessWarningView> = match spec_first_connector(
        lower,
        spec_connectors(),
    ) {
        Option::Some(c) => seq![
            WellFormednessWarningView {
                requirement_id: fr.id,
                criterion: WellFormednessCriterion::Singular,
                message: "Exigence composee detectee (connecteur: \""@ + spec_trim(c) + "\")"@,
            },
        ],
        Option::None => Seq::empty(),
    };
    let w_testable: Seq<WellFormednessWarningView> = if !fr.testable {
        seq![
            WellFormednessWarningView {
                requirement_id: fr.id,
                criterion: WellFormednessCriterion::Verifiable,
                message: "Exigence marquee non-testable"@,
            },
        ]
    } else {
        Seq::empty()
    };
    let w_method: Seq<WellFormednessWarningView> = if fr.verification_method
        == VerificationMethod::Test && !fr.testable {
        seq![
            WellFormednessWarningView {
                requirement_id: fr.id,
                criterion: WellFormednessCriterion::Verifiable,
                message: "Methode de verification absente pour exigence non-testable"@,
            },
        ]
    } else {
        Seq::empty()
    };
    let w_correct: Seq<WellFormednessWarningView> = if !spec_has_normative(upper) {
        seq![
            WellFormednessWarningView {
                requirement_id: fr.id,
                criterion: WellFormednessCriterion::Correct,
                message: "Enonce sans mot normatif (MUST/SHALL/SHOULD/COULD)"@,
            },
        ]
    } else {
        Seq::empty()
    };
    let w_conforming: Seq<WellFormednessWarningView> = if !spec_starts_with(fr.id, "FR-"@) {
        seq![
            WellFormednessWarningView {
                requirement_id: fr.id,
                criterion: WellFormednessCriterion::Conforming,
                message: "ID \""@ + fr.id + "\" ne suit pas le format FR-NNN"@,
            },
        ]
    } else {
        Seq::empty()
    };
    let w_traceable: Seq<WellFormednessWarningView> = match fr.parent_requirement {
        Option::Some(p) => if !seq_contains_str(all_ids, p) {
            seq![
                WellFormednessWarningView {
                    requirement_id: fr.id,
                    criterion: WellFormednessCriterion::Traceable,
                    message: "Parent \""@ + p + "\" n'existe pas"@,
                },
            ]
        } else {
            Seq::empty()
        },
        Option::None => Seq::empty(),
    };
    w_ambiguous + w_complete + w_singular + w_testable + w_method + w_correct + w_conforming
        + w_traceable
}

fn quoted_message(prefix: &str, middle: &String, suffix: &str) -> (r: String)
    ensures
        r@ == prefix@ + middle@ + suffix@,
{
    let mut s = String::from_str(prefix);
    s.append(middle.as_str());
    s.append(suffix);
    proof {
        assert(s@ =~= prefix@ + middle@ + suffix@);
    }
    s
}

/// Checks the nine well-formedness criteria on one requirement and reports
/// a warning per violated criterion; duplication (the Necessary criterion)
/// is judged at collection level, and feasibility is structural.
#[verifier::rlimit(100)]
pub fn check_requirement_wellformedness(
    fr: &FunctionalRequirement,
    all_ids: &Vec<String>,
) -> (r: Vec<WellFormednessWarning>)
    ensures
        r.deep_view() == spec_wellformedness(fr.deep_view(), all_ids.deep_view()),
{
    let ghost frv = fr.deep_view();
    let stmt = to_chars(fr.statement.as_str());
    let lower = fold_lower(&stmt);
    let upper = fold_upper(&stmt);
    let mut out: Vec<WellFormednessWarning> = Vec::new();

    match first_ambiguous(&lower) {
        Some(w) => {
            out.push(
                WellFormednessWarning {
                    requirement_id: fr.id.clone(),
                    criterion: WellFormednessCriterion::Unambiguous,
                    message: quoted_message("Mot ambigu detecte: \"", &w, "\""),
                },
            );
        },
        None => {},
    }
    let trimmed = trim(&stmt);
    if trimmed.len() == 0 {
        out.push(
            WellFormednessWarning {
                requirement_id: fr.id.clone(),
                criterion: WellFormednessCriterion::Complete,
                message: String::from_str("Enonce vide"),
            },
        );
    }
    match first_connector(&lower) {
        Some(c) => {
            let cc = to_chars(c.as_str());
            let ct = trim(&cc);
            let cts = chars_to_string(&ct);
            out.push(
                WellFormednessWarning {
                    requirement_id: fr.id.clone(),
                    criterion: WellFormednessCriterion::Singular,
                    message: quoted_message(
                        "Exigence composee detectee (connecteur: \"",
                        &cts,
                        "\")",
                    ),
                },
            );
        },
        None => {},
    }
    if !fr.testable {
        out.push(
            WellFormednessWarning {
                requirement_id: fr.id.clone(),
                criterion: WellFormednessCriterion::Verifiable,
                message: String::from_str("Exigence marquee non-testable"),
            },
        );
    }
    if fr.verification_method == VerificationMethod::Test && !fr.testable {
        out.push(
            WellFormednessWarning {
                requirement_id: fr.id.clone(),
                criterion: WellFormednessCriterion::Verifiable,
                message: String::from_str(
                    "Methode de verification absente pour exigence non-testable",
                ),
            },
        );
    }
    if !has_normative_chars(&upper) {
        out.push(
            WellFormednessWarning {
                requirement_id: fr.id.clone(),
                criterion: WellFormednessCriterion::Correct,
                message: String::from_str("Enonce sans mot normatif (MUST/SHALL/SHOULD/COULD)"),
            },
        );
    }
    let idc = to_chars(fr.id.as_str());
    let frp = to_chars("FR-");
    if !starts_with(&idc, &frp) {
        out.push(
            WellFormednessWarning {
                requirement_id: fr.id.clone(),
                criterion: WellFormednessCriterion::Conforming,
                message: quoted_message("ID \"", &fr.id, "\" ne suit pas le format FR-NNN"),
            },
        );
    }
    match &fr.parent_requirement {
        Some(p) => {
            if !contains_string(all_ids, p.as_str()) {
                out.push(
                    WellFormednessWarning {
                        requirement_id: fr.id.clone(),
                        criterion: WellFormednessCriterion::Traceable,
                        message: quoted_message("Parent \"", p, "\" n'existe pas"),
                    },
                );
            }
        },
        None => {},
    }
    proof {
        assert(out.deep_view() =~= spec_wellformedness(frv, all_ids.deep_view()));
    }
    out
}


// ---------------------------------------------------------------------------
// The specification checklist
// ---------------------------------------------------------------------------

pub open spec fn b2p(b: bool) -> nat {
    if b {
        1
    } else {
        0
    }
}

/// How many clarifications are unresolved.
pub open spec fn spec_unresolved_count(cs: Seq<crate::specification::ClarificationView>) -> nat
    decreases cs.len(),
{
    if cs.len() == 0 {
        0
    } else {
        b2p(!cs[0].resolved) + spec_unresolved_count(cs.drop_first())
    }
}

/// The twelve checklist verdicts, in order.
pub open spec fn spec_check_scenarios(sv: SpecificationView) -> bool {
    sv.user_scenarios.len() > 0
}

pub open spec fn spec_check_frs(sv: SpecificationView) -> bool {
    sv.functional_requirements.len() > 0
}

pub open spec fn spec_check_criteria(sv: SpecificationView) -> bool {
    sv.success_criteria.len() > 0
}

pub open spec fn spec_check_acceptance(sv: SpecificationView) -> bool {
    forall|i: int|
        0 <= i < sv.user_scenarios.len() ==> (#[trigger] sv.user_scenarios[i]).acceptance_scenarios.len() > 0
}

pub open spec fn spec_check_clarifications(sv: SpecificationView) -> bool {
    spec_unresolved_count(sv.clarifications_needed) < 3
}

pub open spec fn spec_check_testable(sv: SpecificationView) -> bool {
    forall|i: int| 0 <= i < sv.functional_requirements.len() ==> (#[trigger] sv.functional_requirements[i]).testable
}

pub open spec fn spec_check_edges(sv: SpecificationView) -> bool {
    sv.edge_cases.len() > 0
}

pub open spec fn spec_check_unique_ids(sv: SpecificationView) -> bool {
    forall|i: int, j: int|
        0 <= i < j < sv.functional_requirements.len() ==> (#[trigger] sv.functional_requirements[i]).id != (
        #[trigger] sv.functional_requirements[j]).id
}

pub open spec fn spec_check_normative(sv: SpecificationView) -> bool {
    sv.functional_requirements.len() == 0 || forall|i: int|
        0 <= i < sv.functional_requirements.len() ==> spec_has_normative(spec_fold_upper(
            (#[trigger] sv.functional_requirements[i]).statement,
        ))
}

pub open spec fn spec_check_unambiguous(sv: SpecificationView) -> bool {
    sv.functional_requirements.len() == 0 || forall|i: int|
        0 <= i < sv.functional_requirements.len() ==> spec_first_ambiguous(
            spec_fold_lower((#[trigger] sv.functional_requirements[i]).statement),
            crate::lexicon::spec_ambiguous_words(),
        ) is None
}

pub open spec fn spec_check_p1_risk(sv: SpecificationView) -> bool {
    forall|i: int|
        0 <= i < sv.functional_requirements.len() ==> ((#[trigger] sv.functional_requirements[i]).priority
            == Priority::P1 ==> sv.functional_requirements[i].risk_level is Some)
}

pub open spec fn spec_check_nfr_qc(sv: SpecificationView) -> bool {
    forall|i: int|
        0 <= i < sv.functional_requirements.len() ==> ((#[trigger] sv.functional_requirements[i]).category
            == RequirementCategory::NonFunctional ==> sv.functional_requirements[i].quality_characteristic is Some)
}

/// Completeness: the five completeness items passed, as a percentage.
pub open spec fn spec_completeness_pct(sv: SpecificationView) -> nat {
    (b2p(spec_check_scenarios(sv)) + b2p(spec_check_frs(sv)) + b2p(spec_check_criteria(sv)) + b2p(
        spec_check_acceptance(sv),
    ) + b2p(spec_check_edges(sv))) * 100 / 5
}

/// Clarity: the two clarity items passed, as a percentage.
pub open spec fn spec_clarity_pct(sv: SpecificationView) -> nat {
    (b2p(spec_check_clarifications(sv)) + b2p(spec_check_unambiguous(sv))) * 100 / 2
}

/// Testability: the single testability item, as a percentage.
pub open spec fn spec_testability_pct(sv: SpecificationView) -> nat {
    b2p(spec_check_testable(sv)) * 100
}

fn all_have_acceptance(spec: &Specification) -> (r: bool)
    ensures
        r == spec_check_acceptance(spec.deep_view()),
{
    let mut i: usize = 0;
    while i < spec.user_scenarios.len()
        invariant
            i <= spec.user_scenarios@.len(),
            forall|k: int|
                0 <= k < i ==> (#[trigger] spec.deep_view().user_scenarios[k]).acceptance_scenarios.len() > 0,
        decreases spec.user_scenarios@.len() - i,
    {
        if spec.user_scenarios[i].acceptance_scenarios.len() == 0 {
            proof {
                assert(spec.deep_view().user_scenarios[i as int].acceptance_scenarios.len() == 0);
            }
            return false;
        }
        i = i + 1;
    }
    true
}

fn count_unresolved(spec: &Specification) -> (r: usize)
    ensures
        r == spec_unresolved_count(spec.deep_view().clarifications_needed),
{
    let ghost cs = spec.deep_view().clarifications_needed;
    let mut count: usize = 0;
    let mut i: usize = 0;
    proof {
        assert(cs.skip(0) =~= cs);
    }
    while i < spec.clarifications_needed.len()
        invariant
            i <= spec.clarifications_needed@.len(),
            count <= i,
            cs == spec.deep_view().clarifications_needed,
            count + spec_unresolved_count(cs.skip(i as int)) == spec_unresolved_count(cs),
        decreases spec.clarifications_needed@.len() - i,
    {
        let ghost rem = cs.skip(i as int);
        proof {
            assert(rem[0] == cs[i as int]);
            assert(rem.drop_first() =~= cs.skip(i + 1));
        }
        if !spec.clarifications_needed[i].resolved {
            count = count + 1;
        }
        i = i + 1;
    }
    proof {
        assert(cs.skip(cs.len() as int) =~= Seq::<crate::specification::ClarificationView>::empty());
    }
    count
}

fn all_testable(spec: &Specification) -> (r: bool)
    ensures
        r == spec_check_testable(spec.deep_view()),
{
    let mut i: usize = 0;
    while i < spec.functional_requirements.len()
        invariant
            i <= spec.functional_requirements@.len(),
            forall|k: int|
                0 <= k < i ==> (#[trigger] spec.deep_view().functional_requirements[k]).testable,
        decreases spec.functional_requirements@.len() - i,
    {
        if !spec.functional_requirements[i].testable {
            proof {
                assert(!spec.deep_view().functional_requirements[i as int].testable);
            }
            return false;
        }
        i = i + 1;
    }
    true
}

fn all_ids_unique(spec: &Specification) -> (r: bool)
    ensures
        r == spec_check_unique_ids(spec.deep_view()),
{
    let ghost frs = spec.deep_view().functional_requirements;
    let mut i: usize = 0;
    while i < spec.functional_requirements.len()
        invariant
            i <= spec.functional_requirements@.len(),
            frs == spec.deep_view().functional_requirements,
            forall|a: int, b: int| 0 <= a < b < i ==> (#[trigger] frs[a]).id != (#[trigger] frs[b]).id,
        decreases spec.functional_requirements@.len() - i,
    {
        let mut j: usize = 0;
        while j < i
            invariant
                j <= i < spec.functional_requirements@.len(),
                frs == spec.deep_view().functional_requirements,
                forall|b: int| 0 <= b < j ==> (#[trigger] frs[b]).id != frs[i as int].id,
            decreases i - j,
        {
            if string_eq_str(
                &spec.functional_requirements[j].id,
                spec.functional_requirements[i].id.as_str(),
            ) {
                proof {
                    assert(frs[j as int].id == frs[i as int].id);
                }
                return false;
            }
            j = j + 1;
        }
        i = i + 1;
        proof {
            assert forall|a: int, b: int| 0 <= a < b < i implies (#[trigger] frs[a]).id != (
            #[trigger] frs[b]).id by {}
        }
    }
    true
}

fn all_normative_stmts(spec: &Specification) -> (r: bool)
    ensures
        r == (forall|i: int|
            0 <= i < spec.deep_view().functional_requirements.len() ==> spec_has_normative(
                spec_fold_upper((#[trigger] spec.deep_view().functional_requirements[i]).statement),
            )),
{
    let mut i: usize = 0;
    while i < spec.functional_requirements.len()
        invariant
            i <= spec.functional_requirements@.len(),
            forall|k: int|
                0 <= k < i ==> spec_has_normative(spec_fold_upper(
                    (#[trigger] spec.deep_view().functional_requirements[k]).statement,
                )),
        decreases spec.functional_requirements@.len() - i,
    {
        let upper = fold_upper(&to_chars(spec.functional_requirements[i].statement.as_str()));
        if !has_normative_chars(&upper) {
            proof {
                assert(!spec_has_normative(spec_fold_upper(
                    spec.deep_view().functional_requirements[i as int].statement,
                )));
            }
            return false;
        }
        i = i + 1;
    }
    true
}

fn all_unambiguous_stmts(spec: &Specification) -> (r: bool)
    ensures
        r == (forall|i: int|
            0 <= i < spec.deep_view().functional_requirements.len() ==> spec_first_ambiguous(
                spec_fold_lower(
                    (#[trigger] spec.deep_view().functional_requirements[i]).statement,
                ),
                crate::lexicon::spec_ambiguous_words(),
            ) is None),
{
    let mut i: usize = 0;
    while i < spec.functional_requirements.len()
        invariant
            i <= spec.functional_requirements@.len(),
            forall|k: int|
                0 <= k < i ==> spec_first_ambiguous(
                    spec_fold_lower(
                        (#[trigger] spec.deep_view().functional_requirements[k]).statement,
                    ),
                    crate::lexicon::spec_ambiguous_words(),
                ) is None,
        decreases spec.functional_requirements@.len() - i,
    {
        let lower = fold_lower(&to_chars(spec.functional_requirements[i].statement.as_str()));
        match first_ambiguous(&lower) {
            Some(_) => {
                proof {
                    assert(!(spec_first_ambiguous(
                        spec_fold_lower(
                            spec.deep_view().functional_requirements[i as int].statement,
                        ),
                        crate::lexicon::spec_ambiguous_words(),
                    ) is None));
                }
                return false;
            },
            None => {},
        }
        i = i + 1;
    }
    true
}

fn all_p1_have_risk(spec: &Specification) -> (r: bool)
    ensures
        r == spec_check_p1_risk(spec.deep_view()),
{
    let mut i: usize = 0;
    while i < spec.functional_requirements.len()
        invariant
            i <= spec.functional_requirements@.len(),
            forall|k: int|
                0 <= k < i ==> ((#[trigger] spec.deep_view().functional_requirements[k]).priority
                    == Priority::P1 ==> spec.deep_view().functional_requirements[k].risk_level is Some),
        decreases spec.functional_requirements@.len() - i,
    {
        let fr = &spec.functional_requirements[i];
        let missing: bool = match fr.risk_level {
            Some(_) => false,
            None => true,
        };
        if fr.priority == Priority::P1 && missing {
            proof {
                assert(spec.deep_view().functional_requirements[i as int].priority == Priority::P1
                    && !(spec.deep_view().functional_requirements[i as int].risk_level is Some));
            }
            return false;
        }
        i = i + 1;
    }
    true
}

fn all_nfr_have_qc(spec: &Specification) -> (r: bool)
    ensures
        r == spec_check_nfr_qc(spec.deep_view()),
{
    let mut i: usize = 0;
    while i < spec.functional_requirements.len()
        invariant
            i <= spec.functional_requirements@.len(),
            forall|k: int|
                0 <= k < i ==> ((#[trigger] spec.deep_view().functional_requirements[k]).category
                    == RequirementCategory::NonFunctional
                    ==> spec.deep_view().functional_requirements[k].quality_characteristic is Some),
        decreases spec.functional_requirements@.len() - i,
    {
        let fr = &spec.functional_requirements[i];
        let missing: bool = match fr.quality_characteristic {
            Some(_) => false,
            None => true,
        };
        if fr.category == RequirementCategory::NonFunctional && missing {
            proof {
                assert(spec.deep_view().functional_requirements[i as int].category
                    == RequirementCategory::NonFunctional && !(
                spec.deep_view().functional_requirements[i as int].quality_characteristic is Some));
            }
            return false;
        }
        i = i + 1;
    }
    true
}

fn checklist_item(description: &str, passed: bool, category: &str) -> (r: ChecklistItem)
    ensures
        r.deep_view().description == description@,
        r.deep_view().passed == passed,
        r.deep_view().category == category@,
{
    ChecklistItem {
        description: String::from_str(description),
        passed,
        category: String::from_str(category),
    }
}

/// Runs the completeness, clarity, testability and conformance checklist on
/// a specification and scores each category as an integer percentage of its
/// items passed.
#[verifier::rlimit(100)]
pub fn validate_specification(spec: &Specification) -> (r: SpecValidation)
    ensures
        ({
            let sv = spec.deep_view();
            let rd = r.deep_view();
            &&& rd.completeness_score == spec_completeness_pct(sv)
            &&& rd.clarity_score == spec_clarity_pct(sv)
            &&& rd.testability_score == spec_testability_pct(sv)
            &&& rd.checklist_items.len() == 12
            &&& rd.checklist_items[0].passed == spec_check_scenarios(sv)
            &&& rd.checklist_items[1].passed == spec_check_frs(sv)
            &&& rd.checklist_items[2].passed == spec_check_criteria(sv)
            &&& rd.checklist_items[3].passed == spec_check_acceptance(sv)
            &&& rd.checklist_items[4].passed == spec_check_clarifications(sv)
            &&& rd.checklist_items[5].passed == spec_check_testable(sv)
            &&& rd.checklist_items[6].passed == spec_check_edges(sv)
            &&& rd.checklist_items[7].passed == spec_check_unique_ids(sv)
            &&& rd.checklist_items[8].passed == spec_check_normative(sv)
            &&& rd.checklist_items[9].passed == spec_check_unambiguous(sv)
            &&& rd.checklist_items[10].passed == spec_check_p1_risk(sv)
            &&& rd.checklist_items[11].passed == spec_check_nfr_qc(sv)
        }),
{
    let ghost sv = spec.deep_view();
    let p_scen = spec.user_scenarios.len() > 0;
    let p_frs = spec.functional_requirements.len() > 0;
    let p_crit = spec.success_criteria.len() > 0;
    let p_acc = all_have_acceptance(spec);
    let p_clar = count_unresolved(spec) < 3;
    let p_test = all_testable(spec);
    let p_edge = spec.edge_cases.len() > 0;
    let p_uniq = all_ids_unique(spec);
    let p_norm = !p_frs || all_normative_stmts(spec);
    let p_unam = !p_frs || all_unambiguous_stmts(spec);
    let p_risk = all_p1_have_risk(spec);
    let p_qc = all_nfr_have_qc(spec);

    let mut checklist: Vec<ChecklistItem> = Vec::new();
    checklist.push(
        checklist_item("Au moins un scenario utilisateur defini", p_scen, "Completude"),
    );
    checklist.push(checklist_item("Exigences fonctionnelles definies", p_frs, "Completude"));
    checklist.push(
        checklist_item("Criteres de succes mesurables definis", p_crit, "Completude"),
    );
    checklist.push(
        checklist_item("Chaque scenario a des criteres d'acceptation", p_acc, "Completude"),
    );
    checklist.push(
        checklist_item("Moins de 3 clarifications non resolues", p_clar, "Clarte"),
    );
    checklist.push(
        checklist_item("Toutes les exigences sont testables", p_test, "Testabilite"),
    );
    checklist.push(checklist_item("Cas limites identifies", p_edge, "Completude"));
    checklist.push(
        checklist_item("ISO-29148: IDs d'exigences uniques", p_uniq, "Conformite"),
    );
    checklist.push(
        checklist_item("ISO-29148: Syntaxe normative (MUST/SHALL/SHOULD)", p_norm, "Conformite"),
    );
    checklist.push(
        checklist_item("ISO-29148: Aucun mot ambigu dans les exigences", p_unam, "Clarte"),
    );
    checklist.push(
        checklist_item("ISO-29148: Exigences P1 ont un niveau de risque", p_risk, "Conformite"),
    );
    checklist.push(
        checklist_item("ISO-25010: NFR ont une quality_characteristic", p_qc, "Conformite"),
    );

    let comp_passed: u32 = (if p_scen {
        1u32
    } else {
        0u32
    }) + (if p_frs {
        1u32
    } else {
        0u32
    }) + (if p_crit {
        1u32
    } else {
        0u32
    }) + (if p_acc {
        1u32
    } else {
        0u32
    }) + (if p_edge {
        1u32
    } else {
        0u32
    });
    let clar_passed: u32 = (if p_clar {
        1u32
    } else {
        0u32
    }) + (if p_unam {
        1u32
    } else {
        0u32
    });
    let test_passed: u32 = if p_test {
        1u32
    } else {
        0u32
    };
    SpecValidation {
        completeness_score: comp_passed * 100 / 5,
        clarity_score: clar_passed * 100 / 2,
        testability_score: test_passed * 100,
        checklist_items: checklist,
    }
}

// ---------------------------------------------------------------------------
// Simple forward-coverage gaps
// ---------------------------------------------------------------------------

/// The covered-requirement lists of the features, concatenated (explicit
/// feature-level links only).
pub open spec fn spec_feature_covered(fs: Seq<crate::test_case::FeatureView>) -> Seq<Seq<char>>
    decreases fs.len(),
{
    if fs.len() == 0 {
        Seq::<Seq<char>>::empty()
    } else {
        fs[0].covered_requirements + spec_feature_covered(fs.drop_first())
    }
}

/// The requirement identifiers with no explicit feature-level coverage, in
/// order.
pub open spec fn spec_gap_ids(
    frs: Seq<FunctionalRequirementView>,
    covered: Seq<Seq<char>>,
) -> Seq<Seq<char>>
    decreases frs.len(),
{
    if frs.len() == 0 {
        Seq::<Seq<char>>::empty()
    } else {
        (if !seq_contains_str(covered, frs[0].id) {
            seq![frs[0].id]
        } else {
            Seq::<Seq<char>>::empty()
        }) + spec_gap_ids(frs.drop_first(), covered)
    }
}

/// Lists the requirements no feature declares covered: the forward
/// traceability gaps by explicit links alone.
pub fn check_traceability(spec: &Specification, suite: &TestSuite) -> (r: Vec<String>)
    ensures
        r.deep_view() == spec_gap_ids(
            spec.functional_requirements.deep_view(),
            spec_feature_covered(suite.features.deep_view()),
        ),
{
    let ghost fs = suite.features.deep_view();
    let mut covered: Vec<String> = Vec::new();
    let mut i: usize = 0;
    proof {
        assert(fs.skip(0) =~= fs);
    }
    while i < suite.features.len()
        invariant
            i <= suite.features@.len(),
            fs == suite.features.deep_view(),
            covered.deep_view() + spec_feature_covered(fs.skip(i as int)) =~= spec_feature_covered(
                fs,
            ),
        decreases suite.features@.len() - i,
    {
        let ghost rem = fs.skip(i as int);
        proof {
            assert(rem[0] == fs[i as int]);
            assert(rem.drop_first() =~= fs.skip(i + 1));
        }
        let feature = &suite.features[i];
        let ghost cr = feature.deep_view().covered_requirements;
        let ghost base = covered.deep_view();
        let mut k: usize = 0;
        while k < feature.covered_requirements.len()
            invariant
                k <= feature.covered_requirements@.len(),
                cr == feature.deep_view().covered_requirements,
                covered.deep_view() =~= base + cr.take(k as int),
            decreases feature.covered_requirements@.len() - k,
        {
            push_string(&mut covered, &feature.covered_requirements[k]);
            k = k + 1;
            proof {
                assert(covered.deep_view() =~= base + cr.take(k as int));
            }
        }
        i = i + 1;
        proof {
            assert(cr.take(cr.len() as int) =~= cr);
            assert(covered.deep_view() + spec_feature_covered(fs.skip(i as int))
                =~= spec_feature_covered(fs));
        }
    }
    proof {
        assert(fs.skip(fs.len() as int) =~= Seq::<crate::test_case::FeatureView>::empty());
        assert(covered.deep_view() =~= spec_feature_covered(fs));
    }

    let ghost frs = spec.functional_requirements.deep_view();
    let mut gaps: Vec<String> = Vec::new();
    let mut i: usize = 0;
    proof {
        assert(frs.skip(0) =~= frs);
    }
    while i < spec.functional_requirements.len()
        invariant
            i <= spec.functional_requirements@.len(),
            frs == spec.functional_requirements.deep_view(),
            covered.deep_view() == spec_feature_covered(fs),
            fs == suite.features.deep_view(),
            gaps.deep_view() + spec_gap_ids(frs.skip(i as int), spec_feature_covered(fs))
                =~= spec_gap_ids(frs, spec_feature_covered(fs)),
        decreases spec.functional_requirements@.len() - i,
    {
        let ghost rem = frs.skip(i as int);
        proof {
            assert(rem[0] == frs[i as int]);
            assert(rem.drop_first() =~= frs.skip(i + 1));
        }
        if !contains_string(&covered, spec.functional_requirements[i].id.as_str()) {
            push_string(&mut gaps, &spec.functional_requirements[i].id);
        }
        i = i + 1;
        proof {
            assert(gaps.deep_view() + spec_gap_ids(frs.skip(i as int), spec_feature_covered(fs))
                =~= spec_gap_ids(frs, spec_feature_covered(fs)));
        }
    }
    proof {
        assert(frs.skip(frs.len() as int) =~= Seq::<FunctionalRequirementView>::empty());
        assert(gaps.deep_view() =~= spec_gap_ids(frs, spec_feature_covered(fs)));
    }
    gaps
}

} // verus!
