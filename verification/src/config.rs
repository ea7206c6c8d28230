//! Engine configuration: pipeline knobs, output and validation settings, and
//! the regulatory compliance profile.

use vstd::prelude::*;
use vstd::string::*;

use crate::specification::{AsilLevel, ComplianceProfile, DalLevel, SilLevel, SsilLevel, SwClass};
use crate::textutil::{fold_lower, fold_upper, chars_eq_str, spec_fold_lower, spec_fold_upper,
    to_chars};

verus! {

/// Pipeline-level settings.
#[derive(Clone, Debug)]
pub struct PipelineConfig {
    /// Maximum number of retries per generation exchange.
    pub max_retries: usize,
    /// Default language code.
    pub default_language: String,
    /// Token budget for the user prompt of one batch.
    pub token_budget: usize,
}

pub fn default_token_budget() -> (r: usize)
    ensures
        r == 2000,
{
    2000
}

/// Where the prompt templates live.
#[derive(Clone, Debug)]
pub struct TemplatesConfig {
    pub directory: String,
}

/// Output settings.
#[derive(Clone, Debug)]
pub struct OutputConfig {
    pub spec_format: String,
    pub traceability: bool,
    pub gherkin_language: String,
}

/// Validation settings.
#[derive(Clone, Debug)]
pub struct ValidationConfig {
    pub min_coverage_percent: u32,
    pub validate_gherkin_syntax: bool,
    pub max_clarifications: usize,
}

/// Logging settings.
#[derive(Clone, Debug)]
pub struct LoggingConfig {
    pub level: String,
    pub format: String,
    pub colors: bool,
}

/// Input and output directories.
#[derive(Clone, Debug)]
pub struct PathsConfig {
    pub input_dir: String,
    pub output_dir: String,
    pub specs_dir: String,
    pub features_dir: String,
}

/// Context window size handed to the generation service.
pub fn default_context_size() -> (r: usize)
    ensures
        r == 8192,
{
    8192
}

pub fn default_p1_coverage() -> (r: u32)
    ensures
        r == 100,
{
    100
}

pub fn default_p2_coverage() -> (r: u32)
    ensures
        r == 80,
{
    80
}

pub fn default_p3_coverage() -> (r: u32)
    ensures
        r == 60,
{
    60
}

pub fn default_profile() -> (r: String)
    ensures
        r@ == "general"@,
{
    String::from_str("general")
}

pub fn default_true() -> (r: bool)
    ensures
        r,
{
    true
}

/// Compliance settings: the regulatory profile and its thresholds.
#[derive(Clone, Debug)]
pub struct ComplianceConfig {
    /// Profile name: general, aviation, medical, automotive, railway, safety.
    pub profile: String,
    /// Profile-specific safety level (e.g. "DAL-A", "SIL-3", "ASIL-D").
    pub safety_level: Option<String>,
    /// Include compliance metadata in the outputs.
    pub include_metadata: bool,
    /// Strict mode: warnings become errors.
    pub strict_validation: bool,
    /// Require a rationale on every requirement.
    pub require_rationale: bool,
    /// Require a risk level on every requirement.
    pub require_risk_level: bool,
    /// Check normative keywords in requirement statements.
    pub normative_keywords: bool,
    /// Minimal coverage for P1 requirements, percent.
    pub min_p1_coverage: u32,
    /// Minimal coverage for P2 requirements, percent.
    pub min_p2_coverage: u32,
    /// Minimal coverage for P3 requirements, percent.
    pub min_p3_coverage: u32,
}

impl Default for ComplianceConfig {
    fn default() -> (r: Self)
        ensures
            r.profile@ == "general"@,
            r.safety_level is None,
            r.include_metadata,
            !r.strict_validation,
            !r.require_rationale,
            !r.require_risk_level,
            r.normative_keywords,
            r.min_p1_coverage == 100,
            r.min_p2_coverage == 80,
            r.min_p3_coverage == 60,
    {
        ComplianceConfig {
            profile: default_profile(),
            safety_level: None,
            include_metadata: true,
            strict_validation: false,
            require_rationale: false,
            require_risk_level: false,
            normative_keywords: true,
            min_p1_coverage: default_p1_coverage(),
            min_p2_coverage: default_p2_coverage(),
            min_p3_coverage: default_p3_coverage(),
        }
    }
}

/// The DAL level named by an upper-cased safety level; E when absent or
/// unrecognised.
pub open spec fn spec_dal_of(s: Option<Seq<char>>) -> DalLevel {
    match s {
        Option::Some(v) => if v == "DAL-A"@ || v == "A"@ {
            DalLevel::A
        } else if v == "DAL-B"@ || v == "B"@ {
            DalLevel::B
        } else if v == "DAL-C"@ || v == "C"@ {
            DalLevel::C
        } else if v == "DAL-D"@ || v == "D"@ {
            DalLevel::D
        } else if v == "DAL-E"@ || v == "E"@ {
            DalLevel::E
        } else {
            DalLevel::E
        },
        Option::None => DalLevel::E,
    }
}

/// The software class named by an upper-cased safety level; A when absent or
/// unrecognised.
pub open spec fn spec_sw_of(s: Option<Seq<char>>) -> SwClass {
    match s {
        Option::Some(v) => if v == "SW-A"@ || v == "A"@ {
            SwClass::A
        } else if v == "SW-B"@ || v == "B"@ {
            SwClass::B
        } else if v == "SW-C"@ || v == "C"@ {
            SwClass::C
        } else {
            SwClass::A
        },
        Option::None => SwClass::A,
    }
}

/// The ASIL level named by an upper-cased safety level; A when absent or
/// unrecognised.
pub open spec fn spec_asil_of(s: Option<Seq<char>>) -> AsilLevel {
    match s {
        Option::Some(v) => if v == "ASIL-A"@ || v == "A"@ {
            AsilLevel::A
        } else if v == "ASIL-B"@ || v == "B"@ {
            AsilLevel::B
        } else if v == "ASIL-C"@ || v == "C"@ {
            AsilLevel::C
        } else if v == "ASIL-D"@ || v == "D"@ {
            AsilLevel::D
        } else {
            AsilLevel::A
        },
        Option::None => AsilLevel::A,
    }
}

/// The SSIL level named by an upper-cased safety level; 0 when absent or
/// unrecognised.
pub open spec fn spec_ssil_of(s: Option<Seq<char>>) -> SsilLevel {
    match s {
        Option::Some(v) => if v == "SSIL-0"@ || v == "0"@ {
            SsilLevel::Level0
        } else if v == "SSIL-1"@ || v == "1"@ {
            SsilLevel::Level1
        } else if v == "SSIL-2"@ || v == "2"@ {
            SsilLevel::Level2
        } else if v == "SSIL-3"@ || v == "3"@ {
            SsilLevel::Level3
        } else if v == "SSIL-4"@ || v == "4"@ {
            SsilLevel::Level4
        } else {
            SsilLevel::Level0
        },
        Option::None => SsilLevel::Level0,
    }
}

/// The SIL level named by an upper-cased safety level; 1 when absent or
/// unrecognised.
pub open spec fn spec_sil_of(s: Option<Seq<char>>) -> SilLevel {
    match s {
        Option::Some(v) => if v == "SIL-1"@ || v == "1"@ {
            SilLevel::Sil1
        } else if v == "SIL-2"@ || v == "2"@ {
            SilLevel::Sil2
        } else if v == "SIL-3"@ || v == "3"@ {
            SilLevel::Sil3
        } else if v == "SIL-4"@ || v == "4"@ {
            SilLevel::Sil4
        } else {
            SilLevel::Sil1
        },
        Option::None => SilLevel::Sil1,
    }
}

/// The compliance profile a configuration names: the profile string is
/// case-folded; the safety level picks the profile's sub-level, with a
/// per-profile default; an unknown profile name yields nothing.
pub open spec fn spec_to_compliance_profile(profile: Seq<char>, safety: Option<Seq<char>>) -> Option<
    ComplianceProfile,
> {
    let p = spec_fold_lower(profile);
    let s = match safety {
        Option::Some(x) => Option::Some(spec_fold_upper(x)),
        Option::None => Option::None,
    };
    if p == "general"@ {
        Option::Some(ComplianceProfile::General)
    } else if p == "aviation"@ {
        Option::Some(ComplianceProfile::Aviation(spec_dal_of(s)))
    } else if p == "medical"@ {
        Option::Some(ComplianceProfile::Medical(spec_sw_of(s)))
    } else if p == "automotive"@ {
        Option::Some(ComplianceProfile::Automotive(spec_asil_of(s)))
    } else if p == "railway"@ {
        Option::Some(ComplianceProfile::Railway(spec_ssil_of(s)))
    } else if p == "safety"@ {
        Option::Some(ComplianceProfile::Safety(spec_sil_of(s)))
    } else {
        Option::None
    }
}

impl ComplianceConfig {
    /// Converts the configuration into the domain's compliance profile.
    pub fn to_compliance_profile(&self) -> (r: Option<ComplianceProfile>)
        ensures
            r == spec_to_compliance_profile(
                self.profile@,
                match self.safety_level {
                    Option::Some(ref x) => Option::Some(x@),
                    Option::None => Option::None,
                },
            ),
    {
        let p = fold_lower(&to_chars(self.profile.as_str()));
        let s: Option<Vec<char>> = match &self.safety_level {
            Some(x) => Some(fold_upper(&to_chars(x.as_str()))),
            None => None,
        };
        if chars_eq_str(&p, "general") {
            Some(ComplianceProfile::General)
        } else if chars_eq_str(&p, "aviation") {
            let dal = match &s {
                Some(v) => {
                    if chars_eq_str(v, "DAL-A") || chars_eq_str(v, "A") {
                        DalLevel::A
                    } else if chars_eq_str(v, "DAL-B") || chars_eq_str(v, "B") {
                        DalLevel::B
                    } else if chars_eq_str(v, "DAL-C") || chars_eq_str(v, "C") {
                        DalLevel::C
                    } else if chars_eq_str(v, "DAL-D") || chars_eq_str(v, "D") {
                        DalLevel::D
                    } else {
                        DalLevel::E
                    }
                },
                None => DalLevel::E,
            };
            Some(ComplianceProfile::Aviation(dal))
        } else if chars_eq_str(&p, "medical") {
            let sw = match &s {
                Some(v) => {
                    if chars_eq_str(v, "SW-A") || chars_eq_str(v, "A") {
                        SwClass::A
                    } else if chars_eq_str(v, "SW-B") || chars_eq_str(v, "B") {
                        SwClass::B
                    } else if chars_eq_str(v, "SW-C") || chars_eq_str(v, "C") {
                        SwClass::C
                    } else {
                        SwClass::A
                    }
                },
                None => SwClass::A,
            };
            Some(ComplianceProfile::Medical(sw))
        } else if chars_eq_str(&p, "automotive") {
            let asil = match &s {
                Some(v) => {
                    if chars_eq_str(v, "ASIL-A") || chars_eq_str(v, "A") {
                        AsilLevel::A
                    } else if chars_eq_str(v, "ASIL-B") || chars_eq_str(v, "B") {
                        AsilLevel::B
                    } else if chars_eq_str(v, "ASIL-C") || chars_eq_str(v, "C") {
                        AsilLevel::C
                    } else if chars_eq_str(v, "ASIL-D") || chars_eq_str(v, "D") {
                        AsilLevel::D
                    } else {
                        AsilLevel::A
                    }
                },
                None => AsilLevel::A,
            };
            Some(ComplianceProfile::Automotive(asil))
        } else if chars_eq_str(&p, "railway") {
            let ssil = match &s {
                Some(v) => {
                    if chars_eq_str(v, "SSIL-0") || chars_eq_str(v, "0") {
                        SsilLevel::Level0
                    } else if chars_eq_str(v, "SSIL-1") || chars_eq_str(v, "1") {
                        SsilLevel::Level1
                    } else if chars_eq_str(v, "SSIL-2") || chars_eq_str(v, "2") {
                        SsilLevel::Level2
                    } else if chars_eq_str(v, "SSIL-3") || chars_eq_str(v, "3") {
                        SsilLevel::Level3
                    } else if chars_eq_str(v, "SSIL-4") || chars_eq_str(v, "4") {
                        SsilLevel::Level4
                    } else {
                        SsilLevel::Level0
                    }
                },
                None => SsilLevel::Level0,
            };
            Some(ComplianceProfile::Railway(ssil))
        } else if chars_eq_str(&p, "safety") {
            let sil = match &s {
                Some(v) => {
                    if chars_eq_str(v, "SIL-1") || chars_eq_str(v, "1") {
                        SilLevel::Sil1
                    } else if chars_eq_str(v, "SIL-2") || chars_eq_str(v, "2") {
                        SilLevel::Sil2
                    } else if chars_eq_str(v, "SIL-3") || chars_eq_str(v, "3") {
                        SilLevel::Sil3
                    } else if chars_eq_str(v, "SIL-4") || chars_eq_str(v, "4") {
                        SilLevel::Sil4
                    } else {
                        SilLevel::Sil1
                    }
                },
                None => SilLevel::Sil1,
            };
            Some(ComplianceProfile::Safety(sil))
        } else {
            None
        }
    }
}

} // verus!
