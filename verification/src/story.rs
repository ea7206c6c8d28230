//! Input side of the domain: user stories as they come out of the upstream
//! readers, before refinement.

use vstd::prelude::*;
use vstd::string::*;

use crate::dup::{dup_opt, dup_vec, Duplicate};
use crate::ids::fresh_id;
use crate::textutil::str_eq;

verus! {

/// MoSCoW-style priority.
#[derive(Clone, Copy, Debug, PartialEq, Eq, Structural)]
pub enum Priority {
    /// Must have (critical)
    P1,
    /// Should have (important)
    P2,
    /// Could have (desirable)
    P3,
}

impl DeepView for Priority {
    type V = Priority;

    open spec fn deep_view(&self) -> Priority {
        *self
    }
}

pub open spec fn spec_priority_label(p: Priority) -> Seq<char> {
    match p {
        Priority::P1 => "P1 (Must)"@,
        Priority::P2 => "P2 (Should)"@,
        Priority::P3 => "P3 (Could)"@,
    }
}

impl Priority {
    /// Human-readable form, as the priority is shown in reports.
    pub fn label(&self) -> (r: &'static str)
        ensures
            r@ == spec_priority_label(*self),
    {
        match self {
            Priority::P1 => "P1 (Must)",
            Priority::P2 => "P2 (Should)",
            Priority::P3 => "P3 (Could)",
        }
    }
}

/// Supported input/output languages.
#[derive(Clone, Copy, Debug, PartialEq, Eq, Structural)]
pub enum Language {
    French,
    English,
}

impl DeepView for Language {
    type V = Language;

    open spec fn deep_view(&self) -> Language {
        *self
    }
}

impl Default for Language {
    fn default() -> (r: Self)
        ensures
            r == Language::French,
    {
        Language::French
    }
}

pub open spec fn spec_language_from_code(s: Seq<char>) -> Language {
    if s == "en"@ || s == "EN"@ || s == "english"@ {
        Language::English
    } else {
        Language::French
    }
}

impl Language {
    /// The code for the Gherkin `# language:` header.
    pub fn gherkin_code(&self) -> (r: &'static str)
        ensures
            *self == Language::French ==> r@ == "fr"@,
            *self == Language::English ==> r@ == "en"@,
    {
        match self {
            Language::French => "fr",
            Language::English => "en",
        }
    }

    /// Builds a `Language` from a code such as "fr" or "en"; anything
    /// unrecognised falls back to French.
    pub fn from_code(code: &str) -> (r: Self)
        ensures
            r == spec_language_from_code(code@),
    {
        if str_eq(code, "en") || str_eq(code, "EN") || str_eq(code, "english") {
            Language::English
        } else {
            Language::French
        }
    }

    /// Short code, as the language is shown in reports.
    pub fn label(&self) -> (r: &'static str)
        ensures
            *self == Language::French ==> r@ == "fr"@,
            *self == Language::English ==> r@ == "en"@,
    {
        match self {
            Language::French => "fr",
            Language::English => "en",
        }
    }
}

/// Mathematical model of a `UserStory`.
pub struct UserStoryView {
    pub id: u128,
    pub external_id: Option<Seq<char>>,
    pub title: Seq<char>,
    pub actor: Seq<char>,
    pub action: Seq<char>,
    pub benefit: Seq<char>,
    pub priority: Option<Priority>,
    pub acceptance_criteria: Seq<Seq<char>>,
    pub raw_text: Seq<char>,
    pub tags: Seq<Seq<char>>,
    pub stakeholder: Option<Seq<char>>,
}

/// A user story as read from the input, before refinement.
#[derive(Clone, Debug)]
pub struct UserStory {
    /// Internal identifier (a 128-bit UUID value).
    pub id: u128,
    /// External identifier if one was given (e.g. "US-001").
    pub external_id: Option<String>,
    pub title: String,
    /// Actor ("As a ...").
    pub actor: String,
    /// Action ("I want ...").
    pub action: String,
    /// Benefit ("so that ...").
    pub benefit: String,
    /// May be empty; inferred during refinement.
    pub priority: Option<Priority>,
    /// Raw acceptance criteria, possibly empty before refinement.
    pub acceptance_criteria: Vec<String>,
    /// Original source text.
    pub raw_text: String,
    pub tags: Vec<String>,
    /// Stakeholder, when the source names one.
    pub stakeholder: Option<String>,
}

impl DeepView for UserStory {
    type V = UserStoryView;

    open spec fn deep_view(&self) -> UserStoryView {
        UserStoryView {
            id: self.id,
            external_id: self.external_id.deep_view(),
            title: self.title@,
            actor: self.actor@,
            action: self.action@,
            benefit: self.benefit@,
            priority: self.priority,
            acceptance_criteria: self.acceptance_criteria.deep_view(),
            raw_text: self.raw_text@,
            tags: self.tags.deep_view(),
            stakeholder: self.stakeholder.deep_view(),
        }
    }
}

impl UserStory {
    /// Creates a new story with a freshly generated identifier and all other
    /// optional fields empty.
    pub fn new(title: String, actor: String, action: String, benefit: String) -> (r: Self)
        ensures
            r.id != 0,
            r.title@ == title@,
            r.actor@ == actor@,
            r.action@ == action@,
            r.benefit@ == benefit@,
            r.external_id is None,
            r.priority is None,
            r.acceptance_criteria@.len() == 0,
            r.raw_text@.len() == 0,
            r.tags@.len() == 0,
            r.stakeholder is None,
    {
        UserStory {
            id: fresh_id(),
            external_id: None,
            title,
            actor,
            action,
            benefit,
            priority: None,
            acceptance_criteria: Vec::new(),
            raw_text: String::new(),
            tags: Vec::new(),
            stakeholder: None,
        }
    }

    /// The story in the standard one-sentence form.
    pub fn to_standard_format(&self) -> (r: String)
        ensures
            r@ == "En tant que "@ + self.actor@ + ", je veux "@ + self.action@ + " afin de "@
                + self.benefit@ + "."@,
    {
        let mut s = String::new();
        s.append("En tant que ");
        s.append(self.actor.as_str());
        s.append(", je veux ");
        s.append(self.action.as_str());
        s.append(" afin de ");
        s.append(self.benefit.as_str());
        s.append(".");
        proof {
            assert(s@ =~= "En tant que "@ + self.actor@ + ", je veux "@ + self.action@
                + " afin de "@ + self.benefit@ + "."@);
        }
        s
    }
}

impl Duplicate for UserStory {
    fn duplicate(&self) -> (r: Self) {
        UserStory {
            id: self.id,
            external_id: dup_opt(&self.external_id),
            title: self.title.clone(),
            actor: self.actor.clone(),
            action: self.action.clone(),
            benefit: self.benefit.clone(),
            priority: self.priority,
            acceptance_criteria: dup_vec(&self.acceptance_criteria),
            raw_text: self.raw_text.clone(),
            tags: dup_vec(&self.tags),
            stakeholder: dup_opt(&self.stakeholder),
        }
    }
}

/// Mathematical model of a `UserStorySet`.
pub struct UserStorySetView {
    pub stories: Seq<UserStoryView>,
    pub source_files: Seq<Seq<char>>,
    pub language: Language,
}

/// The collection of user stories read from one or more input files.
#[derive(Clone, Debug)]
pub struct UserStorySet {
    pub stories: Vec<UserStory>,
    pub source_files: Vec<String>,
    pub language: Language,
}

impl DeepView for UserStorySet {
    type V = UserStorySetView;

    open spec fn deep_view(&self) -> UserStorySetView {
        UserStorySetView {
            stories: self.stories.deep_view(),
            source_files: self.source_files.deep_view(),
            language: self.language,
        }
    }
}

/// The stories of a sequence of sets, in order.
pub open spec fn all_stories(sets: Seq<UserStorySetView>) -> Seq<UserStoryView>
    decreases sets.len(),
{
    if sets.len() == 0 {
        Seq::<UserStoryView>::empty()
    } else {
        sets[0].stories + all_stories(sets.drop_first())
    }
}

/// The source files of a sequence of sets, in order.
pub open spec fn all_source_files(sets: Seq<UserStorySetView>) -> Seq<Seq<char>>
    decreases sets.len(),
{
    if sets.len() == 0 {
        Seq::<Seq<char>>::empty()
    } else {
        sets[0].source_files + all_source_files(sets.drop_first())
    }
}

impl UserStorySet {
    /// Merges several sets into one, keeping every story in order. The merged
    /// set takes the language of the first set (French for an empty input).
    pub fn merge(sets: Vec<UserStorySet>) -> (r: UserStorySet)
        ensures
            r.deep_view().stories == all_stories(sets.deep_view()),
            r.deep_view().source_files == all_source_files(sets.deep_view()),
            r.language == if sets@.len() == 0 {
                Language::French
            } else {
                sets@[0].language
            },
    {
        let ghost orig = sets.deep_view();
        let mut sets = sets;
        let language: Language = if sets.len() == 0 {
            Language::French
        } else {
            sets[0].language
        };
        let mut stories: Vec<UserStory> = Vec::new();
        let mut source_files: Vec<String> = Vec::new();
        while sets.len() > 0
            invariant
                all_stories(orig) =~= stories.deep_view() + all_stories(sets.deep_view()),
                all_source_files(orig) =~= source_files.deep_view() + all_source_files(
                    sets.deep_view(),
                ),
            decreases sets@.len(),
        {
            let ghost before = sets.deep_view();
            let mut set = sets.remove(0);
            proof {
                assert(sets.deep_view() =~= before.drop_first());
                assert(set.deep_view() == before[0]);
            }
            stories.append(&mut set.stories);
            source_files.append(&mut set.source_files);
            proof {
                assert(stories.deep_view() + all_stories(sets.deep_view()) =~= all_stories(orig));
                assert(source_files.deep_view() + all_source_files(sets.deep_view())
                    =~= all_source_files(orig));
            }
        }
        proof {
            assert(stories.deep_view() =~= all_stories(orig));
            assert(source_files.deep_view() =~= all_source_files(orig));
        }
        UserStorySet { stories, source_files, language }
    }
}

} // verus!
