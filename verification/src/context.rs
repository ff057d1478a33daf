//! Context data passed to prompt templates.

use vstd::prelude::*;

use crate::text::views;

verus! {

/// An entry representing a generated `gba.md` file.
#[derive(Debug, Clone, PartialEq, Eq)]
pub struct GbaMdEntry {
    /// The file path relative to the repository root.
    pub path: String,
    /// A one-line summary of the directory's purpose.
    pub summary: String,
}

/// The mathematical value of a [`GbaMdEntry`].
pub struct GbaMdEntryView {
    pub path: Seq<char>,
    pub summary: Seq<char>,
}

impl View for GbaMdEntry {
    type V = GbaMdEntryView;

    open spec fn view(&self) -> GbaMdEntryView {
        GbaMdEntryView { path: self.path@, summary: self.summary@ }
    }
}

/// The views of a sequence of entries.
pub open spec fn entry_views(v: Seq<GbaMdEntry>) -> Seq<GbaMdEntryView> {
    v.map_values(|e: GbaMdEntry| e@)
}

impl GbaMdEntry {
    /// Creates a new `GbaMdEntry` with the given path and summary.
    pub fn new(path: &str, summary: &str) -> (r: Self)
        ensures
            r@ == (GbaMdEntryView { path: path@, summary: summary@ }),
    {
        GbaMdEntry { path: String::from_str(path), summary: String::from_str(summary) }
    }
}

impl Default for GbaMdEntry {
    fn default() -> (r: Self)
        ensures
            r@.path.len() == 0,
            r@.summary.len() == 0,
    {
        GbaMdEntry { path: String::new(), summary: String::new() }
    }
}

/// Context data passed to prompt templates.
///
/// Not all fields are used in every template; unused fields keep their default
/// (empty) values.
#[derive(Debug, Clone, PartialEq, Eq)]
#[non_exhaustive]
pub struct PromptContext {
    /// Feature identifier slug (e.g., "add-auth").
    pub feature_slug: String,
    /// Feature number (e.g., "0001"), used for spec file paths.
    pub feature_id: String,
    /// Current working directory.
    pub working_dir: String,
    /// Repository directory tree snapshot.
    pub repo_tree: String,
    /// Design specification content.
    pub design_spec: String,
    /// Verification plan content.
    pub verification_plan: String,
    /// Current phase name.
    pub phase_name: String,
    /// Current phase description.
    pub phase_description: String,
    /// Current phase index, starting from 1.
    pub phase_index: usize,
    /// Total number of phases.
    pub phase_total: usize,
    /// List of issues found during review.
    pub review_issues: Vec<String>,
    /// Directory path.
    pub directory_path: String,
    /// Directory analysis context.
    pub directory_analysis: String,
    /// List of generated gba.md files.
    pub gba_md_files: Vec<GbaMdEntry>,
}

/// The mathematical value of a [`PromptContext`].
pub struct PromptContextView {
    pub feature_slug: Seq<char>,
    pub feature_id: Seq<char>,
    pub working_dir: Seq<char>,
    pub repo_tree: Seq<char>,
    pub design_spec: Seq<char>,
    pub verification_plan: Seq<char>,
    pub phase_name: Seq<char>,
    pub phase_description: Seq<char>,
    pub phase_index: nat,
    pub phase_total: nat,
    pub review_issues: Seq<Seq<char>>,
    pub directory_path: Seq<char>,
    pub directory_analysis: Seq<char>,
    pub gba_md_files: Seq<GbaMdEntryView>,
}

impl View for PromptContext {
    type V = PromptContextView;

    open spec fn view(&self) -> PromptContextView {
        PromptContextView {
            feature_slug: self.feature_slug@,
            feature_id: self.feature_id@,
            working_dir: self.working_dir@,
            repo_tree: self.repo_tree@,
            design_spec: self.design_spec@,
            verification_plan: self.verification_plan@,
            phase_name: self.phase_name@,
            phase_description: self.phase_description@,
            phase_index: self.phase_index as nat,
            phase_total: self.phase_total as nat,
            review_issues: views(self.review_issues@),
            directory_path: self.directory_path@,
            directory_analysis: self.directory_analysis@,
            gba_md_files: entry_views(self.gba_md_files@),
        }
    }
}

/// The context whose every field is empty or zero.
pub open spec fn empty_context() -> PromptContextView {
    PromptContextView {
        feature_slug: seq![],
        feature_id: seq![],
        working_dir: seq![],
        repo_tree: seq![],
        design_spec: seq![],
        verification_plan: seq![],
        phase_name: seq![],
        phase_description: seq![],
        phase_index: 0,
        phase_total: 0,
        review_issues: seq![],
        directory_path: seq![],
        directory_analysis: seq![],
        gba_md_files: seq![],
    }
}

impl Default for PromptContext {
    fn default() -> (r: Self)
        ensures
            r@ == empty_context(),
    {
        let r = PromptContext {
            feature_slug: String::new(),
            feature_id: String::new(),
            working_dir: String::new(),
            repo_tree: String::new(),
            design_spec: String::new(),
            verification_plan: String::new(),
            phase_name: String::new(),
            phase_description: String::new(),
            phase_index: 0,
            phase_total: 0,
            review_issues: Vec::new(),
            directory_path: String::new(),
            directory_analysis: String::new(),
            gba_md_files: Vec::new(),
        };
        assert(views(r.review_issues@) =~= seq![]);
        assert(entry_views(r.gba_md_files@) =~= seq![]);
        r
    }
}

impl PromptContext {
    /// Creates a new `PromptContext` with default values.
    pub fn new() -> (r: Self)
        ensures
            r@ == empty_context(),
    {
        PromptContext::default()
    }

    /// Sets the feature slug.
    pub fn with_feature_slug(self, value: &str) -> (r: Self)
        ensures
            r@ == (PromptContextView { feature_slug: value@, ..self@ }),
    {
        PromptContext { feature_slug: String::from_str(value), ..self }
    }

    /// Sets the feature ID.
    pub fn with_feature_id(self, value: &str) -> (r: Self)
        ensures
            r@ == (PromptContextView { feature_id: value@, ..self@ }),
    {
        PromptContext { feature_id: String::from_str(value), ..self }
    }

    /// Sets the working directory.
    pub fn with_working_dir(self, value: &str) -> (r: Self)
        ensures
            r@ == (PromptContextView { working_dir: value@, ..self@ }),
    {
        PromptContext { working_dir: String::from_str(value), ..self }
    }

    /// Sets the repository tree.
    pub fn with_repo_tree(self, value: &str) -> (r: Self)
        ensures
            r@ == (PromptContextView { repo_tree: value@, ..self@ }),
    {
        PromptContext { repo_tree: String::from_str(value), ..self }
    }

    /// Sets the design specification.
    pub fn with_design_spec(self, value: &str) -> (r: Self)
        ensures
            r@ == (PromptContextView { design_spec: value@, ..self@ }),
    {
        PromptContext { design_spec: String::from_str(value), ..self }
    }

    /// Sets the verification plan.
    pub fn with_verification_plan(self, value: &str) -> (r: Self)
        ensures
            r@ == (PromptContextView { verification_plan: value@, ..self@ }),
    {
        PromptContext { verification_plan: String::from_str(value), ..self }
    }

    /// Sets the phase name.
    pub fn with_phase_name(self, value: &str) -> (r: Self)
        ensures
            r@ == (PromptContextView { phase_name: value@, ..self@ }),
    {
        PromptContext { phase_name: String::from_str(value), ..self }
    }

    /// Sets the phase description.
    pub fn with_phase_description(self, value: &str) -> (r: Self)
        ensures
            r@ == (PromptContextView { phase_description: value@, ..self@ }),
    {
        PromptContext { phase_description: String::from_str(value), ..self }
    }

    /// Sets the phase index.
    pub fn with_phase_index(self, value: usize) -> (r: Self)
        ensures
            r@ == (PromptContextView { phase_index: value as nat, ..self@ }),
    {
        PromptContext { phase_index: value, ..self }
    }

    /// Sets the total number of phases.
    pub fn with_phase_total(self, value: usize) -> (r: Self)
        ensures
            r@ == (PromptContextView { phase_total: value as nat, ..self@ }),
    {
        PromptContext { phase_total: value, ..self }
    }

    /// Sets the review issues.
    pub fn with_review_issues(self, value: Vec<String>) -> (r: Self)
        ensures
            r@ == (PromptContextView { review_issues: views(value@), ..self@ }),
    {
        PromptContext { review_issues: value, ..self }
    }

    /// Sets the directory path.
    pub fn with_directory_path(self, value: &str) -> (r: Self)
        ensures
            r@ == (PromptContextView { directory_path: value@, ..self@ }),
    {
        PromptContext { directory_path: String::from_str(value), ..self }
    }

    /// Sets the directory analysis.
    pub fn with_directory_analysis(self, value: &str) -> (r: Self)
        ensures
            r@ == (PromptContextView { directory_analysis: value@, ..self@ }),
    {
        PromptContext { directory_analysis: String::from_str(value), ..self }
    }

    /// Sets the gba.md files list.
    pub fn with_gba_md_files(self, value: Vec<GbaMdEntry>) -> (r: Self)
        ensures
            r@ == (PromptContextView { gba_md_files: entry_views(value@), ..self@ }),
    {
        PromptContext { gba_md_files: value, ..self }
    }
}

} // verus!
