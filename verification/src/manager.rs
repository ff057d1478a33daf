//! The prompt templates: which source serves each prompt (an override when there is
//! one, else the default), and their rendering with a prompt context through
//! MiniJinja.

use vstd::prelude::*;

use minijinja::{Environment, Value};

use crate::context::{entry_views, GbaMdEntry, GbaMdEntryView, PromptContext, PromptContextView};
use crate::error::GbaCoreError;
use crate::prompt_id::{spec_template_name, PromptId};
use crate::text::{starts_with, views};

verus! {

/// The values a template sees, by kind: text fields, numbers, lists of texts, and
/// lists of `gba.md` entries, each under its name.
#[derive(Debug, Clone, PartialEq, Eq)]
pub struct TemplateFields {
    /// Text values.
    pub texts: Vec<(String, String)>,
    /// Number values.
    pub numbers: Vec<(String, usize)>,
    /// Lists of texts.
    pub lists: Vec<(String, Vec<String>)>,
    /// Lists of `gba.md` entries (each seen as a map with `path` and `summary`).
    pub entries: Vec<(String, Vec<GbaMdEntry>)>,
}

/// The mathematical value of [`TemplateFields`].
pub struct TemplateFieldsView {
    pub texts: Seq<(Seq<char>, Seq<char>)>,
    pub numbers: Seq<(Seq<char>, nat)>,
    pub lists: Seq<(Seq<char>, Seq<Seq<char>>)>,
    pub entries: Seq<(Seq<char>, Seq<GbaMdEntryView>)>,
}

impl View for TemplateFields {
    type V = TemplateFieldsView;

    open spec fn view(&self) -> TemplateFieldsView {
        TemplateFieldsView {
            texts: self.texts@.map_values(|p: (String, String)| (p.0@, p.1@)),
            numbers: self.numbers@.map_values(|p: (String, usize)| (p.0@, p.1 as nat)),
            lists: self.lists@.map_values(|p: (String, Vec<String>)| (p.0@, views(p.1@))),
            entries: self.entries@.map_values(
                |p: (String, Vec<GbaMdEntry>)| (p.0@, entry_views(p.1@)),
            ),
        }
    }
}

/// The values a prompt context shows to the templates, under the names of its fields.
pub open spec fn spec_fields(c: PromptContextView) -> TemplateFieldsView {
    TemplateFieldsView {
        texts: seq![
            ("feature_slug"@, c.feature_slug),
            ("feature_id"@, c.feature_id),
            ("working_dir"@, c.working_dir),
            ("repo_tree"@, c.repo_tree),
            ("design_spec"@, c.design_spec),
            ("verification_plan"@, c.verification_plan),
            ("phase_name"@, c.phase_name),
            ("phase_description"@, c.phase_description),
            ("directory_path"@, c.directory_path),
            ("directory_analysis"@, c.directory_analysis),
        ],
        numbers: seq![("phase_index"@, c.phase_index), ("phase_total"@, c.phase_total)],
        lists: seq![("review_issues"@, c.review_issues)],
        entries: seq![("gba_md_files"@, c.gba_md_files)],
    }
}

/// MiniJinja's template environment, holding the compiled templates by name.
#[verifier::external_type_specification]
#[verifier::external_body]
pub struct ExEnvironment<'a>(Environment<'a>);

/// The templates an environment holds: the source of each, by name.
pub uninterp spec fn env_templates(env: Environment<'static>) -> Map<Seq<char>, Seq<char>>;

/// Whether MiniJinja accepts `source` as a template (what
/// `Environment::add_template_owned` decides).
pub uninterp spec fn spec_template_ok(source: Seq<char>) -> bool;

/// What MiniJinja renders from the template `name` of the environment holding
/// `templates`, with the values `fields` (templates may include, extend or import one
/// another by name), or `None` when that fails (what `Environment::get_template`
/// followed by `Template::render` returns).
pub uninterp spec fn spec_render(
    templates: Map<Seq<char>, Seq<char>>,
    name: Seq<char>,
    fields: TemplateFieldsView,
) -> Option<Seq<char>>;

/// A new environment with `Environment::new`: it holds no template.
#[verifier::external_body]
fn env_new() -> (r: Environment<'static>)
    ensures
        env_templates(r).is_empty(),
{
    Environment::new()
}

/// Compiles `source` and stores it under `name` with MiniJinja's
/// `Environment::add_template_owned`. The contract claims that it succeeds exactly
/// when the source is a valid template (named `spec_template_ok`), and that on success
/// the environment holds the source under that name besides what it held; what the
/// environment holds after a failure, and the text of the error, are not stated.
#[verifier::external_body]
fn env_add(env: &mut Environment<'static>, name: &str, source: &str) -> (r: Result<(), String>)
    ensures
        r is Ok <==> spec_template_ok(source@),
        r is Ok ==> env_templates(*final(env)) == env_templates(*old(env)).insert(name@, source@),
{
    env.add_template_owned(name.to_string(), source.to_string()).map_err(|e| e.to_string())
}

/// Renders the template `name` of `env` with `fields` through MiniJinja's
/// `Environment::get_template` and `Template::render`, each field becoming a template
/// variable. The contract claims that the result is the value named `spec_render`;
/// the text of an error is not stated.
#[verifier::external_body]
fn env_render(env: &Environment<'static>, name: &str, f: TemplateFields) -> (r: Result<String, String>)
    ensures
        match spec_render(env_templates(*env), name@, f@) {
            Some(t) => r matches Ok(x) && x@ == t,
            None => r is Err,
        },
{
    let map = |e: GbaMdEntry| Value::from_iter([("path", e.path), ("summary", e.summary)]);
    let ctx = Value::from_iter(f.texts.into_iter().map(|(k, v)| (k, Value::from(v)))
        .chain(f.numbers.into_iter().map(|(k, n)| (k, n.into())))
        .chain(f.lists.into_iter().map(|(k, l)| (k, l.into())))
        .chain(f.entries.into_iter().map(|(k, es)| (k, Value::from_iter(es.into_iter().map(map))))));
    env.get_template(name).and_then(|t| t.render(ctx)).map_err(|e| e.to_string())
}

/// The index of a prompt in `PromptId::all()`.
pub open spec fn prompt_index(id: PromptId) -> int {
    match id {
        PromptId::InitSystem => 0,
        PromptId::InitAnalyze => 1,
        PromptId::InitGbaMd => 2,
        PromptId::InitClaudeMd => 3,
        PromptId::PlanSystem => 4,
        PromptId::PlanDesignSpec => 5,
        PromptId::PlanVerification => 6,
        PromptId::RunSystem => 7,
        PromptId::RunPhase => 8,
        PromptId::RunReview => 9,
        PromptId::RunVerify => 10,
    }
}

/// The prompts in the order of `PromptId::all()`.
pub open spec fn spec_all_prompts() -> Seq<PromptId> {
    seq![
        PromptId::InitSystem,
        PromptId::InitAnalyze,
        PromptId::InitGbaMd,
        PromptId::InitClaudeMd,
        PromptId::PlanSystem,
        PromptId::PlanDesignSpec,
        PromptId::PlanVerification,
        PromptId::RunSystem,
        PromptId::RunPhase,
        PromptId::RunReview,
        PromptId::RunVerify,
    ]
}

/// The source chosen for each prompt: its override when there is one, else its
/// default.
pub open spec fn chosen_sources(defaults: Seq<String>, overrides: Seq<Option<String>>) -> Seq<
    Seq<char>,
> {
    Seq::new(
        11,
        |i: int|
            match overrides[i] {
                Some(o) => o@,
                None => defaults[i]@,
            },
    )
}

/// The templates of the first `n` prompts, each under its template name.
pub open spec fn prompt_map(sources: Seq<Seq<char>>, n: nat) -> Map<Seq<char>, Seq<char>>
    decreases n,
{
    if n == 0 {
        Map::empty()
    } else {
        prompt_map(sources, (n - 1) as nat).insert(
            spec_template_name(spec_all_prompts()[n - 1]),
            sources[n - 1],
        )
    }
}

/// In the templates of the first `n` prompts, the name of prompt `i < n` gives its
/// source.
pub proof fn lemma_prompt_map(sources: Seq<Seq<char>>, n: nat, i: int)
    requires
        0 <= i < n <= 11,
    ensures
        prompt_map(sources, n).contains_key(spec_template_name(spec_all_prompts()[i])),
        prompt_map(sources, n)[spec_template_name(spec_all_prompts()[i])] == sources[i],
    decreases n,
{
    if i < n - 1 {
        lemma_prompt_map(sources, (n - 1) as nat, i);
        let a = spec_all_prompts()[n - 1];
        let b = spec_all_prompts()[i];
        assert(a != b);
        crate::prompt_id::law_template_names_distinct(a, b);
    }
}

/// The beginning of the message of an error about the template of `id`.
pub open spec fn template_error_prefix(id: PromptId) -> Seq<char> {
    "Failed to render template '"@ + spec_template_name(id) + "': "@
}

/// The values a prompt context shows to the templates.
pub fn template_fields(c: &PromptContext) -> (r: TemplateFields)
    ensures
        r@ == spec_fields(c@),
{
    let texts = vec![
        (String::from_str("feature_slug"), c.feature_slug.clone()),
        (String::from_str("feature_id"), c.feature_id.clone()),
        (String::from_str("working_dir"), c.working_dir.clone()),
        (String::from_str("repo_tree"), c.repo_tree.clone()),
        (String::from_str("design_spec"), c.design_spec.clone()),
        (String::from_str("verification_plan"), c.verification_plan.clone()),
        (String::from_str("phase_name"), c.phase_name.clone()),
        (String::from_str("phase_description"), c.phase_description.clone()),
        (String::from_str("directory_path"), c.directory_path.clone()),
        (String::from_str("directory_analysis"), c.directory_analysis.clone()),
    ];
    let numbers = vec![
        (String::from_str("phase_index"), c.phase_index),
        (String::from_str("phase_total"), c.phase_total),
    ];
    let lists = vec![(String::from_str("review_issues"), c.review_issues.clone())];
    let entries = vec![(String::from_str("gba_md_files"), copy_entries(&c.gba_md_files))];
    let r = TemplateFields { texts, numbers, lists, entries };
    assert(r@.texts =~= spec_fields(c@).texts);
    assert(r@.numbers =~= spec_fields(c@).numbers);
    assert(r@.lists =~= spec_fields(c@).lists);
    assert(r@.entries =~= spec_fields(c@).entries);
    r
}

/// A copy of a list of entries.
fn copy_entries(v: &Vec<GbaMdEntry>) -> (r: Vec<GbaMdEntry>)
    ensures
        entry_views(r@) == entry_views(v@),
{
    let mut r: Vec<GbaMdEntry> = Vec::new();
    let mut i: usize = 0;
    while i < v.len()
        invariant
            i <= v@.len(),
            entry_views(r@) == entry_views(v@.subrange(0, i as int)),
        decreases v@.len() - i,
    {
        let e = GbaMdEntry::new(v[i].path.as_str(), v[i].summary.as_str());
        let ghost before = r@;
        r.push(e);
        assert(entry_views(r@) =~= entry_views(before).push(v@[i as int]@));
        assert(v@.subrange(0, i + 1) =~= v@.subrange(0, i as int).push(v@[i as int]));
        assert(entry_views(v@.subrange(0, i + 1)) =~= entry_views(v@.subrange(0, i as int)).push(
            v@[i as int]@,
        ));
        i = i + 1;
    }
    assert(v@.subrange(0, v@.len() as int) =~= v@);
    r
}

/// The message of an error about the template of `id`.
fn template_error(id: PromptId, detail: &str) -> (r: GbaCoreError)
    ensures
        r matches GbaCoreError::PromptError(m) && starts_with(m@, template_error_prefix(id)),
{
    let mut m = String::from_str("Failed to render template '");
    m.append(id.template_name());
    m.append("': ");
    let ghost prefix = m@;
    m.append(detail);
    assert(m@.subrange(0, prefix.len() as int) =~= prefix);
    GbaCoreError::PromptError(m)
}

/// The prompt templates, one per prompt, in one MiniJinja environment.
#[derive(Debug)]
pub struct PromptManager {
    env: Environment<'static>,
}

impl PromptManager {
    /// The templates, by name.
    pub closed spec fn spec_templates(&self) -> Map<Seq<char>, Seq<char>> {
        env_templates(self.env)
    }

    /// The source of the template of `id`.
    pub open spec fn spec_source(&self, id: PromptId) -> Seq<char> {
        self.spec_templates()[spec_template_name(id)]
    }

    /// Loads the templates: for each prompt of `PromptId::all()`, its override when
    /// there is one, else its default, under the prompt's template name. Fails, naming
    /// the first template that does not compile, unless every chosen source is a valid
    /// template.
    pub fn new(defaults: Vec<String>, overrides: Vec<Option<String>>) -> (r: Result<
        Self,
        GbaCoreError,
    >)
        requires
            defaults@.len() == 11,
            overrides@.len() == 11,
        ensures
            r is Ok <==> forall|i: int|
                0 <= i < 11 ==> #[trigger] spec_template_ok(chosen_sources(defaults@, overrides@)[i]),
            r matches Ok(m) ==> m.spec_templates() == prompt_map(chosen_sources(defaults@, overrides@), 11),
            r matches Ok(m) ==> forall|i: int|
                0 <= i < 11 ==> #[trigger] m.spec_source(spec_all_prompts()[i]) == chosen_sources(
                    defaults@,
                    overrides@,
                )[i],
            r matches Err(e) ==> exists|i: int|
                0 <= i < 11 && !spec_template_ok(chosen_sources(defaults@, overrides@)[i])
                    && (forall|j: int|
                    0 <= j < i ==> #[trigger] spec_template_ok(
                        chosen_sources(defaults@, overrides@)[j],
                    )) && (e matches GbaCoreError::PromptError(m) && starts_with(
                    m@,
                    template_error_prefix(spec_all_prompts()[i]),
                )),
    {
        let ghost chosen = chosen_sources(defaults@, overrides@);
        let ids = PromptId::all();
        let mut env = env_new();
        let mut i: usize = 0;
        while i < 11
            invariant
                i <= 11,
                defaults@.len() == 11,
                overrides@.len() == 11,
                chosen == chosen_sources(defaults@, overrides@),
                ids@ == spec_all_prompts(),
                env_templates(env) == prompt_map(chosen, i as nat),
                forall|j: int| 0 <= j < i ==> #[trigger] spec_template_ok(chosen[j]),
            decreases 11 - i,
        {
            let source = match &overrides[i] {
                Some(o) => o.clone(),
                None => defaults[i].clone(),
            };
            assert(source@ == chosen[i as int]);
            let id = ids[i];
            match env_add(&mut env, id.template_name(), source.as_str()) {
                Err(e) => {
                    return Err(template_error(id, e.as_str()));
                },
                Ok(()) => {},
            }
            i = i + 1;
        }
        let m = PromptManager { env };
        assert forall|i: int| 0 <= i < 11 implies #[trigger] m.spec_source(spec_all_prompts()[i])
            == chosen[i] by {
            lemma_prompt_map(chosen, 11, i);
        }
        Ok(m)
    }

    /// Renders the template of `id` with the values of `ctx`.
    pub fn render(&self, id: PromptId, ctx: &PromptContext) -> (r: Result<String, GbaCoreError>)
        ensures
            match spec_render(self.spec_templates(), spec_template_name(id), spec_fields(ctx@)) {
                Some(t) => r matches Ok(x) && x@ == t,
                None => r matches Err(e) && (e matches GbaCoreError::PromptError(m) && starts_with(
                    m@,
                    template_error_prefix(id),
                )),
            },
    {
        match env_render(&self.env, id.template_name(), template_fields(ctx)) {
            Ok(t) => Ok(t),
            Err(e) => Err(template_error(id, e.as_str())),
        }
    }
}

/// The text field of a prompt context that a template sees under `name`: each
/// field under its own name, as a serialised context shows it.
pub open spec fn context_text(c: PromptContextView, name: Seq<char>) -> Option<Seq<char>> {
    if name == "feature_slug"@ {
        Some(c.feature_slug)
    } else     if name == "feature_id"@ {
        Some(c.feature_id)
    } else     if name == "working_dir"@ {
        Some(c.working_dir)
    } else     if name == "repo_tree"@ {
        Some(c.repo_tree)
    } else     if name == "design_spec"@ {
        Some(c.design_spec)
    } else     if name == "verification_plan"@ {
        Some(c.verification_plan)
    } else     if name == "phase_name"@ {
        Some(c.phase_name)
    } else     if name == "phase_description"@ {
        Some(c.phase_description)
    } else     if name == "directory_path"@ {
        Some(c.directory_path)
    } else     if name == "directory_analysis"@ {
        Some(c.directory_analysis)
    } else {
        None
    }
}

/// The number field of a prompt context seen under `name`.
pub open spec fn context_number(c: PromptContextView, name: Seq<char>) -> Option<nat> {
    if name == "phase_index"@ {
        Some(c.phase_index)
    } else if name == "phase_total"@ {
        Some(c.phase_total)
    } else {
        None
    }
}

/// The list fields of a prompt context seen under `name`.
pub open spec fn context_list(c: PromptContextView, name: Seq<char>) -> Option<Seq<Seq<char>>> {
    if name == "review_issues"@ {
        Some(c.review_issues)
    } else {
        None
    }
}

/// The entry lists of a prompt context seen under `name`.
pub open spec fn context_entries(c: PromptContextView, name: Seq<char>) -> Option<
    Seq<GbaMdEntryView>,
> {
    if name == "gba_md_files"@ {
        Some(c.gba_md_files)
    } else {
        None
    }
}

/// The templates see every field of the prompt context, each exactly once and under
/// its own name: a value shown under a name is the context field of that name, no name
/// is shown twice, and all ten text fields, both numbers, the issue list and the
/// `gba.md` entries are shown.
pub proof fn law_fields_by_name(c: PromptContextView)
    ensures
        spec_fields(c).texts.len() == 10,
        forall|i: int|
            0 <= i < spec_fields(c).texts.len() ==> context_text(c, #[trigger] spec_fields(c).texts[i].0)
                == Some(spec_fields(c).texts[i].1),
        forall|i: int, j: int|
            0 <= i < j < spec_fields(c).texts.len() ==> #[trigger] spec_fields(c).texts[i].0
                != #[trigger] spec_fields(c).texts[j].0,
        spec_fields(c).numbers.len() == 2,
        forall|i: int|
            0 <= i < spec_fields(c).numbers.len() ==> context_number(
                c,
                #[trigger] spec_fields(c).numbers[i].0,
            ) == Some(spec_fields(c).numbers[i].1),
        spec_fields(c).numbers[0].0 != spec_fields(c).numbers[1].0,
        spec_fields(c).lists.len() == 1,
        context_list(c, spec_fields(c).lists[0].0) == Some(spec_fields(c).lists[0].1),
        spec_fields(c).entries.len() == 1,
        context_entries(c, spec_fields(c).entries[0].0) == Some(spec_fields(c).entries[0].1),
{
    reveal_strlit("feature_slug");
    reveal_strlit("feature_id");
    reveal_strlit("working_dir");
    reveal_strlit("repo_tree");
    reveal_strlit("design_spec");
    reveal_strlit("verification_plan");
    reveal_strlit("phase_name");
    reveal_strlit("phase_description");
    reveal_strlit("directory_path");
    reveal_strlit("directory_analysis");
    reveal_strlit("phase_index");
    reveal_strlit("phase_total");
    reveal_strlit("review_issues");
    reveal_strlit("gba_md_files");
    let t = spec_fields(c).texts;
    assert forall|i: int, j: int| 0 <= i < j < t.len() implies #[trigger] t[i].0 != #[trigger] t[j].0 by {
        assert(t[i].0.len() != t[j].0.len() || t[i].0[0] != t[j].0[0] || t[i].0[1] != t[j].0[1]
            || t[i].0[6] != t[j].0[6] || t[i].0[10] != t[j].0[10]);
    }
    assert forall|i: int| 0 <= i < t.len() implies context_text(c, #[trigger] t[i].0) == Some(
        t[i].1,
    ) by {
        assert forall|j: int| 0 <= j < i implies t[j].0 != t[i].0 by {
            assert(t[j].0 != t[i].0);
        }
        if i == 0 {
        } else if i == 1 {
            assert(t[0].0 != t[1].0);
        } else if i == 2 {
            assert(t[0].0 != t[2].0 && t[1].0 != t[2].0);
        } else if i == 3 {
            assert(t[0].0 != t[3].0 && t[1].0 != t[3].0 && t[2].0 != t[3].0);
        } else if i == 4 {
            assert(t[0].0 != t[4].0 && t[1].0 != t[4].0 && t[2].0 != t[4].0 && t[3].0 != t[4].0);
        } else if i == 5 {
            assert(t[0].0 != t[5].0 && t[1].0 != t[5].0 && t[2].0 != t[5].0 && t[3].0 != t[5].0
                && t[4].0 != t[5].0);
        } else if i == 6 {
            assert(t[0].0 != t[6].0 && t[1].0 != t[6].0 && t[2].0 != t[6].0 && t[3].0 != t[6].0
                && t[4].0 != t[6].0 && t[5].0 != t[6].0);
        } else if i == 7 {
            assert(t[0].0 != t[7].0 && t[1].0 != t[7].0 && t[2].0 != t[7].0 && t[3].0 != t[7].0
                && t[4].0 != t[7].0 && t[5].0 != t[7].0 && t[6].0 != t[7].0);
        } else if i == 8 {
            assert(t[0].0 != t[8].0 && t[1].0 != t[8].0 && t[2].0 != t[8].0 && t[3].0 != t[8].0
                && t[4].0 != t[8].0 && t[5].0 != t[8].0 && t[6].0 != t[8].0 && t[7].0 != t[8].0);
        } else {
            assert(t[0].0 != t[9].0 && t[1].0 != t[9].0 && t[2].0 != t[9].0 && t[3].0 != t[9].0
                && t[4].0 != t[9].0 && t[5].0 != t[9].0 && t[6].0 != t[9].0 && t[7].0 != t[9].0
                && t[8].0 != t[9].0);
        }
    }
    assert("phase_index"@[6] != "phase_total"@[6]);
}

} // verus!
