//! The validation-and-construction pipeline.
//!
//! Loading is a single pass over the parsed document, aborting on the first
//! error. The library performs no I/O of its own, so the pass is split into a
//! pure planning phase ([`plan_config`]) and a resolution phase
//! ([`resolve_plan`]) that consumes path-existence answers supplied by the
//! caller; [`read_config`] combines the two. The caller answers one
//! [`LoadStep::Query`] at a time until the outcome is [`LoadStep::Loaded`] or
//! [`LoadStep::Failed`], so the first error in document order wins even though
//! the existence checks happen outside the library.

use crate::doc::flag_prop;
use crate::doc::list_prop;
use crate::doc::lookup;
use crate::doc::text_prop;
use crate::doc::DocValue;
use crate::error::ConfigError;
use crate::error::ConfigErrorView;
use crate::parse::parse_text;
use crate::parse::parsed_docs;
use crate::system::ColoredText;
use crate::system::Rgb;
use crate::system::System;
use crate::system::SystemView;
use vstd::prelude::*;
use vstd::string::StringExecFns;

verus! {

/// The colour component at position `i`, when it is an integer in `0..=255`.
pub open spec fn component(items: Seq<DocValue>, i: int) -> Option<u8> {
    if 0 <= i < items.len() {
        match items[i] {
            DocValue::Int(v) => if 0 <= v <= 255 {
                Some(v as u8)
            } else {
                None
            },
            _ => None,
        }
    } else {
        None
    }
}

/// The colour triple read from the first three items of a `color` sequence;
/// items beyond the third are ignored.
pub open spec fn color_of(items: Seq<DocValue>) -> Option<Rgb> {
    match (component(items, 0), component(items, 1), component(items, 2)) {
        (Some(r), Some(g), Some(b)) => Some(Rgb { r, g, b }),
        _ => None,
    }
}

/// A path resolved against the archive root: the simple join, with no
/// normalization of `..` or symlinks.
pub open spec fn join_path(root: Seq<char>, rel: Seq<char>) -> Seq<char> {
    root + "/"@ + rel
}

/// What validating one `systems` entry yields: the descriptor together with
/// the entry's resolved path, or the error naming the entry.
///
/// Field extraction is tried in the fixed order `display_name`, `color`,
/// `path`, `games_are_directories`; a missing or wrong-typed field names the
/// first offender. The colour range is checked only after all four fields are
/// present.
pub open spec fn check_entry(root: Seq<char>, label: Seq<char>, props: DocValue) -> Result<
    (SystemView, Seq<char>),
    ConfigErrorView,
> {
    match text_prop(props, "display_name"@) {
        None => Err(ConfigErrorView::MissingProperty(label, "display_name"@)),
        Some(display_name) => match list_prop(props, "color"@) {
            None => Err(ConfigErrorView::MissingProperty(label, "color"@)),
            Some(color_items) => match text_prop(props, "path"@) {
                None => Err(ConfigErrorView::MissingProperty(label, "path"@)),
                Some(directory) => match flag_prop(props, "games_are_directories"@) {
                    None => Err(
                        ConfigErrorView::MissingProperty(label, "games_are_directories"@),
                    ),
                    Some(games_are_directories) => match color_of(color_items) {
                        None => Err(ConfigErrorView::InvalidColor(label)),
                        Some(color) => Ok(
                            (
                                SystemView {
                                    label,
                                    display_name,
                                    color,
                                    directory,
                                    games_are_directories,
                                },
                                join_path(root, directory),
                            ),
                        ),
                    },
                },
            },
        },
    }
}

/// The mathematical value of an [`EntryPlan`].
pub enum PlanItemView {
    Bad(ConfigErrorView),
    Sys(SystemView, Seq<char>),
}

/// What one `systems` entry contributes to the load: either the error it was
/// rejected with, or its descriptor together with the resolved path whose
/// existence still has to be confirmed.
#[derive(Debug)]
pub enum EntryPlan {
    Bad(ConfigError),
    Sys(System, String),
}

impl View for EntryPlan {
    type V = PlanItemView;

    open spec fn view(&self) -> PlanItemView {
        match self {
            EntryPlan::Bad(e) => PlanItemView::Bad(e@),
            EntryPlan::Sys(sys, path) => PlanItemView::Sys(sys@, path@),
        }
    }
}

impl DeepView for EntryPlan {
    type V = PlanItemView;

    open spec fn deep_view(&self) -> PlanItemView {
        self@
    }
}

/// What one entry of the `systems` mapping plans to: a key that is not text is
/// rejected as [`ConfigErrorView::InvalidLabel`], any other entry is validated
/// by [`check_entry`] under its label.
pub open spec fn plan_entry_spec(root: Seq<char>, key: DocValue, props: DocValue) -> PlanItemView {
    match key {
        DocValue::Text(k) => match check_entry(root, k@, props) {
            Ok((sys, path)) => PlanItemView::Sys(sys, path),
            Err(e) => PlanItemView::Bad(e),
        },
        _ => PlanItemView::Bad(ConfigErrorView::InvalidLabel),
    }
}

/// The entries of the document's top-level `systems` mapping, when the
/// document is a mapping whose `systems` key holds a mapping.
pub open spec fn systems_of(doc: DocValue) -> Option<Seq<(DocValue, DocValue)>> {
    match doc {
        DocValue::Mapping(top) => match lookup(top@, "systems"@) {
            Some(DocValue::Mapping(entries)) => Some(entries@),
            _ => None,
        },
        _ => None,
    }
}

/// The plan a document yields: one item per `systems` entry, in document
/// order, or [`ConfigErrorView::MissingSystemsKey`] when the `systems` mapping
/// is absent.
pub open spec fn plan_spec(root: Seq<char>, doc: DocValue) -> Result<
    Seq<PlanItemView>,
    ConfigErrorView,
> {
    match systems_of(doc) {
        None => Err(ConfigErrorView::MissingSystemsKey),
        Some(entries) => Ok(
            Seq::new(entries.len(), |i: int| plan_entry_spec(root, entries[i].0, entries[i].1)),
        ),
    }
}

/// The first document of a parse, or a value outside the schema when the text
/// held no document at all.
pub open spec fn first_doc(docs: Seq<DocValue>) -> DocValue {
    if docs.len() == 0 {
        DocValue::Other
    } else {
        docs[0]
    }
}

/// The plan of a whole configuration load, over the raw inputs: whether the
/// archive root exists, the text of `config.yaml` (or `None` when it could not
/// be read), and the parse of that text.
pub open spec fn plan_config_spec(
    root: Seq<char>,
    root_exists: bool,
    contents: Option<Seq<char>>,
) -> Result<Seq<PlanItemView>, ConfigErrorView> {
    if !root_exists {
        Err(ConfigErrorView::RootNotFound(root))
    } else {
        match contents {
            None => Err(ConfigErrorView::ConfigFileMissing),
            Some(text) => match parsed_docs(text) {
                None => Err(ConfigErrorView::ConfigParseError),
                Some(docs) => plan_spec(root, first_doc(docs)),
            },
        }
    }
}

/// The mathematical value of a `Result` of planning.
pub open spec fn plan_view(r: Result<Vec<EntryPlan>, ConfigError>) -> Result<
    Seq<PlanItemView>,
    ConfigErrorView,
> {
    match r {
        Ok(plan) => Ok(plan.deep_view()),
        Err(e) => Err(e@),
    }
}

/// The text stored under `key`, cloned out of the property mapping.
fn prop_text(props: &DocValue, key: &str) -> (r: Option<String>)
    ensures
        r is Some <==> text_prop(*props, key@) is Some,
        r matches Some(s) ==> text_prop(*props, key@) == Some(s@),
{
    match props.get(key) {
        Some(v) => match v.as_text() {
            Some(s) => Some(s.clone()),
            None => None,
        },
        None => None,
    }
}

/// The boolean stored under `key` in the property mapping.
fn prop_flag(props: &DocValue, key: &str) -> (r: Option<bool>)
    ensures
        r == flag_prop(*props, key@),
{
    match props.get(key) {
        Some(v) => v.as_flag(),
        None => None,
    }
}

/// The sequence stored under `key` in the property mapping.
fn prop_list<'a>(props: &'a DocValue, key: &str) -> (r: Option<&'a Vec<DocValue>>)
    ensures
        r is Some <==> list_prop(*props, key@) is Some,
        r matches Some(items) ==> list_prop(*props, key@) == Some(items@),
{
    match props.get(key) {
        Some(v) => v.as_list(),
        None => None,
    }
}

/// The colour component at position `i` of a `color` sequence.
fn component_at(items: &Vec<DocValue>, i: usize) -> (r: Option<u8>)
    ensures
        r == component(items@, i as int),
{
    if i < items.len() {
        match items[i].as_int() {
            Some(v) => if 0 <= v && v <= 255 {
                Some(v as u8)
            } else {
                None
            },
            None => None,
        }
    } else {
        None
    }
}

/// The colour triple read from a `color` sequence, when its first three items
/// are integers in `0..=255`.
fn color_from_items(items: &Vec<DocValue>) -> (r: Option<Rgb>)
    ensures
        r == color_of(items@),
{
    let r = match component_at(items, 0) {
        Some(c) => c,
        None => { return None; },
    };
    let g = match component_at(items, 1) {
        Some(c) => c,
        None => { return None; },
    };
    let b = match component_at(items, 2) {
        Some(c) => c,
        None => { return None; },
    };
    Some(Rgb { r, g, b })
}

/// A path resolved against the archive root by a simple join.
fn join_path_exec(root: &str, rel: &str) -> (r: String)
    ensures
        r@ == join_path(root@, rel@),
{
    let mut s = String::from_str(root);
    s.append("/");
    s.append(rel);
    s
}

/// Validates one `systems` entry and builds its planned descriptor, or the
/// precise error that rejects it.
fn plan_entry(root: &str, key: &DocValue, props: &DocValue) -> (r: EntryPlan)
    ensures
        r@ == plan_entry_spec(root@, *key, *props),
{
    let label: &String = match key.as_text() {
        Some(s) => s,
        None => { return EntryPlan::Bad(ConfigError::InvalidLabel); },
    };
    let display_name: String = match prop_text(props, "display_name") {
        Some(s) => s,
        None => {
            return EntryPlan::Bad(
                ConfigError::MissingProperty(label.clone(), String::from_str("display_name")),
            );
        },
    };
    let color_items: &Vec<DocValue> = match prop_list(props, "color") {
        Some(items) => items,
        None => {
            return EntryPlan::Bad(
                ConfigError::MissingProperty(label.clone(), String::from_str("color")),
            );
        },
    };
    let path: String = match prop_text(props, "path") {
        Some(s) => s,
        None => {
            return EntryPlan::Bad(
                ConfigError::MissingProperty(label.clone(), String::from_str("path")),
            );
        },
    };
    let games_are_directories: bool = match prop_flag(props, "games_are_directories") {
        Some(v) => v,
        None => {
            return EntryPlan::Bad(
                ConfigError::MissingProperty(
                    label.clone(),
                    String::from_str("games_are_directories"),
                ),
            );
        },
    };
    let color: Rgb = match color_from_items(color_items) {
        Some(c) => c,
        None => { return EntryPlan::Bad(ConfigError::InvalidColor(label.clone())); },
    };
    let resolved = join_path_exec(root, path.as_str());
    let sys = System::new(
        label.as_str(),
        ColoredText { text: display_name, color },
        path.as_str(),
        games_are_directories,
    );
    EntryPlan::Sys(sys, resolved)
}

/// Walks the `systems` mapping of an already-parsed document, in document
/// order, and plans every entry; fails only when the document has no `systems`
/// mapping.
pub fn plan_from_doc(archive_root: &str, doc: &DocValue) -> (r: Result<Vec<EntryPlan>, ConfigError>)
    ensures
        plan_view(r) == plan_spec(archive_root@, *doc),
{
    let systems_val: &DocValue = match doc.get("systems") {
        Some(v) => v,
        None => { return Err(ConfigError::MissingSystemsKey); },
    };
    let entries: &Vec<(DocValue, DocValue)> = match systems_val.as_mapping() {
        Some(es) => es,
        None => { return Err(ConfigError::MissingSystemsKey); },
    };
    proof {
        assert(systems_of(*doc) == Some(entries@));
    }
    let mut plan: Vec<EntryPlan> = Vec::new();
    let mut i: usize = 0;
    while i < entries.len()
        invariant
            i <= entries.len(),
            plan@.len() == i,
            forall|k: int|
                0 <= k < i ==> (#[trigger] plan@[k])@ == plan_entry_spec(
                    archive_root@,
                    entries@[k].0,
                    entries@[k].1,
                ),
        decreases entries.len() - i,
    {
        let item = plan_entry(archive_root, &entries[i].0, &entries[i].1);
        plan.push(item);
        i = i + 1;
    }
    proof {
        assert(plan.deep_view() =~= Seq::new(
            entries@.len(),
            |k: int| plan_entry_spec(archive_root@, entries@[k].0, entries@[k].1),
        ));
    }
    Ok(plan)
}

/// Plans a whole configuration load from the raw inputs: checks the root,
/// requires the configuration text, parses it, and plans its first document.
pub fn plan_config(archive_root: &str, root_exists: bool, contents: Option<&str>) -> (r: Result<
    Vec<EntryPlan>,
    ConfigError,
>)
    ensures
        plan_view(r) == plan_config_spec(archive_root@, root_exists, contents.deep_view()),
{
    if !root_exists {
        return Err(ConfigError::RootNotFound(String::from_str(archive_root)));
    }
    let text: &str = match contents {
        Some(t) => t,
        None => { return Err(ConfigError::ConfigFileMissing); },
    };
    let mut docs: Vec<DocValue> = match parse_text(text) {
        Ok(d) => d,
        Err(details) => { return Err(ConfigError::ConfigParseError(details)); },
    };
    let doc: DocValue = if docs.len() == 0 {
        DocValue::Other
    } else {
        docs.remove(0)
    };
    plan_from_doc(archive_root, &doc)
}

/// The mathematical value of a [`LoadStep`].
pub enum StepView {
    Query(Seq<char>),
    Loaded(Seq<SystemView>),
    Failed(ConfigErrorView),
}

/// Where a load stands after consuming the existence answers given so far.
///
/// + `Query(path)`: the load needs to know whether `path` exists; answer it by
///   appending one boolean to the answers and calling again.
/// + `Loaded(systems)`: every entry validated and every path exists.
/// + `Failed(error)`: the first error, in document order.
#[derive(Debug)]
pub enum LoadStep {
    Query(String),
    Loaded(Vec<System>),
    Failed(ConfigError),
}

impl View for LoadStep {
    type V = StepView;

    open spec fn view(&self) -> StepView {
        match self {
            LoadStep::Query(path) => StepView::Query(path@),
            LoadStep::Loaded(systems) => StepView::Loaded(systems.deep_view()),
            LoadStep::Failed(e) => StepView::Failed(e@),
        }
    }
}

impl DeepView for LoadStep {
    type V = StepView;

    open spec fn deep_view(&self) -> StepView {
        self@
    }
}

/// Resolution of a plan from item `i` on, with `acc` already loaded and the
/// answers from position `j` on still unconsumed.
///
/// Items are taken in order; each planned descriptor consumes one answer. A
/// bad item fails with its own error, a `false` answer fails with
/// [`ConfigErrorView::SystemPathNotFound`], and a missing answer asks for one,
/// so the first failure in document order wins.
pub open spec fn resolve_from(
    plan: Seq<PlanItemView>,
    answers: Seq<bool>,
    i: int,
    j: int,
    acc: Seq<SystemView>,
) -> StepView
    decreases plan.len() - i,
{
    if i < 0 || i >= plan.len() {
        StepView::Loaded(acc)
    } else {
        match plan[i] {
            PlanItemView::Bad(e) => StepView::Failed(e),
            PlanItemView::Sys(sys, path) => {
                if j < 0 || j >= answers.len() {
                    StepView::Query(path)
                } else if !answers[j] {
                    StepView::Failed(ConfigErrorView::SystemPathNotFound(sys.label, path))
                } else {
                    resolve_from(plan, answers, i + 1, j + 1, acc.push(sys))
                }
            },
        }
    }
}

/// Resolution of a whole plan against the existence answers given so far.
pub open spec fn resolve_spec(plan: Seq<PlanItemView>, answers: Seq<bool>) -> StepView {
    resolve_from(plan, answers, 0, 0, Seq::empty())
}

/// The outcome of a whole load over the raw inputs: the planning of
/// [`plan_config_spec`] resolved against the existence answers given so far.
pub open spec fn load_spec(
    root: Seq<char>,
    root_exists: bool,
    contents: Option<Seq<char>>,
    answers: Seq<bool>,
) -> StepView {
    match plan_config_spec(root, root_exists, contents) {
        Err(e) => StepView::Failed(e),
        Ok(plan) => resolve_spec(plan, answers),
    }
}

/// Resolves a plan against the path-existence answers collected so far,
/// consuming them in plan order.
pub fn resolve_plan(plan: &Vec<EntryPlan>, answers: &Vec<bool>) -> (r: LoadStep)
    ensures
        r@ == resolve_spec(plan.deep_view(), answers@),
{
    let mut out: Vec<System> = Vec::new();
    let mut i: usize = 0;
    let mut j: usize = 0;
    proof {
        assert(out.deep_view() =~= Seq::<SystemView>::empty());
    }
    while i < plan.len()
        invariant
            i <= plan.len(),
            j <= answers.len(),
            resolve_spec(plan.deep_view(), answers@) == resolve_from(
                plan.deep_view(),
                answers@,
                i as int,
                j as int,
                out.deep_view(),
            ),
        decreases plan.len() - i,
    {
        match &plan[i] {
            EntryPlan::Bad(e) => {
                return LoadStep::Failed(e.clone());
            },
            EntryPlan::Sys(sys, path) => {
                if j >= answers.len() {
                    return LoadStep::Query(path.clone());
                }
                if !answers[j] {
                    return LoadStep::Failed(
                        ConfigError::SystemPathNotFound(sys.label.clone(), path.clone()),
                    );
                }
                let ghost prev = out.deep_view();
                out.push(sys.clone());
                proof {
                    assert(out.deep_view() =~= prev.push(sys@));
                    assert(resolve_from(
                        plan.deep_view(),
                        answers@,
                        i as int,
                        j as int,
                        prev,
                    ) == resolve_from(
                        plan.deep_view(),
                        answers@,
                        i as int + 1,
                        j as int + 1,
                        prev.push(sys@),
                    ));
                }
                i = i + 1;
                j = j + 1;
            },
        }
    }
    LoadStep::Loaded(out)
}

/// Returns a collection of [`System`] instances based on the archive's
/// configuration, or the first error in document order.
///
/// The caller supplies the raw inputs in place of I/O: whether `archive_root`
/// exists, the text of `config.yaml` under it (`None` when it is absent or
/// unreadable), and the path-existence answers collected so far. While the
/// result is [`LoadStep::Query`], the caller checks whether the queried path
/// exists, appends the answer to `path_answers`, and calls again; the result
/// is deterministic in these inputs alone.
#[must_use]
pub fn read_config(
    archive_root: &str,
    root_exists: bool,
    contents: Option<&str>,
    path_answers: &Vec<bool>,
) -> (r: LoadStep)
    ensures
        r@ == load_spec(archive_root@, root_exists, contents.deep_view(), path_answers@),
{
    match plan_config(archive_root, root_exists, contents) {
        Err(e) => LoadStep::Failed(e),
        Ok(plan) => resolve_plan(&plan, path_answers),
    }
}

proof fn lemma_resolve_from_all_valid(
    plan: Seq<PlanItemView>,
    answers: Seq<bool>,
    i: int,
    j: int,
    acc: Seq<SystemView>,
)
    requires
        0 <= i <= plan.len(),
        0 <= j <= answers.len(),
        answers.len() - j == plan.len() - i,
        forall|k: int| i <= k < plan.len() ==> (#[trigger] plan[k]) is Sys,
        forall|k: int| j <= k < answers.len() ==> answers[k] == true,
    ensures
        resolve_from(plan, answers, i, j, acc) matches StepView::Loaded(systems) && {
            &&& systems.len() == acc.len() + (plan.len() - i)
            &&& forall|k: int| 0 <= k < acc.len() ==> systems[k] == acc[k]
            &&& forall|k: int|
                i <= k < plan.len() ==> ((#[trigger] plan[k]) matches PlanItemView::Sys(s, _)
                    && systems[acc.len() + (k - i)] == s)
        },
    decreases plan.len() - i,
{
    if i < plan.len() {
        match plan[i] {
            PlanItemView::Sys(sys, path) => {
                lemma_resolve_from_all_valid(plan, answers, i + 1, j + 1, acc.push(sys));
            },
            PlanItemView::Bad(_) => {
                assert(false);
            },
        }
    }
}

/// A valid document loads completely, in document order: when every entry of
/// the `systems` mapping plans to a descriptor and the caller has answered one
/// existence query per entry with `true`, resolution yields exactly one
/// descriptor per entry, the `k`-th descriptor coming from the `k`-th entry.
pub proof fn lemma_valid_plan_loads_all(
    root: Seq<char>,
    doc: DocValue,
    entries: Seq<(DocValue, DocValue)>,
    answers: Seq<bool>,
)
    requires
        systems_of(doc) == Some(entries),
        forall|k: int|
            0 <= k < entries.len() ==> (#[trigger] plan_entry_spec(
                root,
                entries[k].0,
                entries[k].1,
            )) is Sys,
        answers.len() == entries.len(),
        forall|k: int| 0 <= k < answers.len() ==> answers[k] == true,
    ensures
        plan_spec(root, doc) matches Ok(plan) && resolve_spec(plan, answers) matches
            StepView::Loaded(systems) && {
            &&& systems.len() == entries.len()
            &&& forall|k: int|
                0 <= k < entries.len() ==> ((#[trigger] plan_entry_spec(
                    root,
                    entries[k].0,
                    entries[k].1,
                )) matches PlanItemView::Sys(s, _) && systems[k] == s)
        },
{
    let plan = Seq::new(entries.len(), |k: int| plan_entry_spec(root, entries[k].0, entries[k].1));
    assert(plan_spec(root, doc) == Ok::<Seq<PlanItemView>, ConfigErrorView>(plan));
    assert forall|k: int| 0 <= k < plan.len() implies (#[trigger] plan[k]) is Sys by {
        assert(plan[k] == plan_entry_spec(root, entries[k].0, entries[k].1));
    }
    lemma_resolve_from_all_valid(plan, answers, 0, 0, Seq::empty());
    assert(resolve_spec(plan, answers) == resolve_from(plan, answers, 0, 0, Seq::empty()));
    match resolve_from(plan, answers, 0, 0, Seq::<SystemView>::empty()) {
        StepView::Loaded(systems) => {
            assert forall|k: int| 0 <= k < entries.len() implies ((#[trigger] plan_entry_spec(
                root,
                entries[k].0,
                entries[k].1,
            )) matches PlanItemView::Sys(s, _) && systems[k] == s) by {
                assert(plan[k] == plan_entry_spec(root, entries[k].0, entries[k].1));
                assert(plan[k] matches PlanItemView::Sys(s, _) && systems[0 + (k - 0)] == s);
            }
        },
        _ => {
            assert(false);
        },
    }
}

/// An empty `systems` mapping yields an empty, non-error result, whatever
/// existence answers are on hand: there is nothing to query and nothing to
/// fail.
pub proof fn lemma_empty_systems_load(root: Seq<char>, doc: DocValue, answers: Seq<bool>)
    requires
        systems_of(doc) matches Some(entries) && entries.len() == 0,
    ensures
        plan_spec(root, doc) matches Ok(plan) && resolve_spec(plan, answers) == StepView::Loaded(
            Seq::<SystemView>::empty(),
        ),
{
}

/// Loading is idempotent: the outcome is a function of the archive root,
/// whether it exists, the configuration text and the existence answers alone,
/// so two loads over unchanged inputs are value-equal.
pub proof fn lemma_load_deterministic(
    root: Seq<char>,
    root_exists: bool,
    contents: Option<Seq<char>>,
    answers: Seq<bool>,
    r1: StepView,
    r2: StepView,
)
    requires
        r1 == load_spec(root, root_exists, contents, answers),
        r2 == load_spec(root, root_exists, contents, answers),
    ensures
        r1 == r2,
{
}

} // verus!
