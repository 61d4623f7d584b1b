//! The template renderer: the one stage of a scaffolding step that is
//! computed rather than performed outside. Rendering is delegated to the
//! tera engine behind a trusted boundary; everything stated of it is that
//! its outcome is a function of the template name, the template text and
//! the bound name value alone.

use crate::plugin_name::PluginName;
use crate::template::TemplateRef;
use vstd::prelude::*;

verus! {

/// The stage of a scaffolding step at which a failure arose.
#[derive(Clone, Copy, PartialEq, Eq, Structural, Debug)]
pub enum StepStage {
    Tool,
    Fetch,
    Render,
    Write,
}

/// A step's failure, tagged with the stage of origin and the template the
/// step was producing.
#[derive(Clone, Copy, PartialEq, Eq, Structural, Debug)]
pub struct StepFailure {
    pub stage: StepStage,
    pub template: TemplateRef,
}

/// What the engine returns for a template registered under `tname` with
/// text `text`, rendered with a context binding `name` to `binding` (or an
/// empty context): either the final text or a render failure.
pub uninterp spec fn render_outcome(
    tname: Seq<char>,
    text: Seq<char>,
    binding: Option<Seq<char>>,
) -> Result<Seq<char>, ()>;

pub open spec fn spec_opt_str(o: Option<&str>) -> Option<Seq<char>> {
    match o {
        Some(s) => Some(s@),
        None => None,
    }
}

/// Relies on tera (`Tera::add_raw_template` and `Tera::render`): a fresh
/// engine holding one raw template, rendered with at most one bound
/// variable, registers only built-in filters, tests, and the `range` and
/// `throw` functions, all of which compute from their inputs alone; and
/// with the `preserve_order` feature every map the language can build is
/// insertion-ordered, so map iteration — `for` loops and the `keys`,
/// `values` and `pairs` filters — follows the template text rather than a
/// per-process hash seed. The outcome therefore depends on the three
/// arguments alone.
#[verifier::external_body]
fn tera_render(tname: &str, text: &str, binding: Option<&str>) -> (r: Result<String, tera::Error>)
    ensures
        r matches Ok(s) ==> (render_outcome(tname@, text@, spec_opt_str(binding)) matches Ok(o)
            && s@ == o),
        r is Err <==> render_outcome(tname@, text@, spec_opt_str(binding)) is Err,
{
    let mut engine = tera::Tera::default();
    if let Err(e) = engine.add_raw_template(tname, text) {
        return Err(e);
    }
    let mut ctx = tera::Context::new();
    if let Some(v) = binding {
        ctx.insert("name", v);
    }
    engine.render(tname, &ctx)
}

#[verifier::external_type_specification]
#[verifier::external_body]
pub struct ExTeraError(tera::Error);

/// The context a template is rendered with: `{ name }` for every template
/// that expects it, empty for the bridge configuration.
pub open spec fn spec_binding(t: TemplateRef, name: Seq<char>) -> Option<Seq<char>> {
    if t.spec_uses_name() {
        Some(name)
    } else {
        None
    }
}

/// The bytes a scaffolding step materializes for template `t`, fetched
/// text `fetched`, and plugin name `name` — or a render failure.
pub open spec fn spec_step_contents(
    t: TemplateRef,
    name: Seq<char>,
    fetched: Seq<char>,
) -> Result<Seq<char>, ()> {
    render_outcome(t.spec_file_name(), fetched, spec_binding(t, name))
}

/// Renders fetched template text with the step's context, surfacing a
/// render failure tagged with the template.
pub fn render_template(t: &TemplateRef, name: &PluginName, text: &str) -> (r: Result<
    String,
    StepFailure,
>)
    ensures
        r matches Ok(s) ==> spec_step_contents(*t, name@, text@) == Ok::<Seq<char>, ()>(s@),
        r matches Err(e) ==> (spec_step_contents(*t, name@, text@) is Err && e == (StepFailure {
            stage: StepStage::Render,
            template: *t,
        })),
        r is Err <==> spec_step_contents(*t, name@, text@) is Err,
{
    let out = if t.uses_name() {
        tera_render(t.file_name(), text, Some(name.as_str()))
    } else {
        tera_render(t.file_name(), text, None)
    };
    match out {
        Ok(s) => Ok(s),
        Err(_) => Err(StepFailure { stage: StepStage::Render, template: *t }),
    }
}

/// Law: rendering is deterministic. The outcome is a function of the
/// template name, the template text and the bound value alone, so equal
/// inputs always yield byte-identical output.
pub proof fn lemma_render_deterministic(
    tn1: Seq<char>,
    tx1: Seq<char>,
    b1: Option<Seq<char>>,
    tn2: Seq<char>,
    tx2: Seq<char>,
    b2: Option<Seq<char>>,
)
    requires
        tn1 == tn2,
        tx1 == tx2,
        b1 == b2,
    ensures
        render_outcome(tn1, tx1, b1) == render_outcome(tn2, tx2, b2),
{
}

/// Law: materializing a step's file is idempotent at the byte level: the
/// bytes a step writes are uniquely determined by the template and the
/// name, so writing twice with the same context truncates and rewrites
/// the same final contents.
pub proof fn lemma_materialize_idempotent(
    t: TemplateRef,
    name: Seq<char>,
    fetched: Seq<char>,
    c1: Seq<char>,
    c2: Seq<char>,
)
    requires
        spec_step_contents(t, name, fetched) == Ok::<Seq<char>, ()>(c1),
        spec_step_contents(t, name, fetched) == Ok::<Seq<char>, ()>(c2),
    ensures
        c1 == c2,
{
}

} // verus!
