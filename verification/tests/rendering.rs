use frb_plugin_tool::plugin_name::PluginName;
use frb_plugin_tool::render::StepStage;
use frb_plugin_tool::render::render_template;
use frb_plugin_tool::template::TemplateRef;

#[test]
fn rendering_substitutes_the_name() {
    let n = PluginName::new("hello_dart").unwrap();
    let out = render_template(
        &TemplateRef::CargoToml,
        &n,
        "[package]\nname = \"{{ name }}\"\nversion = \"0.1.0\"\n",
    )
    .unwrap();
    assert_eq!(out, "[package]\nname = \"hello_dart\"\nversion = \"0.1.0\"\n");
}

#[test]
fn rendering_is_deterministic() {
    let n = PluginName::new("hello_dart").unwrap();
    let template = "Pod::Spec.new do |s|\n  s.name = '{{ name }}'\nend\n";
    let a = render_template(&TemplateRef::PluginPodspec, &n, template).unwrap();
    let b = render_template(&TemplateRef::PluginPodspec, &n, template).unwrap();
    assert_eq!(a.as_bytes(), b.as_bytes());
}

#[test]
fn bridge_config_renders_without_a_context() {
    let n = PluginName::new("hello_dart").unwrap();
    let template = "rust_input: crate::api\ndart_output: lib/src/rust\n";
    let out = render_template(&TemplateRef::FrbYaml, &n, template).unwrap();
    assert_eq!(out, template);
}

#[test]
fn bridge_config_write_is_idempotent_at_byte_level() {
    let n = PluginName::new("hello_dart").unwrap();
    let template = "rust_input: crate::api\nfull_dep: true\n";
    let first = render_template(&TemplateRef::FrbYaml, &n, template).unwrap();
    let second = render_template(&TemplateRef::FrbYaml, &n, template).unwrap();
    assert_eq!(first.into_bytes(), second.into_bytes());
}

#[test]
fn map_iteration_order_follows_the_template_text() {
    let n = PluginName::new("hello_dart").unwrap();
    // A template-built map is iterated in insertion order, so the output
    // is a function of the template text alone, run after run.
    let template =
        "{% set m = {\"b\": 1, \"a\": 2, \"c\": 3} %}{% for k, v in m %}{{ k }}{{ v }}{% endfor %}";
    let first = render_template(&TemplateRef::PubspecYaml, &n, template).unwrap();
    let second = render_template(&TemplateRef::PubspecYaml, &n, template).unwrap();
    assert_eq!(first, "b1a2c3");
    assert_eq!(first, second);
}

#[test]
fn template_syntax_errors_surface_as_render_failures() {
    let n = PluginName::new("hello_dart").unwrap();
    let err = render_template(&TemplateRef::BuildGradle, &n, "{% if %}").unwrap_err();
    assert!(matches!(err.stage, StepStage::Render));
    assert!(matches!(err.template, TemplateRef::BuildGradle));
}

#[test]
fn names_with_special_characters_substitute_literally() {
    let n = PluginName::new("a_b_9").unwrap();
    let out = render_template(&TemplateRef::PubspecYaml, &n, "name: {{ name }}\n").unwrap();
    assert_eq!(out, "name: a_b_9\n");
}
