use frb_plugin_tool::command::WorkDir;
use frb_plugin_tool::command::bootstrap_command;
use frb_plugin_tool::command::git_command;
use frb_plugin_tool::command::native_command;
use frb_plugin_tool::plugin_name::PluginName;
use frb_plugin_tool::template::SampleFile;
use frb_plugin_tool::template::StepId;
use frb_plugin_tool::template::TemplateRef;
use frb_plugin_tool::template::api_dir;
use frb_plugin_tool::template::template_url;

fn segments(v: &[String]) -> Vec<&str> {
    v.iter().map(|s| s.as_str()).collect()
}

#[test]
fn urls_point_at_the_fixed_origin() {
    let base = "https://raw.githubusercontent.com/mdddj/frb_plugin_tool/main/temp/";
    assert_eq!(
        template_url(&TemplateRef::CargoToml),
        format!("{base}Cargo.toml")
    );
    assert_eq!(
        template_url(&TemplateRef::PluginPodspec),
        format!("{base}plugin.podspec")
    );
    assert_eq!(
        template_url(&TemplateRef::CmakeTxt),
        format!("{base}cmake.txt")
    );
    assert_eq!(
        template_url(&TemplateRef::BuildGradle),
        format!("{base}build.gradle")
    );
    assert_eq!(
        template_url(&TemplateRef::PubspecYaml),
        format!("{base}pubspec.yaml")
    );
    assert_eq!(
        template_url(&TemplateRef::FrbYaml),
        format!("{base}flutter_rust_bridge.yaml")
    );
}

#[test]
fn target_paths_follow_the_generated_layout() {
    let n = PluginName::new("hello_dart").unwrap();
    assert_eq!(
        segments(&StepId::RustLib.target_path(&n)),
        ["rust", "Cargo.toml"]
    );
    assert_eq!(
        segments(&StepId::FrbYaml.target_path(&n)),
        ["flutter_rust_bridge.yaml"]
    );
    assert_eq!(
        segments(&StepId::MacosPod.target_path(&n)),
        ["macos", "hello_dart.podspec"]
    );
    assert_eq!(
        segments(&StepId::IosPod.target_path(&n)),
        ["ios", "hello_dart.podspec"]
    );
    assert_eq!(
        segments(&StepId::WindowsCmake.target_path(&n)),
        ["windows", "CMakeLists.txt"]
    );
    assert_eq!(
        segments(&StepId::LinuxCmake.target_path(&n)),
        ["linux", "CMakeLists.txt"]
    );
    assert_eq!(
        segments(&StepId::AndroidGradle.target_path(&n)),
        ["android", "build.gradle"]
    );
    assert_eq!(
        segments(&StepId::Pubspec.target_path(&n)),
        ["pubspec.yaml"]
    );
}

#[test]
fn target_paths_never_collide() {
    let n = PluginName::new("hello_dart").unwrap();
    let steps = [
        StepId::RustLib,
        StepId::FrbYaml,
        StepId::MacosPod,
        StepId::IosPod,
        StepId::WindowsCmake,
        StepId::LinuxCmake,
        StepId::AndroidGradle,
        StepId::Pubspec,
    ];
    let paths: Vec<Vec<String>> = steps.iter().map(|s| s.target_path(&n)).collect();
    for i in 0..paths.len() {
        for j in 0..paths.len() {
            if i != j {
                assert_ne!(paths[i], paths[j]);
            }
        }
    }
}

#[test]
fn sample_module_layout() {
    assert_eq!(segments(&api_dir()), ["rust", "src", "api"]);
    assert_eq!(
        segments(&SampleFile::ModIndex.path()),
        ["rust", "src", "api", "mod.rs"]
    );
    assert_eq!(
        segments(&SampleFile::Example.path()),
        ["rust", "src", "api", "hello.rs"]
    );
    assert_eq!(
        segments(&SampleFile::EntryPoint.path()),
        ["rust", "src", "lib.rs"]
    );
    assert_eq!(SampleFile::ModIndex.contents(), "pub mod hello;");
    assert_eq!(SampleFile::EntryPoint.contents(), "pub mod api;");
    assert!(SampleFile::Example.contents().contains("pub fn hello"));
}

#[test]
fn entry_point_declares_exactly_one_module() {
    let text = SampleFile::EntryPoint.contents();
    assert_eq!(text.matches("mod ").count(), 1);
    assert!(text.contains("api"));
}

#[test]
fn bootstrap_command_arguments() {
    let n = PluginName::new("hello_dart").unwrap();
    let c = bootstrap_command(&n);
    assert_eq!(c.program, "flutter");
    assert_eq!(
        segments(&c.args),
        [
            "create",
            "--template=plugin_ffi",
            "hello_dart",
            "--platforms",
            "android,ios,macos,windows,linux"
        ]
    );
    assert!(matches!(c.dir, WorkDir::Cwd));
}

#[test]
fn git_command_arguments() {
    let c0 = git_command(0);
    assert_eq!(c0.program, "git");
    assert_eq!(segments(&c0.args), ["init"]);
    assert!(matches!(c0.dir, WorkDir::ProjectRoot));
    assert_eq!(segments(&git_command(1).args), ["add", "--all"]);
    assert_eq!(
        segments(&git_command(2).args),
        ["commit", "-m", "initial commit"]
    );
    assert_eq!(
        segments(&git_command(3).args),
        [
            "subtree",
            "add",
            "--prefix",
            "cargokit",
            "https://github.com/irondash/cargokit.git",
            "main",
            "--squash"
        ]
    );
}

#[test]
fn native_command_arguments() {
    let n = PluginName::new("hello_dart").unwrap();
    let c = native_command(&n);
    assert_eq!(c.program, "cargo");
    assert_eq!(
        segments(&c.args),
        ["new", "rust", "--lib", "--name", "hello_dart"]
    );
    assert!(matches!(c.dir, WorkDir::ProjectRoot));
}
