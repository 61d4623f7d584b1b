//! Templates and the layout of the generated tree: each scaffolding step
//! names one remote template, and materializes its rendered text at a
//! fixed path inside the project root. Target paths of distinct steps are
//! distinct, so the concurrent step group never touches a shared file.

use crate::plugin_name::PluginName;
use vstd::prelude::*;
use vstd::string::StringExecFns;

verus! {

/// A logical template name, mapping one-to-one to a file of the remote
/// template store.
#[derive(Clone, Copy, PartialEq, Eq, Structural, Debug)]
pub enum TemplateRef {
    CargoToml,
    PluginPodspec,
    CmakeTxt,
    BuildGradle,
    PubspecYaml,
    FrbYaml,
}

/// One scaffolding step of the concurrent group. `RustLib` also runs the
/// native package tool before it writes the sub-project manifest.
#[derive(Clone, Copy, PartialEq, Eq, Structural, Debug)]
pub enum StepId {
    RustLib,
    FrbYaml,
    MacosPod,
    IosPod,
    WindowsCmake,
    LinuxCmake,
    AndroidGradle,
    Pubspec,
}

impl TemplateRef {
    /// The file name of the template in the remote store.
    pub open spec fn spec_file_name(self) -> Seq<char> {
        match self {
            TemplateRef::CargoToml => "Cargo.toml"@,
            TemplateRef::PluginPodspec => "plugin.podspec"@,
            TemplateRef::CmakeTxt => "cmake.txt"@,
            TemplateRef::BuildGradle => "build.gradle"@,
            TemplateRef::PubspecYaml => "pubspec.yaml"@,
            TemplateRef::FrbYaml => "flutter_rust_bridge.yaml"@,
        }
    }

    /// Whether this template expects the `name` variable; only the bridge
    /// configuration is rendered with an empty context.
    pub open spec fn spec_uses_name(self) -> bool {
        !(self is FrbYaml)
    }

    pub fn file_name(&self) -> (r: &'static str)
        ensures
            r@ == self.spec_file_name(),
    {
        match self {
            TemplateRef::CargoToml => "Cargo.toml",
            TemplateRef::PluginPodspec => "plugin.podspec",
            TemplateRef::CmakeTxt => "cmake.txt",
            TemplateRef::BuildGradle => "build.gradle",
            TemplateRef::PubspecYaml => "pubspec.yaml",
            TemplateRef::FrbYaml => "flutter_rust_bridge.yaml",
        }
    }

    pub fn uses_name(&self) -> (r: bool)
        ensures
            r == self.spec_uses_name(),
    {
        !matches!(self, TemplateRef::FrbYaml)
    }
}

/// The fixed remote origin, parameterized only by the template file name.
pub open spec fn spec_template_url(t: TemplateRef) -> Seq<char> {
    "https://raw.githubusercontent.com/mdddj/frb_plugin_tool/main/temp/"@ + t.spec_file_name()
}

/// Builds the retrieval URL for a template.
pub fn template_url(t: &TemplateRef) -> (r: String)
    ensures
        r@ == spec_template_url(*t),
{
    let base = String::from_str("https://raw.githubusercontent.com/mdddj/frb_plugin_tool/main/temp/");
    base.concat(t.file_name())
}

impl StepId {
    /// The template this step renders.
    pub open spec fn spec_template(self) -> TemplateRef {
        match self {
            StepId::RustLib => TemplateRef::CargoToml,
            StepId::FrbYaml => TemplateRef::FrbYaml,
            StepId::MacosPod => TemplateRef::PluginPodspec,
            StepId::IosPod => TemplateRef::PluginPodspec,
            StepId::WindowsCmake => TemplateRef::CmakeTxt,
            StepId::LinuxCmake => TemplateRef::CmakeTxt,
            StepId::AndroidGradle => TemplateRef::BuildGradle,
            StepId::Pubspec => TemplateRef::PubspecYaml,
        }
    }

    pub fn template(&self) -> (r: TemplateRef)
        ensures
            r == self.spec_template(),
    {
        match self {
            StepId::RustLib => TemplateRef::CargoToml,
            StepId::FrbYaml => TemplateRef::FrbYaml,
            StepId::MacosPod => TemplateRef::PluginPodspec,
            StepId::IosPod => TemplateRef::PluginPodspec,
            StepId::WindowsCmake => TemplateRef::CmakeTxt,
            StepId::LinuxCmake => TemplateRef::CmakeTxt,
            StepId::AndroidGradle => TemplateRef::BuildGradle,
            StepId::Pubspec => TemplateRef::PubspecYaml,
        }
    }

    /// The target path of the step's file, as segments under the project
    /// root.
    pub open spec fn spec_target_path(self, name: Seq<char>) -> Seq<Seq<char>> {
        match self {
            StepId::RustLib => seq!["rust"@, "Cargo.toml"@],
            StepId::FrbYaml => seq!["flutter_rust_bridge.yaml"@],
            StepId::MacosPod => seq!["macos"@, name + ".podspec"@],
            StepId::IosPod => seq!["ios"@, name + ".podspec"@],
            StepId::WindowsCmake => seq!["windows"@, "CMakeLists.txt"@],
            StepId::LinuxCmake => seq!["linux"@, "CMakeLists.txt"@],
            StepId::AndroidGradle => seq!["android"@, "build.gradle"@],
            StepId::Pubspec => seq!["pubspec.yaml"@],
        }
    }

    /// Builds the target path of the step's file.
    pub fn target_path(&self, name: &PluginName) -> (r: Vec<String>)
        ensures
            r.deep_view() == self.spec_target_path(name@),
    {
        let mut r: Vec<String> = Vec::new();
        match self {
            StepId::RustLib => {
                r.push(String::from_str("rust"));
                r.push(String::from_str("Cargo.toml"));
            },
            StepId::FrbYaml => {
                r.push(String::from_str("flutter_rust_bridge.yaml"));
            },
            StepId::MacosPod => {
                r.push(String::from_str("macos"));
                r.push(String::from_str(name.as_str()).concat(".podspec"));
            },
            StepId::IosPod => {
                r.push(String::from_str("ios"));
                r.push(String::from_str(name.as_str()).concat(".podspec"));
            },
            StepId::WindowsCmake => {
                r.push(String::from_str("windows"));
                r.push(String::from_str("CMakeLists.txt"));
            },
            StepId::LinuxCmake => {
                r.push(String::from_str("linux"));
                r.push(String::from_str("CMakeLists.txt"));
            },
            StepId::AndroidGradle => {
                r.push(String::from_str("android"));
                r.push(String::from_str("build.gradle"));
            },
            StepId::Pubspec => {
                r.push(String::from_str("pubspec.yaml"));
            },
        }
        proof {
            assert(r.deep_view() =~= self.spec_target_path(name@));
        }
        r
    }

    /// The leading path segment, which already tells the steps apart.
    pub open spec fn spec_first_segment(self) -> Seq<char> {
        match self {
            StepId::RustLib => "rust"@,
            StepId::FrbYaml => "flutter_rust_bridge.yaml"@,
            StepId::MacosPod => "macos"@,
            StepId::IosPod => "ios"@,
            StepId::WindowsCmake => "windows"@,
            StepId::LinuxCmake => "linux"@,
            StepId::AndroidGradle => "android"@,
            StepId::Pubspec => "pubspec.yaml"@,
        }
    }
}

/// One of the files of the sample native module, written after the native
/// sub-project exists: a module-index file and one example source file
/// inside a fresh `api` directory, and the sub-project's entry point,
/// rewritten to declare that module.
#[derive(Clone, Copy, PartialEq, Eq, Structural, Debug)]
pub enum SampleFile {
    ModIndex,
    Example,
    EntryPoint,
}

/// The directory created for the sample module, as segments under the
/// project root; it is nested inside the tree the native package tool
/// creates, so it can only exist after that tool has succeeded.
pub open spec fn spec_api_dir() -> Seq<Seq<char>> {
    seq!["rust"@, "src"@, "api"@]
}

/// Builds the sample-module directory path.
pub fn api_dir() -> (r: Vec<String>)
    ensures
        r.deep_view() == spec_api_dir(),
{
    let mut r: Vec<String> = Vec::new();
    r.push(String::from_str("rust"));
    r.push(String::from_str("src"));
    r.push(String::from_str("api"));
    proof {
        assert(r.deep_view() =~= spec_api_dir());
    }
    r
}

impl SampleFile {
    /// The target path of the sample file, as segments under the project
    /// root.
    pub open spec fn spec_path(self) -> Seq<Seq<char>> {
        match self {
            SampleFile::ModIndex => seq!["rust"@, "src"@, "api"@, "mod.rs"@],
            SampleFile::Example => seq!["rust"@, "src"@, "api"@, "hello.rs"@],
            SampleFile::EntryPoint => seq!["rust"@, "src"@, "lib.rs"@],
        }
    }

    /// The fixed contents of the sample file. The entry point holds
    /// exactly one module declaration, referencing the sample module.
    pub open spec fn spec_contents(self) -> Seq<char> {
        match self {
            SampleFile::ModIndex => "pub mod hello;"@,
            SampleFile::Example => "\n    pub fn hello(hello: &str) {\n        println!(\"hello world!\");\n    }\n    "@,
            SampleFile::EntryPoint => "pub mod api;"@,
        }
    }

    /// Builds the sample file's target path.
    pub fn path(&self) -> (r: Vec<String>)
        ensures
            r.deep_view() == self.spec_path(),
    {
        let mut r: Vec<String> = Vec::new();
        r.push(String::from_str("rust"));
        r.push(String::from_str("src"));
        match self {
            SampleFile::ModIndex => {
                r.push(String::from_str("api"));
                r.push(String::from_str("mod.rs"));
            },
            SampleFile::Example => {
                r.push(String::from_str("api"));
                r.push(String::from_str("hello.rs"));
            },
            SampleFile::EntryPoint => {
                r.push(String::from_str("lib.rs"));
            },
        }
        proof {
            assert(r.deep_view() =~= self.spec_path());
        }
        r
    }

    /// Builds the sample file's contents.
    pub fn contents(&self) -> (r: String)
        ensures
            r@ == self.spec_contents(),
    {
        match self {
            SampleFile::ModIndex => String::from_str("pub mod hello;"),
            SampleFile::Example => String::from_str(
                "\n    pub fn hello(hello: &str) {\n        println!(\"hello world!\");\n    }\n    ",
            ),
            SampleFile::EntryPoint => String::from_str("pub mod api;"),
        }
    }
}

proof fn lemma_first_segments_distinct(a: StepId, b: StepId)
    requires
        a != b,
    ensures
        a.spec_first_segment() != b.spec_first_segment(),
{
    reveal_strlit("rust");
    reveal_strlit("flutter_rust_bridge.yaml");
    reveal_strlit("macos");
    reveal_strlit("ios");
    reveal_strlit("windows");
    reveal_strlit("linux");
    reveal_strlit("android");
    reveal_strlit("pubspec.yaml");
    assert("rust"@.len() == 4);
    assert("flutter_rust_bridge.yaml"@.len() == 24);
    assert("macos"@.len() == 5);
    assert("ios"@.len() == 3);
    assert("windows"@.len() == 7);
    assert("linux"@.len() == 5);
    assert("android"@.len() == 7);
    assert("pubspec.yaml"@.len() == 12);
    assert("macos"@[0] != "linux"@[0]);
    assert("windows"@[0] != "android"@[0]);
}

/// Law: distinct steps of the concurrent group write to distinct target
/// paths, whatever the plugin name, so no step ever observes another
/// step's file.
pub proof fn lemma_target_paths_distinct(a: StepId, b: StepId, name: Seq<char>)
    requires
        a != b,
    ensures
        a.spec_target_path(name) != b.spec_target_path(name),
{
    lemma_first_segments_distinct(a, b);
    assert(a.spec_target_path(name)[0] == a.spec_first_segment());
    assert(b.spec_target_path(name)[0] == b.spec_first_segment());
}

} // verus!
