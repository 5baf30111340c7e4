//! Configuration of a run.

use vstd::prelude::*;
use vstd::string::*;

verus! {

/// Where the Rust source files are found.
#[derive(Debug, Clone)]
pub struct InputConfig {
    /// The directory to scan for Rust files.
    pub source_dir: String,
    /// Directories or files to leave out of the scan.
    pub exclude: Vec<String>,
    /// Whether macro-expanded source is read instead of the files as written.
    pub use_cargo_expand: bool,
    /// The manifest to expand, where it is not the one beside the source
    /// directory.
    pub cargo_manifest: Option<String>,
}

/// Where the generated TypeScript files are written.
#[derive(Debug, Clone)]
pub struct OutputConfig {
    /// The file for the generated types.
    pub types_file: String,
    /// The file for the generated command wrappers.
    pub commands_file: String,
}

/// Prefixes and suffixes for generated names.
#[derive(Debug, Clone)]
pub struct NamingConfig {
    /// Put before each TypeScript type name.
    pub type_prefix: String,
    /// Put after each TypeScript type name.
    pub type_suffix: String,
    /// Put before each TypeScript function name.
    pub function_prefix: String,
    /// Put after each TypeScript function name.
    pub function_suffix: String,
}

/// The model of a naming configuration.
pub struct Naming {
    pub type_prefix: Seq<char>,
    pub type_suffix: Seq<char>,
    pub function_prefix: Seq<char>,
    pub function_suffix: Seq<char>,
}

/// The whole configuration.
#[derive(Debug, Clone)]
pub struct Config {
    pub input: InputConfig,
    pub output: OutputConfig,
    pub naming: NamingConfig,
}

impl View for NamingConfig {
    type V = Naming;

    open spec fn view(&self) -> Naming {
        Naming {
            type_prefix: self.type_prefix@,
            type_suffix: self.type_suffix@,
            function_prefix: self.function_prefix@,
            function_suffix: self.function_suffix@,
        }
    }
}

/// The naming configuration that decorates nothing.
pub open spec fn plain_naming() -> Naming {
    Naming {
        type_prefix: Seq::empty(),
        type_suffix: Seq::empty(),
        function_prefix: Seq::empty(),
        function_suffix: Seq::empty(),
    }
}

impl Default for NamingConfig {
    fn default() -> (r: Self)
        ensures
            r@ == plain_naming(),
    {
        NamingConfig {
            type_prefix: String::new(),
            type_suffix: String::new(),
            function_prefix: String::new(),
            function_suffix: String::new(),
        }
    }
}

impl Config {
    /// The configuration that a new project starts from.
    pub fn default_config() -> (r: Self)
        ensures
            r.input.source_dir@ == "src-tauri/src"@,
            r.input.exclude@.len() == 2,
            r.input.exclude@[0]@ == "tests"@,
            r.input.exclude@[1]@ == "target"@,
            !r.input.use_cargo_expand,
            r.input.cargo_manifest is None,
            r.output.types_file@ == "src/generated/types.ts"@,
            r.output.commands_file@ == "src/generated/commands.ts"@,
            r.naming@ == plain_naming(),
    {
        let mut exclude: Vec<String> = Vec::new();
        exclude.push(String::from_str("tests"));
        exclude.push(String::from_str("target"));
        Config {
            input: InputConfig {
                source_dir: String::from_str("src-tauri/src"),
                exclude,
                use_cargo_expand: false,
                cargo_manifest: None,
            },
            output: OutputConfig {
                types_file: String::from_str("src/generated/types.ts"),
                commands_file: String::from_str("src/generated/commands.ts"),
            },
            naming: NamingConfig::default(),
        }
    }
}

} // verus!
