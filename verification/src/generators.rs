//! Two generators that come with the library: one that lays out a new
//! generator in a crate, and the example that it lays out, which adds a
//! function with its tests. Each plans what is to be done to which file; the
//! caller does it.
use crate::cmd_args::arg_value;
use crate::cmd_args::sub_matches;
use crate::cmd_args::sub_name;
use crate::cmd_args::subcommand_matches;
use crate::cmd_args::value_of;
use crate::cmd_args::Refused;
use crate::cmd_args::UsageError;
use crate::cmd_args::GEN;
use crate::cmd_args::GENERATOR_NAME;
use crate::cmd_args::HERE;
use crate::text::replace_all;
use crate::text::replaced;
use crate::text::texts;
use clap::App;
use clap::Arg;
use clap::ArgMatches;
use clap::SubCommand;
use vstd::prelude::*;
use vstd::string::*;

verus! {

/// The subcommand of the generator of generators.
pub const GENERATOR_COMMAND: &'static str = "cargo-gen.generator";

/// What the help says of the generator of generators.
pub const GENERATOR_ABOUT: &'static str = "Generate a generator";

/// What the help says of the name of the new generator.
pub const GENERATOR_NAME_HELP: &'static str = "The name of the new generator";

/// The subcommand of the example generator.
pub const APP_COMMAND: &'static str = "gen-test.app";

/// What the help says of the example generator.
pub const APP_ABOUT: &'static str = "Generate an app";

/// The name, and the long form, of the option for the root of the crate.
pub const CRATE_ROOT: &'static str = "crate-root";

/// What the help says of the option for the root of the crate.
pub const CRATE_ROOT_HELP: &'static str = "The root folder of the crate";

/// How the help calls the value of that option.
pub const FOLDER: &'static str = "FOLDER";

/// A text that is kept outside the library and written out as it is.
#[derive(Debug, Clone, Copy, PartialEq, Eq, Structural)]
pub enum Template {
    /// The source of a generator.
    GeneratorSource,
    /// The tests of a generator.
    GeneratorTests,
    /// The manifest that offers the generators of a crate.
    GeneratorsManifest,
}

/// What a new file is to hold.
#[derive(Debug)]
pub enum Content {
    Text(String),
    Template(Template),
}

/// What a `Content` holds.
pub ghost enum ContentModel {
    Text(Seq<char>),
    Template(Template),
}

impl View for Content {
    type V = ContentModel;

    open spec fn view(&self) -> ContentModel {
        match self {
            Content::Text(text) => ContentModel::Text(text@),
            Content::Template(template) => ContentModel::Template(*template),
        }
    }
}

/// A change to the content of a file.
#[derive(Debug)]
pub enum Change {
    /// Bring in clap with its macros and declare the module of the
    /// generators, at the top of the root file of a library.
    ExposeGenerators,
    /// Add what the generators need below the heading of the dependencies of
    /// a package manifest.
    AddDependencies { helpers_version: String },
    /// Add the function `add_2` at the top of the root file of a library and
    /// make the test that stands there test it.
    AddFunction,
}

/// What a `Change` holds.
pub ghost enum ChangeModel {
    ExposeGenerators,
    AddDependencies { helpers_version: Seq<char> },
    AddFunction,
}

impl View for Change {
    type V = ChangeModel;

    open spec fn view(&self) -> ChangeModel {
        match self {
            Change::ExposeGenerators => ChangeModel::ExposeGenerators,
            Change::AddDependencies { helpers_version } => ChangeModel::AddDependencies {
                helpers_version: helpers_version@,
            },
            Change::AddFunction => ChangeModel::AddFunction,
        }
    }
}

/// The lines that go below the heading of the dependencies.
pub open spec fn dependency_lines(helpers_version: Seq<char>) -> Seq<char> {
    "[dependencies]\n"@ + "cargo-gen-helpers = \""@ + helpers_version
        + "\"\nclap = { version = \"2.31\", features = [\"yaml\"] }\n"@
}

impl ChangeModel {
    /// The content of the file after the change.
    pub open spec fn applied(self, contents: Seq<char>) -> Seq<char> {
        match self {
            ChangeModel::ExposeGenerators => {
                "#[macro_use]\nextern crate clap;\n\npub mod cargo_generators;\n"@ + contents
            },
            ChangeModel::AddDependencies { helpers_version } => replaced(
                contents,
                "[dependencies]\n"@,
                dependency_lines(helpers_version),
            ),
            ChangeModel::AddFunction => replaced(
                replaced(
                    "pub fn add_2(n: isize) -> isize {\n    n + 2\n}\n\n"@ + contents,
                    "it_works"@,
                    "it_adds_2"@,
                ),
                "assert!(2 + 2, 4)"@,
                "assert_eq!(4, add_2(2))"@,
            ),
        }
    }
}

impl Change {
    /// Makes the change to the content of a file.
    pub fn apply(&self, contents: &str) -> (changed: String)
        ensures
            changed@ == self@.applied(contents@),
    {
        match self {
            Change::ExposeGenerators => {
                let mut changed = String::from_str(
                    "#[macro_use]\nextern crate clap;\n\npub mod cargo_generators;\n",
                );
                changed.append(contents);
                changed
            },
            Change::AddDependencies { helpers_version } => {
                let mut lines = String::from_str("[dependencies]\n");
                lines.append("cargo-gen-helpers = \"");
                lines.append(helpers_version.as_str());
                lines.append("\"\nclap = { version = \"2.31\", features = [\"yaml\"] }\n");
                proof {
                    reveal_strlit("[dependencies]\n");
                }
                replace_all(contents, "[dependencies]\n", lines.as_str())
            },
            Change::AddFunction => {
                let mut with_function = String::from_str(
                    "pub fn add_2(n: isize) -> isize {\n    n + 2\n}\n\n",
                );
                with_function.append(contents);
                proof {
                    reveal_strlit("it_works");
                    reveal_strlit("assert!(2 + 2, 4)");
                }
                let renamed = replace_all(with_function.as_str(), "it_works", "it_adds_2");
                replace_all(renamed.as_str(), "assert!(2 + 2, 4)", "assert_eq!(4, add_2(2))")
            },
        }
    }
}

/// One thing to do to one file. The path is relative to the root of the
/// crate that the generator works on.
#[derive(Debug)]
pub enum FileOp {
    /// Create the file with the content.
    Create { path: String, content: Content },
    /// Read the file, make the change, and write the file back.
    Modify { path: String, change: Change },
}

/// What a `FileOp` holds.
pub ghost enum FileStep {
    Create { path: Seq<char>, content: ContentModel },
    Modify { path: Seq<char>, change: ChangeModel },
}

impl View for FileOp {
    type V = FileStep;

    open spec fn view(&self) -> FileStep {
        match self {
            FileOp::Create { path, content } => FileStep::Create {
                path: path@,
                content: content@,
            },
            FileOp::Modify { path, change } => FileStep::Modify { path: path@, change: change@ },
        }
    }
}

/// What the steps hold, in order.
pub open spec fn steps(ops: Seq<FileOp>) -> Seq<FileStep> {
    Seq::new(ops.len(), |i: int| ops[i]@)
}

/// The creation of a file with a given text.
pub open spec fn create_text(path: Seq<char>, text: Seq<char>) -> FileStep {
    FileStep::Create { path, content: ContentModel::Text(text) }
}

/// The creation of a file from a template.
pub open spec fn create_from(path: Seq<char>, template: Template) -> FileStep {
    FileStep::Create { path, content: ContentModel::Template(template) }
}

fn text_file(path: &str, text: &str) -> (op: FileOp)
    ensures
        op@ == create_text(path@, text@),
{
    FileOp::Create { path: path.to_string(), content: Content::Text(text.to_string()) }
}

fn template_file(path: String, template: Template) -> (op: FileOp)
    ensures
        op@ == create_from(path@, template),
{
    FileOp::Create { path, content: Content::Template(template) }
}

/// What clap makes of a command line for the generator of generators: the
/// matches, or `None` where it refuses the command line or shows the help
/// instead.
pub uninterp spec fn generator_command_matches(args: Seq<Seq<char>>) -> Option<
    ArgMatches<'static>,
>;

/// What clap makes of a command line for the example generator.
pub uninterp spec fn app_command_matches(args: Seq<Seq<char>>) -> Option<ArgMatches<'static>>;

/// Describes the command line of the generator of generators to clap, a
/// required name and an option for the root that is the current directory by
/// default, and has `App::get_matches_from_safe` read `args`. The arguments
/// alone decide whether clap accepts them and what it matches; nothing is
/// said of the text of its refusal.
#[verifier::external_body]
fn match_generator_command(args: &Vec<String>) -> (read: Result<ArgMatches<'static>, UsageError>)
    ensures
        match read {
            Ok(matches) => generator_command_matches(texts(args@)) == Some(matches),
            Err(_) => generator_command_matches(texts(args@)) is None,
        },
{
    let name = Arg::with_name(GENERATOR_NAME).help(GENERATOR_NAME_HELP).required(true).index(1);
    let root = Arg::with_name(CRATE_ROOT).help(CRATE_ROOT_HELP).long(CRATE_ROOT).value_name(FOLDER);
    let command = SubCommand::with_name(GENERATOR_COMMAND).about(GENERATOR_ABOUT);
    let command = command.arg(name).arg(root.default_value(HERE));
    let app = App::new("").subcommand(SubCommand::with_name(GEN).subcommand(command));
    app.get_matches_from_safe(args).map_err(
        |refusal| UsageError { use_stderr: refusal.use_stderr(), message: refusal.message },
    )
}

/// Describes the command line of the example generator to clap, an option
/// for the root that is the current directory by default, and has
/// `App::get_matches_from_safe` read `args`. The arguments alone decide
/// whether clap accepts them and what it matches; nothing is said of the
/// text of its refusal.
#[verifier::external_body]
fn match_app_command(args: &Vec<String>) -> (read: Result<ArgMatches<'static>, UsageError>)
    ensures
        match read {
            Ok(matches) => app_command_matches(texts(args@)) == Some(matches),
            Err(_) => app_command_matches(texts(args@)) is None,
        },
{
    let root = Arg::with_name(CRATE_ROOT).help(CRATE_ROOT_HELP).long(CRATE_ROOT).value_name(FOLDER);
    let command = SubCommand::with_name(APP_COMMAND).about(APP_ABOUT);
    let command = command.arg(root.default_value(HERE));
    let app = App::new("").subcommand(SubCommand::with_name(GEN).subcommand(command));
    app.get_matches_from_safe(args).map_err(
        |refusal| UsageError { use_stderr: refusal.use_stderr(), message: refusal.message },
    )
}

/// The matches of the subcommand `command` of `gen`, or the first of the
/// two that the command line does not name.
pub open spec fn command_matches(matches: ArgMatches<'static>, command: Seq<char>) -> Result<
    ArgMatches<'static>,
    Refused,
> {
    if sub_name(matches) != Some(GEN@) {
        Err(Refused::Subcommand(GEN@))
    } else if sub_name(sub_matches(matches)) != Some(command) {
        Err(Refused::Subcommand(command))
    } else {
        Ok(sub_matches(sub_matches(matches)))
    }
}

fn find_command<'m>(matches: &'m ArgMatches<'static>, command: &str) -> (found: Result<
    &'m ArgMatches<'static>,
    UsageError,
>)
    ensures
        match found {
            Ok(inner) => command_matches(*matches, command@) == Ok::<ArgMatches<'static>, Refused>(
                *inner,
            ),
            Err(error) => command_matches(*matches, command@) is Err && command_matches(
                *matches,
                command@,
            )->Err_0.reported_by(error),
        },
{
    match subcommand_matches(matches, GEN) {
        Some(gen) => match subcommand_matches(gen, command) {
            Some(inner) => Ok(inner),
            None => Err(UsageError::no_subcommand(command)),
        },
        None => Err(UsageError::no_subcommand(GEN)),
    }
}

/// The generator that lays out a new generator in a crate.
#[derive(Debug)]
pub struct CargoGeneratorGenerator {
    /// The root directory of the crate.
    pub root: String,
    /// The name of the new generator.
    pub short_name: String,
}

/// What a `CargoGeneratorGenerator` holds.
pub ghost struct GeneratorRequest {
    pub root: Seq<char>,
    pub short_name: Seq<char>,
}

impl View for CargoGeneratorGenerator {
    type V = GeneratorRequest;

    open spec fn view(&self) -> GeneratorRequest {
        GeneratorRequest { root: self.root@, short_name: self.short_name@ }
    }
}

/// What a command line asks of the generator of generators, or why it asks
/// nothing of it: because clap refuses it, because it does not name the
/// subcommand, or because a value is not there.
pub open spec fn generator_request(args: Seq<Seq<char>>) -> Result<GeneratorRequest, Refused> {
    match generator_command_matches(args) {
        Some(matches) => match command_matches(matches, GENERATOR_COMMAND@) {
            Ok(inner) => match (arg_value(inner, GENERATOR_NAME@), arg_value(inner, CRATE_ROOT@)) {
                (Some(short_name), Some(root)) => Ok(GeneratorRequest { root, short_name }),
                (None, _) => Err(Refused::Value(GENERATOR_NAME@)),
                (_, None) => Err(Refused::Value(CRATE_ROOT@)),
            },
            Err(refused) => Err(refused),
        },
        None => Err(Refused::ByClap),
    }
}

/// What the generator of generators does for a generator called
/// `short_name`: the module of the generators with the new generator, the
/// root file that shows the module, the tests with their modules, the
/// manifest that offers the generator, and the dependencies.
pub open spec fn generator_plan(short_name: Seq<char>, helpers_version: Seq<char>) -> Seq<
    FileStep,
> {
    seq![
        create_text("src/cargo_generators/mod.rs"@, "pub mod app;"@),
        create_from("src/cargo_generators/"@ + short_name + ".rs"@, Template::GeneratorSource),
        FileStep::Modify { path: "src/lib.rs"@, change: ChangeModel::ExposeGenerators },
        create_text("tests/cargo_gen.rs"@, "mod cargo_generators;"@),
        create_text("tests/cargo_generators/mod.rs"@, "mod app;"@),
        create_from("tests/cargo_generators/"@ + short_name + ".rs"@, Template::GeneratorTests),
        create_from("cargo_generators.yaml"@, Template::GeneratorsManifest),
        FileStep::Modify {
            path: "Cargo.toml"@,
            change: ChangeModel::AddDependencies { helpers_version },
        },
    ]
}

impl CargoGeneratorGenerator {
    /// A generator of the generator `short_name` for the crate at `root`.
    pub fn new(root: String, short_name: String) -> (generator: CargoGeneratorGenerator)
        ensures
            generator@ == (GeneratorRequest { root: root@, short_name: short_name@ }),
    {
        CargoGeneratorGenerator { root, short_name }
    }

    /// Reads a command line, the first argument of which is the name of the
    /// program.
    pub fn from(clargs: Vec<String>) -> (parsed: Result<CargoGeneratorGenerator, UsageError>)
        ensures
            match parsed {
                Ok(generator) => generator_request(texts(clargs@)) == Ok::<
                    GeneratorRequest,
                    Refused,
                >(generator@),
                Err(error) => generator_request(texts(clargs@)) is Err && generator_request(
                    texts(clargs@),
                )->Err_0.reported_by(error),
            },
    {
        let matches = match match_generator_command(&clargs) {
            Ok(matches) => matches,
            Err(refusal) => {
                return Err(refusal);
            },
        };
        let inner = match find_command(&matches, GENERATOR_COMMAND) {
            Ok(inner) => inner,
            Err(refusal) => {
                return Err(refusal);
            },
        };
        match (value_of(inner, GENERATOR_NAME), value_of(inner, CRATE_ROOT)) {
            (Some(short_name), Some(root)) => Ok(CargoGeneratorGenerator { root, short_name }),
            (None, _) => Err(UsageError::no_value(GENERATOR_NAME)),
            (_, None) => Err(UsageError::no_value(CRATE_ROOT)),
        }
    }

    /// Plans the new generator. `helpers_version` is the version of the
    /// helpers that the crate is to depend on.
    pub fn gen(&self, helpers_version: &str) -> (ops: Vec<FileOp>)
        ensures
            steps(ops@) == generator_plan(self@.short_name, helpers_version@),
    {
        let mut source = String::from_str("src/cargo_generators/");
        source.append(self.short_name.as_str());
        source.append(".rs");
        let mut tests = String::from_str("tests/cargo_generators/");
        tests.append(self.short_name.as_str());
        tests.append(".rs");

        let mut ops: Vec<FileOp> = Vec::new();
        ops.push(text_file("src/cargo_generators/mod.rs", "pub mod app;"));
        ops.push(template_file(source, Template::GeneratorSource));
        ops.push(
            FileOp::Modify { path: "src/lib.rs".to_string(), change: Change::ExposeGenerators },
        );
        ops.push(text_file("tests/cargo_gen.rs", "mod cargo_generators;"));
        ops.push(text_file("tests/cargo_generators/mod.rs", "mod app;"));
        ops.push(template_file(tests, Template::GeneratorTests));
        ops.push(template_file("cargo_generators.yaml".to_string(), Template::GeneratorsManifest));
        ops.push(
            FileOp::Modify {
                path: "Cargo.toml".to_string(),
                change: Change::AddDependencies { helpers_version: helpers_version.to_string() },
            },
        );
        assert(steps(ops@) =~= generator_plan(self@.short_name, helpers_version@));
        ops
    }
}

/// The example generator: it adds the function `add_2` to a crate, with a
/// unit test and an integration test.
#[derive(Debug)]
pub struct AppGenerator {
    /// The root directory of the crate.
    pub root: String,
}

/// What a command line asks of the example generator: the root of the crate,
/// or why it asks nothing of it.
pub open spec fn app_request(args: Seq<Seq<char>>) -> Result<Seq<char>, Refused> {
    match app_command_matches(args) {
        Some(matches) => match command_matches(matches, APP_COMMAND@) {
            Ok(inner) => match arg_value(inner, CRATE_ROOT@) {
                Some(root) => Ok(root),
                None => Err(Refused::Value(CRATE_ROOT@)),
            },
            Err(refused) => Err(refused),
        },
        None => Err(Refused::ByClap),
    }
}

/// The integration test that the example generator writes.
pub open spec fn integration_test() -> Seq<char> {
    "extern crate gen_test;\n\n#[test]\nfn it_adds_2() {\n    assert_eq!(4, gen_test::add_2(2));\n}"@
}

/// What the example generator does: the function goes into the root file of
/// the library, and an integration test is created.
pub open spec fn app_plan() -> Seq<FileStep> {
    seq![
        FileStep::Modify { path: "src/lib.rs"@, change: ChangeModel::AddFunction },
        create_text("tests/adds_2.rs"@, integration_test()),
    ]
}

impl AppGenerator {
    /// The example generator for the crate in the current directory.
    pub fn new() -> (generator: AppGenerator)
        ensures
            generator.root@ == HERE@,
    {
        AppGenerator { root: HERE.to_string() }
    }

    /// Reads a command line, the first argument of which is the name of the
    /// program.
    pub fn from(clargs: Vec<String>) -> (parsed: Result<AppGenerator, UsageError>)
        ensures
            match parsed {
                Ok(generator) => app_request(texts(clargs@)) == Ok::<Seq<char>, Refused>(
                    generator.root@,
                ),
                Err(error) => app_request(texts(clargs@)) is Err && app_request(
                    texts(clargs@),
                )->Err_0.reported_by(error),
            },
    {
        let matches = match match_app_command(&clargs) {
            Ok(matches) => matches,
            Err(refusal) => {
                return Err(refusal);
            },
        };
        let inner = match find_command(&matches, APP_COMMAND) {
            Ok(inner) => inner,
            Err(refusal) => {
                return Err(refusal);
            },
        };
        match value_of(inner, CRATE_ROOT) {
            Some(root) => Ok(AppGenerator { root }),
            None => Err(UsageError::no_value(CRATE_ROOT)),
        }
    }

    /// Plans the example.
    pub fn gen(&self) -> (ops: Vec<FileOp>)
        ensures
            steps(ops@) == app_plan(),
    {
        let mut ops: Vec<FileOp> = Vec::new();
        ops.push(FileOp::Modify { path: "src/lib.rs".to_string(), change: Change::AddFunction });
        ops.push(
            text_file(
                "tests/adds_2.rs",
                "extern crate gen_test;\n\n#[test]\nfn it_adds_2() {\n    assert_eq!(4, gen_test::add_2(2));\n}",
            ),
        );
        assert(steps(ops@) =~= app_plan());
        ops
    }
}

} // verus!
