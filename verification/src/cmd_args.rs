//! The command line of the front end: `gen`, a flag to list the generators,
//! the directory of the crate to work on, then the generator and what is
//! meant for it.
use crate::text::texts;
use clap::App;
use clap::AppSettings;
use clap::Arg;
use clap::ArgMatches;
use clap::SubCommand;
use vstd::prelude::*;
use vstd::string::*;

verus! {

/// The subcommand under which everything stands.
pub const GEN: &'static str = "gen";

/// The name, and the long form, of the flag that asks for the list.
pub const LIST: &'static str = "list";

/// The short form of the flag that asks for the list.
pub const LIST_SHORT: &'static str = "l";

/// What the help says of the flag that asks for the list.
pub const LIST_HELP: &'static str = "List the available generators";

/// The name, and the long form, of the option for the crate's directory.
pub const CRATE_DIR: &'static str = "crate-dir";

/// The short form of the option for the crate's directory.
pub const CRATE_DIR_SHORT: &'static str = "d";

/// What the help says of the option for the crate's directory.
pub const CRATE_DIR_HELP: &'static str =
    "The root directory of the crate to run the generator on";

/// The argument that the list flag excludes.
pub const GENERATOR_NAME: &'static str = "GENERATOR_NAME";

/// The name under which clap keeps the arguments of a subcommand that it was
/// not told of.
pub const EXTERNAL_ARGS: &'static str = "";

/// The directory that stands for the current one.
pub const HERE: &'static str = ".";

/// Why a command line could not be used.
#[derive(Debug)]
pub struct UsageError {
    /// What to tell the user.
    pub message: String,
    /// Whether the message is a complaint, for the standard error, or text
    /// that was asked for, such as the help.
    pub use_stderr: bool,
}

/// Why a command line makes no request.
pub ghost enum Refused {
    /// clap has refused the command line, or has shown the help instead.
    ByClap,
    /// clap has accepted the command line, but the subcommand is not in it.
    Subcommand(Seq<char>),
    /// clap has accepted the command line, but the argument has no value.
    Value(Seq<char>),
}

/// The complaint about a subcommand that is not there.
pub open spec fn subcommand_expected(name: Seq<char>) -> Seq<char> {
    "'"@ + name + "' subcommand expected but not provided"@
}

/// The complaint about an argument that has no value.
pub open spec fn value_expected(name: Seq<char>) -> Seq<char> {
    "'"@ + name + "' value expected but not provided"@
}

impl Refused {
    /// Whether `error` reports this refusal. What clap says when it refuses
    /// is its own affair; a complaint of the library is for the standard
    /// error and names what was expected.
    pub open spec fn reported_by(self, error: UsageError) -> bool {
        match self {
            Refused::ByClap => true,
            Refused::Subcommand(name) => error.use_stderr && error.message@
                == subcommand_expected(name),
            Refused::Value(name) => error.use_stderr && error.message@ == value_expected(name),
        }
    }
}

impl UsageError {
    /// The complaint about a subcommand that is not there.
    pub fn no_subcommand(name: &str) -> (error: UsageError)
        ensures
            Refused::Subcommand(name@).reported_by(error),
    {
        let mut message = String::from_str("'");
        message.append(name);
        message.append("' subcommand expected but not provided");
        UsageError { message, use_stderr: true }
    }

    /// The complaint about an argument that has no value.
    pub fn no_value(name: &str) -> (error: UsageError)
        ensures
            Refused::Value(name@).reported_by(error),
    {
        let mut message = String::from_str("'");
        message.append(name);
        message.append("' value expected but not provided");
        UsageError { message, use_stderr: true }
    }
}

#[verifier::external_type_specification]
#[verifier::external_body]
pub struct ExArgMatches<'a>(clap::ArgMatches<'a>);

/// The arguments that clap has matched, by their names, each with its values
/// in their order. A value that is no valid text stands in it with the
/// replacement character in place of what is not valid.
pub uninterp spec fn matched_values(matches: ArgMatches<'static>) -> Map<
    Seq<char>,
    Seq<Seq<char>>,
>;

/// The name of the subcommand in the matches, as clap's
/// `ArgMatches::subcommand_name` gives it.
pub uninterp spec fn sub_name(matches: ArgMatches<'static>) -> Option<Seq<char>>;

/// The matches of the subcommand in the matches, which clap's
/// `ArgMatches::subcommand_matches` hands out under the subcommand's name.
pub uninterp spec fn sub_matches(matches: ArgMatches<'static>) -> ArgMatches<'static>;

/// Whether the matches hold the name: as a matched argument, or as the
/// subcommand.
pub open spec fn arg_present(matches: ArgMatches<'static>, name: Seq<char>) -> bool {
    sub_name(matches) == Some(name) || matched_values(matches).dom().contains(name)
}

/// All the values of a matched argument.
pub open spec fn arg_values(matches: ArgMatches<'static>, name: Seq<char>) -> Option<
    Seq<Seq<char>>,
> {
    if matched_values(matches).dom().contains(name) {
        Some(matched_values(matches)[name])
    } else {
        None
    }
}

/// The first value of a matched argument.
pub open spec fn arg_value(matches: ArgMatches<'static>, name: Seq<char>) -> Option<Seq<char>> {
    match arg_values(matches, name) {
        Some(values) => if values.len() > 0 {
            Some(values[0])
        } else {
            None
        },
        None => None,
    }
}

/// What clap makes of a command line of the front end: the matches, or
/// `None` where it refuses the command line or shows the help instead.
pub uninterp spec fn front_end_matches(args: Seq<Seq<char>>) -> Option<ArgMatches<'static>>;

/// `ArgMatches::is_present` of clap: whether the name is that of a matched
/// argument or of the subcommand.
#[verifier::external_body]
pub(crate) fn is_present(matches: &ArgMatches<'static>, name: &str) -> (present: bool)
    ensures
        present == (sub_name(*matches) == Some(name@) || matched_values(*matches).dom().contains(
            name@,
        )),
{
    matches.is_present(name)
}

/// `ArgMatches::value_of_lossy` of clap: the first value of the matched
/// argument of that name, as a text of its own; nothing where no such
/// argument was matched or it has no value.
#[verifier::external_body]
pub(crate) fn value_of(matches: &ArgMatches<'static>, name: &str) -> (value: Option<String>)
    ensures
        match value {
            Some(text) => matched_values(*matches).dom().contains(name@) && matched_values(
                *matches,
            )[name@].len() > 0 && matched_values(*matches)[name@][0] == text@,
            None => !matched_values(*matches).dom().contains(name@) || matched_values(
                *matches,
            )[name@].len() == 0,
        },
{
    matches.value_of_lossy(name).map(|value| value.into_owned())
}

/// `ArgMatches::values_of_lossy` of clap: all the values of the matched
/// argument of that name, in their order; nothing where no such argument was
/// matched.
#[verifier::external_body]
pub(crate) fn values_of(matches: &ArgMatches<'static>, name: &str) -> (values: Option<Vec<String>>)
    ensures
        match values {
            Some(all) => matched_values(*matches).dom().contains(name@) && matched_values(
                *matches,
            )[name@] == texts(all@),
            None => !matched_values(*matches).dom().contains(name@),
        },
{
    matches.values_of_lossy(name)
}

/// `ArgMatches::subcommand_name` of clap, as a text of its own.
#[verifier::external_body]
pub(crate) fn subcommand_name(matches: &ArgMatches<'static>) -> (name: Option<String>)
    ensures
        match name {
            Some(text) => sub_name(*matches) == Some(text@),
            None => sub_name(*matches) is None,
        },
{
    matches.subcommand_name().map(|name| name.to_string())
}

/// `ArgMatches::subcommand_matches` of clap: the matches of the subcommand
/// where the subcommand in the matches has the given name, else nothing.
#[verifier::external_body]
pub(crate) fn subcommand_matches<'m>(
    matches: &'m ArgMatches<'static>,
    name: &str,
) -> (inner: Option<&'m ArgMatches<'static>>)
    ensures
        match inner {
            Some(found) => sub_name(*matches) == Some(name@) && *found == sub_matches(*matches),
            None => sub_name(*matches) != Some(name@),
        },
{
    matches.subcommand_matches(name)
}

/// Describes the command line of the front end to clap and has
/// `App::get_matches_from_safe` read `args`, the first of which is the name
/// of the program. The arguments alone decide whether clap accepts them and
/// what it matches; the text of its refusal depends on the terminal as well,
/// so nothing is said of it.
#[verifier::external_body]
fn match_front_end(args: &Vec<String>) -> (read: Result<ArgMatches<'static>, UsageError>)
    ensures
        match read {
            Ok(matches) => front_end_matches(texts(args@)) == Some(matches),
            Err(_) => front_end_matches(texts(args@)) is None,
        },
{
    let list = Arg::with_name(LIST).help(LIST_HELP).long(LIST).short(LIST_SHORT);
    let dir = Arg::with_name(CRATE_DIR).help(CRATE_DIR_HELP).long(CRATE_DIR).short(CRATE_DIR_SHORT);
    let settings = [AppSettings::ArgRequiredElseHelp, AppSettings::AllowExternalSubcommands];
    let gen = SubCommand::with_name(GEN).settings(&settings);
    let gen = gen.arg(list.conflicts_with(GENERATOR_NAME)).arg(dir.takes_value(true));
    let app = App::new("").setting(AppSettings::SubcommandRequiredElseHelp).subcommand(gen);
    app.get_matches_from_safe(args).map_err(
        |refusal| UsageError { use_stderr: refusal.use_stderr(), message: refusal.message },
    )
}

/// The arguments of the front end.
#[derive(Debug, PartialEq)]
pub struct CLArgs {
    /// Whether the list of generators is asked for.
    pub list: bool,
    /// The root directory of the crate to work on.
    pub crate_dir: String,
    /// The generator to run.
    pub gen_id: Option<String>,
    /// What is handed on to the generator.
    pub gen_args: Vec<String>,
}

/// What a `CLArgs` holds.
pub ghost struct Request {
    pub list: bool,
    pub crate_dir: Seq<char>,
    pub gen_id: Option<Seq<char>>,
    pub gen_args: Seq<Seq<char>>,
}

impl View for CLArgs {
    type V = Request;

    open spec fn view(&self) -> Request {
        Request {
            list: self.list,
            crate_dir: self.crate_dir@,
            gen_id: match self.gen_id {
                Some(name) => Some(name@),
                None => None,
            },
            gen_args: texts(self.gen_args@),
        }
    }
}

/// The request that is made of what was matched under `gen`: the directory
/// is the current one where none was given; the generator is the subcommand,
/// and its arguments are what followed it.
pub open spec fn request_of(
    list: bool,
    crate_dir: Option<Seq<char>>,
    generator: Option<(Seq<char>, Option<Seq<Seq<char>>>)>,
) -> Request {
    Request {
        list,
        crate_dir: match crate_dir {
            Some(dir) => dir,
            None => HERE@,
        },
        gen_id: match generator {
            Some((name, _)) => Some(name),
            None => None,
        },
        gen_args: match generator {
            Some((_, Some(rest))) => rest,
            _ => Seq::empty(),
        },
    }
}

/// What was matched under `gen`, as `request_of` takes it.
pub open spec fn matched_request(gen: ArgMatches<'static>) -> Request {
    request_of(
        arg_present(gen, LIST@),
        arg_value(gen, CRATE_DIR@),
        match sub_name(gen) {
            Some(name) => Some((name, arg_values(sub_matches(gen), EXTERNAL_ARGS@))),
            None => None,
        },
    )
}

/// The request that a command line makes, or why it makes none: because
/// clap refuses it, or because `gen` is not its subcommand.
pub open spec fn parsed_request(args: Seq<Seq<char>>) -> Result<Request, Refused> {
    match front_end_matches(args) {
        Some(matches) => if sub_name(matches) == Some(GEN@) {
            Ok(matched_request(sub_matches(matches)))
        } else {
            Err(Refused::Subcommand(GEN@))
        },
        None => Err(Refused::ByClap),
    }
}

impl CLArgs {
    /// The arguments that are made of what was matched under `gen`: whether
    /// the list flag was there, the value of the directory option if it was
    /// given, and the subcommand, if any, with what followed it.
    pub fn from_parts(
        list: bool,
        crate_dir: Option<String>,
        generator: Option<(String, Option<Vec<String>>)>,
    ) -> (clargs: CLArgs)
        ensures
            clargs@ == request_of(
                list,
                match crate_dir {
                    Some(dir) => Some(dir@),
                    None => None,
                },
                match generator {
                    Some((name, rest)) => Some(
                        (
                            name@,
                            match rest {
                                Some(all) => Some(texts(all@)),
                                None => None,
                            },
                        ),
                    ),
                    None => None,
                },
            ),
    {
        let crate_dir = match crate_dir {
            Some(dir) => dir,
            None => HERE.to_string(),
        };
        let (gen_id, gen_args) = match generator {
            Some((name, Some(rest))) => (Some(name), rest),
            Some((name, None)) => (Some(name), Vec::new()),
            None => (None, Vec::new()),
        };
        assert(texts(Seq::<String>::empty()) =~= Seq::<Seq<char>>::empty());
        CLArgs { list, crate_dir, gen_id, gen_args }
    }

    /// Reads a command line, the first argument of which is the name of the
    /// program.
    pub fn parse(args: Vec<String>) -> (parsed: Result<CLArgs, UsageError>)
        ensures
            match parsed {
                Ok(clargs) => parsed_request(texts(args@)) == Ok::<Request, Refused>(clargs@),
                Err(error) => parsed_request(texts(args@)) is Err && parsed_request(
                    texts(args@),
                )->Err_0.reported_by(error),
            },
    {
        let matches = match match_front_end(&args) {
            Ok(matches) => matches,
            Err(refusal) => {
                return Err(refusal);
            },
        };
        let gen = match subcommand_matches(&matches, GEN) {
            Some(gen) => gen,
            None => {
                return Err(UsageError::no_subcommand(GEN));
            },
        };
        let list = is_present(gen, LIST);
        let crate_dir = value_of(gen, CRATE_DIR);
        let generator = match subcommand_name(gen) {
            Some(name) => match subcommand_matches(gen, name.as_str()) {
                Some(inner) => Some((name, values_of(inner, EXTERNAL_ARGS))),
                None => None,
            },
            None => None,
        };
        Ok(CLArgs::from_parts(list, crate_dir, generator))
    }
}

} // verus!
