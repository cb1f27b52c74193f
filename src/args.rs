//! Resolution of the command line into the settings of a session, or into a
//! reason to end early (help, version, or an error).

use crate::opts::{
    add_flag, add_option, all_optional, declared_descriptions, decimal_u64, unique_short, declared_names, declared_specs, getopts_given, given_values, views_of, valid_names, names_of, new_options, opt_get_u64,
    opt_present, opt_str, parse_args, queryable_names, u64_reading,
};
use systeroid_core::sysctl::section::Section as CoreSection;
use vstd::prelude::*;
use vstd::string::*;

verus! {

/// Tick interval, in milliseconds, when none is given.
pub const DEFAULT_TICK_RATE: u64 = 250;

/// A section of the kernel parameters.
#[derive(Clone, Copy, Debug, PartialEq, Eq, Hash, Structural)]
pub enum Section {
    Abi,
    Fs,
    Kernel,
    Net,
    Sunrpc,
    User,
    Vm,
    Unknown,
}

/// The name under which a section is listed.
pub open spec fn section_name(s: Section) -> Seq<char> {
    match s {
        Section::Abi => "abi"@,
        Section::Fs => "fs"@,
        Section::Kernel => "kernel"@,
        Section::Net => "net"@,
        Section::Sunrpc => "sunrpc"@,
        Section::User => "user"@,
        Section::Vm => "vm"@,
        Section::Unknown => "unknown"@,
    }
}

/// The section that a text names, as read from the command line.
pub uninterp spec fn section_of(text: Seq<char>) -> Section;

/// Relies on `systeroid_core`'s `From<String> for Section`: the known section
/// whose name equals the lowercased text, else `Unknown`; a known section's
/// own name gives that section.
#[verifier::external_body]
fn section_from_text(text: String) -> (r: Section)
    ensures
        r == section_of(text@),
        forall|s: Section| s != Section::Unknown && text@ == section_name(s) ==> r == s,
{
    match CoreSection::from(text) {
        CoreSection::Abi => Section::Abi,
        CoreSection::Fs => Section::Fs,
        CoreSection::Kernel => Section::Kernel,
        CoreSection::Net => Section::Net,
        CoreSection::Sunrpc => Section::Sunrpc,
        CoreSection::User => Section::User,
        CoreSection::Vm => Section::Vm,
        CoreSection::Unknown => Section::Unknown,
    }
}

/// Relies on `systeroid_core`'s `Display for Section`: the variant's name in
/// lower case.
#[verifier::external_body]
pub(crate) fn section_label(s: Section) -> (r: String)
    ensures
        r@ == section_name(s),
{
    let core = match s {
        Section::Abi => CoreSection::Abi,
        Section::Fs => CoreSection::Fs,
        Section::Kernel => CoreSection::Kernel,
        Section::Net => CoreSection::Net,
        Section::Sunrpc => CoreSection::Sunrpc,
        Section::User => CoreSection::User,
        Section::Vm => CoreSection::Vm,
        Section::Unknown => CoreSection::Unknown,
    };
    core.to_string()
}

/// Facts about the option table's names, as text: each pair of names is
/// valid; every name that is read is declared; the tick rate,
/// documentation path, configuration file, help and version options have
/// short names that no other option shares; and how their short forms
/// are written on a command line.
proof fn option_table_facts()
    ensures
        valid_names("t"@, "tick-rate"@),
        valid_names("D"@, "docs"@),
        valid_names(""@, "save-path"@),
        valid_names("s"@, "section"@),
        valid_names("q"@, "query"@),
        valid_names(""@, "bg-color"@),
        valid_names(""@, "fg-color"@),
        valid_names("n"@, "no-docs"@),
        valid_names(""@, "deprecated"@),
        valid_names("c"@, "config"@),
        valid_names("h"@, "help"@),
        valid_names("V"@, "version"@),
        option_names().contains("h"@),
        option_names().contains("V"@),
        option_names().contains("t"@),
        option_names().contains("D"@),
        option_names().contains("save-path"@),
        option_names().contains("s"@),
        option_names().contains("q"@),
        option_names().contains("fg-color"@),
        option_names().contains("bg-color"@),
        option_names().contains("n"@),
        option_names().contains("deprecated"@),
        option_names().contains("c"@),
        unique_short(option_specs(), 0),
        option_specs()[0].0 == "t"@,
        option_specs()[0].1 == "tick-rate"@,
        unique_short(option_specs(), 1),
        option_specs()[1].0 == "D"@,
        option_specs()[1].1 == "docs"@,
        unique_short(option_specs(), 9),
        option_specs()[9].0 == "c"@,
        option_specs()[9].1 == "config"@,
        unique_short(option_specs(), 10),
        option_specs()[10].0 == "h"@,
        option_specs()[10].1 == "help"@,
        unique_short(option_specs(), 11),
        option_specs()[11].0 == "V"@,
        option_specs()[11].1 == "version"@,
        !names_of("V"@, "version"@).contains("h"@),
        seq!['-'] + "h"@ == "-h"@,
        seq!['-'] + "V"@ == "-V"@,
        seq!['-'] + "t"@ == "-t"@,
        seq!['-'] + "D"@ == "-D"@,
        seq!['-'] + "c"@ == "-c"@,
        !names_of("t"@, "tick-rate"@).contains("h"@),
        !names_of("t"@, "tick-rate"@).contains("V"@),
        !names_of("D"@, "docs"@).contains("h"@),
        !names_of("D"@, "docs"@).contains("V"@),
        !names_of("D"@, "docs"@).contains("t"@),
        !names_of("D"@, "docs"@).contains("fg-color"@),
        !names_of("D"@, "docs"@).contains("bg-color"@),
        !names_of("c"@, "config"@).contains("h"@),
        !names_of("c"@, "config"@).contains("V"@),
        !names_of("c"@, "config"@).contains("t"@),
        !names_of("c"@, "config"@).contains("fg-color"@),
        !names_of("c"@, "config"@).contains("bg-color"@),
{
    reveal_strlit("t");
    reveal_strlit("tick-rate");
    reveal_strlit("D");
    reveal_strlit("docs");
    reveal_strlit("");
    reveal_strlit("save-path");
    reveal_strlit("s");
    reveal_strlit("section");
    reveal_strlit("q");
    reveal_strlit("query");
    reveal_strlit("bg-color");
    reveal_strlit("fg-color");
    reveal_strlit("n");
    reveal_strlit("no-docs");
    reveal_strlit("deprecated");
    reveal_strlit("c");
    reveal_strlit("config");
    reveal_strlit("h");
    reveal_strlit("help");
    reveal_strlit("V");
    reveal_strlit("version");
    reveal_strlit("-h");
    reveal_strlit("-V");
    reveal_strlit("-t");
    reveal_strlit("-D");
    reveal_strlit("-c");
    let sp = option_specs();
    assert forall|j: int| 0 <= j < sp.len() && j != 0 implies #[trigger] sp[j].0 != sp[0].0 && sp[j].1 != sp[0].1 by {
        assert(sp[j].0.len() != 1 || sp[j].0[0] != 't');
        assert(sp[j].1.len() != 9 || sp[j].1[0] != 't' || sp[j].1[1] != 'i');
    }
    assert forall|j: int| 0 <= j < sp.len() && j != 1 implies #[trigger] sp[j].0 != sp[1].0 && sp[j].1 != sp[1].1 by {
        assert(sp[j].0.len() != 1 || sp[j].0[0] != 'D');
        assert(sp[j].1.len() != 4 || sp[j].1[0] != 'd' || sp[j].1[1] != 'o');
    }
    assert forall|j: int| 0 <= j < sp.len() && j != 9 implies #[trigger] sp[j].0 != sp[9].0 && sp[j].1 != sp[9].1 by {
        assert(sp[j].0.len() != 1 || sp[j].0[0] != 'c');
        assert(sp[j].1.len() != 6 || sp[j].1[0] != 'c' || sp[j].1[1] != 'o');
    }
    assert forall|j: int| 0 <= j < sp.len() && j != 10 implies #[trigger] sp[j].0 != sp[10].0 && sp[j].1 != sp[10].1 by {
        assert(sp[j].0.len() != 1 || sp[j].0[0] != 'h');
        assert(sp[j].1.len() != 4 || sp[j].1[0] != 'h' || sp[j].1[1] != 'e');
    }
    assert forall|j: int| 0 <= j < sp.len() && j != 11 implies #[trigger] sp[j].0 != sp[11].0 && sp[j].1 != sp[11].1 by {
        assert(sp[j].0.len() != 1 || sp[j].0[0] != 'V');
        assert(sp[j].1.len() != 7 || sp[j].1[0] != 'v' || sp[j].1[1] != 'e');
    }
}

/// The options that the command line knows, in order: short name, long
/// name, and whether the option takes a value.
pub open spec fn option_specs() -> Seq<(Seq<char>, Seq<char>, bool)> {
    seq![
        ("t"@, "tick-rate"@, true),
        ("D"@, "docs"@, true),
        (""@, "save-path"@, true),
        ("s"@, "section"@, true),
        ("q"@, "query"@, true),
        (""@, "bg-color"@, true),
        (""@, "fg-color"@, true),
        ("n"@, "no-docs"@, false),
        (""@, "deprecated"@, false),
        ("c"@, "config"@, true),
        ("h"@, "help"@, false),
        ("V"@, "version"@, false),
    ]
}

/// The description of each option that the usage text shows, in the order
/// of `option_specs`; those of the tick rate and the colors name their
/// defaults.
pub open spec fn option_descriptions() -> Seq<Seq<char>> {
    seq![
        "set the tick rate of the terminal [default: 250]"@,
        "set the path of the kernel documentation"@,
        "set the path for saving the changed parameters"@,
        "set the section to filter"@,
        "set the query to search"@,
        "set the background color [default: black]"@,
        "set the foreground color [default: white]"@,
        "do not show the kernel documentation"@,
        "include deprecated variables while listing"@,
        "set the path of the configuration file"@,
        "display this help and exit"@,
        "output version information and exit"@,
    ]
}

/// Every option name that the command line knows, short and long.
pub open spec fn option_names() -> Set<Seq<char>> {
    names_of("t"@, "tick-rate"@)
        .union(names_of("D"@, "docs"@))
        .union(names_of(""@, "save-path"@))
        .union(names_of("s"@, "section"@))
        .union(names_of("q"@, "query"@))
        .union(names_of(""@, "bg-color"@))
        .union(names_of(""@, "fg-color"@))
        .union(names_of("n"@, "no-docs"@))
        .union(names_of(""@, "deprecated"@))
        .union(names_of("c"@, "config"@))
        .union(names_of("h"@, "help"@))
        .union(names_of("V"@, "version"@))
}

/// What a string option holds, as text.
pub open spec fn opt_view(o: Option<String>) -> Option<Seq<char>> {
    match o {
        Some(s) => Some(s@),
        None => None,
    }
}

/// The value given to option `name`, if it was given with one.
pub open spec fn given_text(given: Map<Seq<char>, Option<Seq<char>>>, name: Seq<char>) -> Option<Seq<char>> {
    if given.contains_key(name) { given[name] } else { None }
}

/// What the parser reported for each option, as plain values.
pub struct OptionValues {
    /// `-h` / `--help` was given.
    pub help: bool,
    /// `-V` / `--version` was given.
    pub version: bool,
    /// `-t` / `--tick-rate` read as a number, or the message of why it is not one.
    pub tick_rate: Result<Option<u64>, String>,
    /// `-D` / `--docs`.
    pub kernel_docs: Option<String>,
    /// `--save-path`.
    pub save_path: Option<String>,
    /// `-s` / `--section`.
    pub section: Option<Section>,
    /// `-q` / `--query`.
    pub search_query: Option<String>,
    /// `--fg-color`.
    pub fg_color: Option<String>,
    /// `--bg-color`.
    pub bg_color: Option<String>,
    /// `-n` / `--no-docs` was given.
    pub no_docs: bool,
    /// `--deprecated` was given.
    pub display_deprecated: bool,
    /// `-c` / `--config`.
    pub config: Option<String>,
}

/// `v` holds what the parser reported in `given`.
pub open spec fn values_read_from(v: OptionValues, given: Map<Seq<char>, Option<Seq<char>>>) -> bool {
    &&& v.help == given.contains_key("h"@)
    &&& v.version == given.contains_key("V"@)
    &&& (v.tick_rate is Ok) == (u64_reading(given, "t"@) is Some)
    &&& v.tick_rate is Ok ==> u64_reading(given, "t"@) == Some(v.tick_rate->Ok_0)
    &&& opt_view(v.kernel_docs) == given_text(given, "D"@)
    &&& opt_view(v.save_path) == given_text(given, "save-path"@)
    &&& v.section == match given_text(given, "s"@) {
        Some(t) => Some(section_of(t)),
        None => None,
    }
    &&& opt_view(v.search_query) == given_text(given, "q"@)
    &&& opt_view(v.fg_color) == given_text(given, "fg-color"@)
    &&& opt_view(v.bg_color) == given_text(given, "bg-color"@)
    &&& v.no_docs == given.contains_key("n"@)
    &&& v.display_deprecated == given.contains_key("deprecated"@)
    &&& opt_view(v.config) == given_text(given, "c"@)
}

/// Why a session ends before it starts.
pub enum EarlyExit {
    /// Usage was asked for.
    Help,
    /// The version was asked for.
    Version,
    /// The command line is wrong; the message says how.
    Error(String),
}

impl EarlyExit {
    /// Whether the exit reports a failure.
    pub open spec fn spec_is_error(&self) -> bool {
        self is Error
    }

    /// Whether the exit reports a failure.
    #[verifier::when_used_as_spec(spec_is_error)]
    pub fn is_error(&self) -> (r: bool)
        ensures
            r == self.spec_is_error(),
    {
        match self {
            EarlyExit::Error(_) => true,
            _ => false,
        }
    }
}

/// The outcome of reading the command line.
pub enum Resolution {
    /// Start a session with these settings.
    Proceed(Args),
    /// End the process at once.
    ExitEarly(EarlyExit),
}

/// `a` holds the settings that `v` and the two environment fallbacks give,
/// `tick` being the tick rate that was read.
pub open spec fn settings_from(a: Args, v: OptionValues, tick: Option<u64>, docs_env: Option<String>, config_env: Option<String>) -> bool {
    &&& a.tick_rate == match tick {
        Some(n) => n,
        None => DEFAULT_TICK_RATE,
    }
    &&& opt_view(a.kernel_docs) == if v.kernel_docs is Some { opt_view(v.kernel_docs) } else { opt_view(docs_env) }
    &&& opt_view(a.save_path) == opt_view(v.save_path)
    &&& a.section == v.section
    &&& opt_view(a.search_query) == opt_view(v.search_query)
    &&& a.fg_color@ == if v.fg_color is Some { v.fg_color->Some_0@ } else { "white"@ }
    &&& a.bg_color@ == if v.bg_color is Some { v.bg_color->Some_0@ } else { "black"@ }
    &&& a.no_docs == v.no_docs
    &&& a.display_deprecated == v.display_deprecated
    &&& a.explicit == (Explicit { tick_rate: tick is Some, fg_color: v.fg_color is Some, bg_color: v.bg_color is Some })
    &&& opt_view(a.config) == if v.config is Some { opt_view(v.config) } else { opt_view(config_env) }
}

/// An option given with an empty text.
pub open spec fn empty_text(o: Option<String>) -> bool {
    o is Some && o->Some_0@.len() == 0
}

/// `r` is how the reported values `v` resolve: help first, then version,
/// then a tick rate that is not a positive number is an error, so is an
/// empty color name, and otherwise the session proceeds with the settings
/// that `settings_from` gives.
pub open spec fn resolves_to(r: Resolution, v: OptionValues, docs_env: Option<String>, config_env: Option<String>) -> bool {
    if v.help {
        r == Resolution::ExitEarly(EarlyExit::Help)
    } else if v.version {
        r == Resolution::ExitEarly(EarlyExit::Version)
    } else {
        match v.tick_rate {
            Err(e) => r is ExitEarly && r->ExitEarly_0 is Error && r->ExitEarly_0->Error_0@ == e@,
            Ok(Some(0u64)) => r is ExitEarly && r->ExitEarly_0 is Error,
            Ok(t) => if empty_text(v.fg_color) || empty_text(v.bg_color) {
                r is ExitEarly && r->ExitEarly_0 is Error
            } else {
                r is Proceed && settings_from(r->Proceed_0, v, t, docs_env, config_env)
            },
        }
    }
}

/// `args` holds `short` or `long` as an argument of its own before any
/// lone `--`.
pub open spec fn asks_for(args: Seq<Seq<char>>, short: Seq<char>, long: Seq<char>) -> bool {
    exists|i: int| #![trigger args[i]] 0 <= i < args.len() && (args[i] == short || args[i] == long) && !ends_before(args, i)
}

/// A lone `--` stands in `args` before index `i`.
pub open spec fn ends_before(args: Seq<Seq<char>>, i: int) -> bool {
    exists|j: int| #![trigger args[j]] 0 <= j < i && args[j] == "--"@
}

/// `r` is how the command line `args` (the program's name left out)
/// resolves: where the parser refuses it, help or version asked for still
/// win, else it is an error; where the parser accepts it, how the values
/// that it reports resolve.
pub open spec fn resolves_args(r: Resolution, args: Seq<Seq<char>>, docs_env: Option<String>, config_env: Option<String>) -> bool {
    match getopts_given(option_specs(), args) {
        None => if asks_for(args, "-h"@, "--help"@) {
            r == Resolution::ExitEarly(EarlyExit::Help)
        } else if asks_for(args, "-V"@, "--version"@) {
            r == Resolution::ExitEarly(EarlyExit::Version)
        } else {
            r is ExitEarly && r->ExitEarly_0 is Error
        },
        Some(g) => exists|v: OptionValues| #[trigger] values_read_from(v, g) && resolves_to(r, v, docs_env, config_env),
    }
}

/// The settings that a resolution proceeds with, if it does.
pub open spec fn settings_of(r: Resolution) -> Option<Args> {
    match r {
        Resolution::Proceed(a) => Some(a),
        Resolution::ExitEarly(_) => None,
    }
}

/// A command line with help or version among its options, as the parser
/// reads it or, where the parser refuses it, as arguments of their own, ends
/// early, and not as an error, whatever else it holds.
pub proof fn help_or_version_ends_early(r: Resolution, args: Seq<Seq<char>>, docs_env: Option<String>, config_env: Option<String>)
    requires
        resolves_args(r, args, docs_env, config_env),
        getopts_given(option_specs(), args) matches Some(g) && (g.contains_key("h"@) || g.contains_key("V"@))
            || getopts_given(option_specs(), args) is None && (asks_for(args, "-h"@, "--help"@) || asks_for(args, "-V"@, "--version"@)),
    ensures
        r is ExitEarly && !r->ExitEarly_0.is_error(),
{
}

/// Where the parser accepts a command line and it proceeds, a setting that
/// the command line leaves out takes its default, or its environment
/// fallback, and one that it gives wins over that fallback.
pub proof fn omitted_settings_fall_back(r: Resolution, args: Seq<Seq<char>>, docs_env: Option<String>, config_env: Option<String>)
    requires
        resolves_args(r, args, docs_env, config_env),
        r is Proceed,
    ensures
        getopts_given(option_specs(), args) matches Some(g) && {
            &&& !g.contains_key("t"@) ==> r->Proceed_0.tick_rate == DEFAULT_TICK_RATE
            &&& !g.contains_key("fg-color"@) ==> r->Proceed_0.fg_color@ == "white"@
            &&& !g.contains_key("bg-color"@) ==> r->Proceed_0.bg_color@ == "black"@
            &&& !g.contains_key("D"@) ==> opt_view(r->Proceed_0.kernel_docs) == opt_view(docs_env)
            &&& !g.contains_key("c"@) ==> opt_view(r->Proceed_0.config) == opt_view(config_env)
            &&& g.contains_key("D"@) && g["D"@] is Some ==> opt_view(r->Proceed_0.kernel_docs) == g["D"@]
            &&& g.contains_key("c"@) && g["c"@] is Some ==> opt_view(r->Proceed_0.config) == g["c"@]
        },
{
    let g = getopts_given(option_specs(), args)->Some_0;
    let v = choose|v: OptionValues| #[trigger] values_read_from(v, g) && resolves_to(r, v, docs_env, config_env);
    assert(values_read_from(v, g));
}

/// Command-line arguments.
pub struct Args {
    /// Location of the configuration file.
    pub config: Option<String>,
    /// Refresh rate of the terminal, in milliseconds.
    pub tick_rate: u64,
    /// Path of the Linux kernel documentation.
    pub kernel_docs: Option<String>,
    /// Path for the changed parameters.
    pub save_path: Option<String>,
    /// Sysctl section to filter.
    pub section: Option<Section>,
    /// Query to search on startup.
    pub search_query: Option<String>,
    /// Foreground color.
    pub fg_color: String,
    /// Background color.
    pub bg_color: String,
    /// Do not parse/show Linux kernel documentation.
    pub no_docs: bool,
    /// Whether the deprecated variables should be included while listing.
    pub display_deprecated: bool,
    /// Which of the settings with a default were given on the command line.
    pub explicit: Explicit,
}

/// Which of the settings with a default were given on the command line.
#[derive(Clone, Copy, Debug, PartialEq, Eq, Structural)]
pub struct Explicit {
    /// The tick rate was given.
    pub tick_rate: bool,
    /// The foreground color was given.
    pub fg_color: bool,
    /// The background color was given.
    pub bg_color: bool,
}

/// Settings of a session, as built-in defaults, a configuration file or
/// the command line give them.
pub struct Settings {
    /// Refresh rate of the terminal, in milliseconds.
    pub tick_rate: u64,
    /// Path of the Linux kernel documentation.
    pub kernel_docs: Option<String>,
    /// Path for the changed parameters.
    pub save_path: Option<String>,
    /// Do not parse/show Linux kernel documentation.
    pub no_docs: bool,
    /// Whether the deprecated variables should be included while listing.
    pub display_deprecated: bool,
    /// Foreground color.
    pub fg_color: String,
    /// Background color.
    pub bg_color: String,
}

impl Args {
    /// Returns the available options.
    pub fn get_options() -> (r: getopts::Options)
        ensures
            declared_names(r) == option_names(),
            declared_specs(r) == option_specs(),
            declared_descriptions(r) == option_descriptions(),
            all_optional(r),
    {
        proof {
            option_table_facts();
        }
        let mut opts = new_options();
        add_option(&mut opts, "t", "tick-rate", "set the tick rate of the terminal [default: 250]", "<ms>");
        add_option(&mut opts, "D", "docs", "set the path of the kernel documentation", "<path>");
        add_option(&mut opts, "", "save-path", "set the path for saving the changed parameters", "<path>");
        add_option(&mut opts, "s", "section", "set the section to filter", "<section>");
        add_option(&mut opts, "q", "query", "set the query to search", "<query>");
        add_option(&mut opts, "", "bg-color", "set the background color [default: black]", "<color>");
        add_option(&mut opts, "", "fg-color", "set the foreground color [default: white]", "<color>");
        add_flag(&mut opts, "n", "no-docs", "do not show the kernel documentation");
        add_flag(&mut opts, "", "deprecated", "include deprecated variables while listing");
        add_option(&mut opts, "c", "config", "set the path of the configuration file", "<path>");
        add_flag(&mut opts, "h", "help", "display this help and exit");
        add_flag(&mut opts, "V", "version", "output version information and exit");
        proof {
            assert(declared_names(opts) =~= option_names());
            assert(declared_specs(opts) =~= option_specs());
            assert(declared_descriptions(opts) =~= option_descriptions());
        }
        opts
    }

    /// Whether `args` holds `short` or `long` as an argument of its own
    /// before any lone `--`.
    fn asks_for_option(args: &Vec<String>, short: &str, long: &str) -> (r: bool)
        ensures
            r == asks_for(views_of(args@), short@, long@),
    {
        let short_text = short.to_owned();
        let long_text = long.to_owned();
        let end = String::from_str("--");
        proof {
            reveal_strlit("--");
        }
        let ghost a = views_of(args@);
        let mut i: usize = 0;
        while i < args.len()
            invariant
                i <= args@.len(),
                a == views_of(args@),
                end@ == "--"@,
                short_text@ == short@,
                long_text@ == long@,
                forall|k: int| 0 <= k < i ==> a[k] != short@ && a[k] != long@,
                !ends_before(a, i as int),
            decreases args@.len() - i,
        {
            assert(a.len() == args@.len());
            assert(a[i as int] == args@[i as int]@);
            if args[i] == short_text || args[i] == long_text {
                assert(a[i as int] == short@ || a[i as int] == long@);
                assert(asks_for(views_of(args@), short@, long@));
                return true;
            }
            if args[i] == end {
                proof {
                    assert forall|k: int| 0 <= k < a.len() && (a[k] == short@ || a[k] == long@) implies ends_before(a, k) by {
                        assert(a[i as int] == "--"@);
                    }
                    assert(!asks_for(views_of(args@), short@, long@));
                }
                return false;
            }
            proof {
                assert forall|j: int| 0 <= j < i + 1 implies a[j] != "--"@ by {
                    if j < i {
                        if a[j] == "--"@ {
                            assert(ends_before(a, i as int));
                        }
                    }
                }
            }
            i += 1;
        }
        assert(a.len() == args@.len());
        false
    }

    /// Reads what the parser reported for each known option.
    fn read_values(m: &getopts::Matches) -> (v: OptionValues)
        requires
            option_names().subset_of(queryable_names(*m)),
        ensures
            values_read_from(v, given_values(*m)),
    {
        proof {
            option_table_facts();
        }
        let section = match opt_str(m, "s") {
            Some(t) => Some(section_from_text(t)),
            None => None,
        };
        OptionValues {
            help: opt_present(m, "h"),
            version: opt_present(m, "V"),
            tick_rate: opt_get_u64(m, "t"),
            kernel_docs: opt_str(m, "D"),
            save_path: opt_str(m, "save-path"),
            section,
            search_query: opt_str(m, "q"),
            fg_color: opt_str(m, "fg-color"),
            bg_color: opt_str(m, "bg-color"),
            no_docs: opt_present(m, "n"),
            display_deprecated: opt_present(m, "deprecated"),
            config: opt_str(m, "c"),
        }
    }

    /// Resolves the command line `env_args`, whose first item is the
    /// program's name, with the values of the environment's fallbacks for
    /// the documentation path and the configuration file. Either the parser
    /// refused the arguments, which is an error, or the outcome is how the
    /// values that it reported resolve.
    pub fn resolve(env_args: Vec<String>, docs_env: Option<String>, config_env: Option<String>) -> (r: Resolution)
        requires
            env_args@.len() >= 1,
        ensures
            resolves_args(r, views_of(env_args@.drop_first()), docs_env, config_env),
            env_args@.len() == 2 && env_args@[1]@ == "-h"@ ==> r == Resolution::ExitEarly(EarlyExit::Help),
            env_args@.len() == 2 && env_args@[1]@ == "-V"@ ==> r == Resolution::ExitEarly(EarlyExit::Version),
            env_args@.len() == 3 && env_args@[1]@ == "-t"@ && decimal_u64(env_args@[2]@) is None
                ==> r is ExitEarly && r->ExitEarly_0.is_error(),
            env_args@.len() == 3 && env_args@[1]@ == "-t"@ && decimal_u64(env_args@[2]@) == Some(0u64)
                ==> r is ExitEarly && r->ExitEarly_0.is_error(),
            env_args@.len() == 3 && env_args@[1]@ == "-D"@ ==> r is Proceed
                && opt_view(r->Proceed_0.kernel_docs) == Some(env_args@[2]@),
            env_args@.len() == 3 && env_args@[1]@ == "-c"@ ==> r is Proceed
                && opt_view(r->Proceed_0.config) == Some(env_args@[2]@),
            env_args@.len() == 1 ==> {
                &&& r is Proceed
                &&& r->Proceed_0.tick_rate == DEFAULT_TICK_RATE
                &&& r->Proceed_0.fg_color@ == "white"@
                &&& r->Proceed_0.bg_color@ == "black"@
                &&& opt_view(r->Proceed_0.kernel_docs) == opt_view(docs_env)
                &&& opt_view(r->Proceed_0.config) == opt_view(config_env)
            },
    {
        let mut rest: Vec<String> = Vec::new();
        let mut i: usize = 1;
        while i < env_args.len()
            invariant
                1 <= i <= env_args@.len(),
                rest@ == env_args@.subrange(1, i as int),
            decreases env_args@.len() - i,
        {
            rest.push(env_args[i].clone());
            i += 1;
            proof {
                assert(rest@ =~= env_args@.subrange(1, i as int));
            }
        }
        proof {
            assert(rest@ =~= env_args@.drop_first());
            if env_args@.len() == 2 || env_args@.len() == 3 {
                option_table_facts();
            }
        }
        let opts = Self::get_options();
        match parse_args(&opts, &rest) {
            Err(e) => {
                if Self::asks_for_option(&rest, "-h", "--help") {
                    Resolution::ExitEarly(EarlyExit::Help)
                } else if Self::asks_for_option(&rest, "-V", "--version") {
                    Resolution::ExitEarly(EarlyExit::Version)
                } else {
                    Resolution::ExitEarly(EarlyExit::Error(e))
                }
            },
            Ok(m) => {
                let values = Self::read_values(&m);
                let ghost v = values;
                let r = Self::from_values(values, docs_env, config_env);
                assert(values_read_from(v, getopts_given(option_specs(), views_of(rest@))->Some_0));
                assert(resolves_to(r, v, docs_env, config_env));
                r
            },
        }
    }

    /// Parses the command-line arguments: the settings, or `None` where the
    /// process ends early.
    pub fn parse(env_args: Vec<String>, docs_env: Option<String>, config_env: Option<String>) -> (r: Option<Args>)
        requires
            env_args@.len() >= 1,
        ensures
            exists|res: Resolution| #[trigger] resolves_args(res, views_of(env_args@.drop_first()), docs_env, config_env)
                && r == settings_of(res),
            env_args@.len() == 2 && (env_args@[1]@ == "-h"@ || env_args@[1]@ == "-V"@) ==> r is None,
            env_args@.len() == 3 && env_args@[1]@ == "-t"@ && decimal_u64(env_args@[2]@) is None ==> r is None,
            env_args@.len() == 3 && env_args@[1]@ == "-D"@ ==> r is Some && opt_view(r->Some_0.kernel_docs) == Some(env_args@[2]@),
            env_args@.len() == 3 && env_args@[1]@ == "-c"@ ==> r is Some && opt_view(r->Some_0.config) == Some(env_args@[2]@),
            env_args@.len() == 1 ==> {
                &&& r is Some
                &&& r->Some_0.tick_rate == DEFAULT_TICK_RATE
                &&& r->Some_0.fg_color@ == "white"@
                &&& r->Some_0.bg_color@ == "black"@
                &&& opt_view(r->Some_0.kernel_docs) == opt_view(docs_env)
                &&& opt_view(r->Some_0.config) == opt_view(config_env)
            },
    {
        let ghost arguments = env_args@;
        let res = Self::resolve(env_args, docs_env, config_env);
        let ghost g = res;
        let r = match res {
            Resolution::Proceed(a) => Some(a),
            Resolution::ExitEarly(_) => None,
        };
        assert(r == settings_of(g));
        r
    }

    /// The settings of a session: what the command line gave (the
    /// environment's fallback included) wins over `base`, the configuration
    /// file's settings over the built-in defaults. A tick rate of 0 or an
    /// empty color name that results is an error.
    pub fn merged(self, base: Settings) -> (r: Result<Settings, String>)
        ensures
            ({
                let tick = if self.explicit.tick_rate { self.tick_rate } else { base.tick_rate };
                let fg = if self.explicit.fg_color { self.fg_color@ } else { base.fg_color@ };
                let bg = if self.explicit.bg_color { self.bg_color@ } else { base.bg_color@ };
                &&& (r is Ok) == (tick > 0 && fg.len() > 0 && bg.len() > 0)
                &&& r is Ok ==> {
                    let m = r->Ok_0;
                    &&& m.tick_rate == tick
                    &&& m.fg_color@ == fg
                    &&& m.bg_color@ == bg
                    &&& opt_view(m.kernel_docs) == if self.kernel_docs is Some { opt_view(self.kernel_docs) } else { opt_view(base.kernel_docs) }
                    &&& opt_view(m.save_path) == if self.save_path is Some { opt_view(self.save_path) } else { opt_view(base.save_path) }
                    &&& m.no_docs == (self.no_docs || base.no_docs)
                    &&& m.display_deprecated == (self.display_deprecated || base.display_deprecated)
                }
            }),
    {
        let m = Settings {
            tick_rate: if self.explicit.tick_rate { self.tick_rate } else { base.tick_rate },
            kernel_docs: match self.kernel_docs {
                Some(d) => Some(d),
                None => base.kernel_docs,
            },
            save_path: match self.save_path {
                Some(p) => Some(p),
                None => base.save_path,
            },
            no_docs: self.no_docs || base.no_docs,
            display_deprecated: self.display_deprecated || base.display_deprecated,
            fg_color: if self.explicit.fg_color { self.fg_color } else { base.fg_color },
            bg_color: if self.explicit.bg_color { self.bg_color } else { base.bg_color },
        };
        if m.tick_rate == 0 {
            return Err(String::from_str("the tick rate must be a positive number of milliseconds"));
        }
        if m.fg_color.as_str().is_empty() || m.bg_color.as_str().is_empty() {
            return Err(String::from_str("a color name must not be empty"));
        }
        Ok(m)
    }

    /// Resolves what the parser reported, with the values of the
    /// environment's fallbacks for the documentation path and the
    /// configuration file.
    pub fn from_values(values: OptionValues, docs_env: Option<String>, config_env: Option<String>) -> (r: Resolution)
        ensures
            resolves_to(r, values, docs_env, config_env),
            values.help || values.version ==> r is ExitEarly && !r->ExitEarly_0.is_error(),
            !values.help && !values.version && values.tick_rate is Err ==> r is ExitEarly && r->ExitEarly_0.is_error(),
            r is Proceed && values.tick_rate == Ok::<Option<u64>, String>(None) ==> r->Proceed_0.tick_rate == DEFAULT_TICK_RATE,
            r is Proceed && values.fg_color is None ==> r->Proceed_0.fg_color@ == "white"@,
            r is Proceed && values.bg_color is None ==> r->Proceed_0.bg_color@ == "black"@,
            r is Proceed && values.kernel_docs is None ==> opt_view(r->Proceed_0.kernel_docs) == opt_view(docs_env),
            r is Proceed && values.kernel_docs is Some ==> opt_view(r->Proceed_0.kernel_docs) == opt_view(values.kernel_docs),
            r is Proceed && values.config is None ==> opt_view(r->Proceed_0.config) == opt_view(config_env),
            r is Proceed && values.config is Some ==> opt_view(r->Proceed_0.config) == opt_view(values.config),
    {
        if values.help {
            return Resolution::ExitEarly(EarlyExit::Help);
        }
        if values.version {
            return Resolution::ExitEarly(EarlyExit::Version);
        }
        let tick_rate: u64 = match values.tick_rate {
            Err(e) => {
                return Resolution::ExitEarly(EarlyExit::Error(e));
            },
            Ok(Some(n)) => {
                if n == 0 {
                    return Resolution::ExitEarly(
                        EarlyExit::Error(String::from_str("the tick rate must be a positive number of milliseconds")),
                    );
                }
                n
            },
            Ok(None) => DEFAULT_TICK_RATE,
        };
        let explicit = Explicit {
            tick_rate: match values.tick_rate {
                Ok(Some(_)) => true,
                _ => false,
            },
            fg_color: values.fg_color.is_some(),
            bg_color: values.bg_color.is_some(),
        };
        let fg_empty = match &values.fg_color {
            Some(c) => c.as_str().is_empty(),
            None => false,
        };
        let bg_empty = match &values.bg_color {
            Some(c) => c.as_str().is_empty(),
            None => false,
        };
        if fg_empty || bg_empty {
            return Resolution::ExitEarly(EarlyExit::Error(String::from_str("a color name must not be empty")));
        }
        let kernel_docs = match values.kernel_docs {
            Some(d) => Some(d),
            None => docs_env,
        };
        let config = match values.config {
            Some(c) => Some(c),
            None => config_env,
        };
        let fg_color = match values.fg_color {
            Some(c) => c,
            None => String::from_str("white"),
        };
        let bg_color = match values.bg_color {
            Some(c) => c,
            None => String::from_str("black"),
        };
        Resolution::Proceed(Args {
            config,
            tick_rate,
            kernel_docs,
            save_path: values.save_path,
            section: values.section,
            search_query: values.search_query,
            fg_color,
            bg_color,
            no_docs: values.no_docs,
            display_deprecated: values.display_deprecated,
            explicit,
        })
    }
}

} // verus!
