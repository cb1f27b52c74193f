//! The command-line option parser is `getopts`: this module declares its
//! types to the verifier and states what each call used here returns.

use vstd::prelude::*;

verus! {

#[verifier::external_type_specification]
#[verifier::external_body]
pub struct ExOptions(getopts::Options);

#[verifier::external_type_specification]
#[verifier::external_body]
pub struct ExMatches(getopts::Matches);

/// The option names, short and long, that a set of options declares.
pub uninterp spec fn declared_names(o: getopts::Options) -> Set<Seq<char>>;

/// The options that a set of options declares, in order of declaration:
/// short name, long name, and whether the option takes a value.
pub uninterp spec fn declared_specs(o: getopts::Options) -> Seq<(Seq<char>, Seq<char>, bool)>;

/// What parsing the arguments `args` against the declared options `specs`
/// gives: `None` where the parser refuses them, else for each name of each
/// option given the value of its first occurrence (`None` for a flag).
pub uninterp spec fn getopts_given(specs: Seq<(Seq<char>, Seq<char>, bool)>, args: Seq<Seq<char>>) -> Option<Map<Seq<char>, Option<Seq<char>>>>;

/// The text of each argument.
pub open spec fn views_of(args: Seq<String>) -> Seq<Seq<char>> {
    Seq::new(args.len(), |i: int| args[i]@)
}

/// Option `k` of `specs` has a short name other than `-` (a lone `--` ends
/// the options), and no other option has its short name or its long name.
pub open spec fn unique_short(specs: Seq<(Seq<char>, Seq<char>, bool)>, k: int) -> bool {
    &&& 0 <= k < specs.len()
    &&& specs[k].0.len() == 1
    &&& specs[k].0[0] != '-'
    &&& forall|j: int| 0 <= j < specs.len() && j != k ==> specs[j].0 != specs[k].0 && specs[j].1 != specs[k].1
}

/// Every declared option may be left out, free arguments may stand between
/// options, and long names are written with two dashes: the parser's
/// defaults, which only optional options keep.
pub uninterp spec fn all_optional(o: getopts::Options) -> bool;

/// The description of each declared option, as the usage text shows it, in
/// order of declaration.
pub uninterp spec fn declared_descriptions(o: getopts::Options) -> Seq<Seq<char>>;

/// The names under which a parse result can be queried.
pub uninterp spec fn queryable_names(m: getopts::Matches) -> Set<Seq<char>>;

/// For each option name given on the command line, the value of its first
/// occurrence (`None` for a flag, which takes no value).
pub uninterp spec fn given_values(m: getopts::Matches) -> Map<Seq<char>, Option<Seq<char>>>;

/// The names that declaring an option with these short and long names adds:
/// an empty name stands for "none".
pub open spec fn names_of(short: Seq<char>, long: Seq<char>) -> Set<Seq<char>> {
    let s = if short.len() == 0 { Set::empty() } else { Set::empty().insert(short) };
    if long.len() == 0 { s } else { s.insert(long) }
}

/// A short name is empty or one ASCII character; a long name is empty or
/// longer than one character; at least one of them is given.
pub open spec fn valid_names(short: Seq<char>, long: Seq<char>) -> bool {
    &&& short.len() == 0 || (short.len() == 1 && (short[0] as u32) < 128)
    &&& long.len() == 0 || long.len() >= 2
    &&& short.len() + long.len() > 0
}

/// Whether `c` is an ASCII decimal digit.
pub open spec fn is_digit(c: char) -> bool {
    '0' <= c && c <= '9'
}

/// The number that a string of decimal digits writes.
pub open spec fn digits_value(s: Seq<char>) -> nat
    decreases s.len(),
{
    if s.len() == 0 {
        0
    } else {
        digits_value(s.drop_last()) * 10 + ((s.last() as u32) - ('0' as u32)) as nat
    }
}

/// What `u64`'s `FromStr` accepts: an optional `+` followed by one or more
/// decimal digits, whose value fits in 64 bits.
pub open spec fn decimal_u64(s: Seq<char>) -> Option<u64> {
    let d = if s.len() > 0 && s[0] == '+' { s.drop_first() } else { s };
    if d.len() > 0 && (forall|i: int| 0 <= i < d.len() ==> is_digit(#[trigger] d[i]))
        && digits_value(d) <= u64::MAX {
        Some(digits_value(d) as u64)
    } else {
        None
    }
}

/// What reading the option `name` as a `u64` gives: `Some(None)` when it was
/// not given with a value, `Some(Some(n))` when its value is the number `n`,
/// and `None` when its value is not a number.
pub open spec fn u64_reading(given: Map<Seq<char>, Option<Seq<char>>>, name: Seq<char>) -> Option<Option<u64>> {
    if !given.contains_key(name) || given[name] is None {
        Some(None)
    } else {
        match decimal_u64(given[name]->Some_0) {
            Some(n) => Some(Some(n)),
            None => None,
        }
    }
}

/// Relies on `getopts::Options::new`: a blank set of options, with the
/// parser's default style.
#[verifier::external_body]
pub(crate) fn new_options() -> (r: getopts::Options)
    ensures
        declared_names(r) == Set::<Seq<char>>::empty(),
        declared_specs(r).len() == 0,
        declared_descriptions(r).len() == 0,
        all_optional(r),
{
    getopts::Options::new()
}

/// Relies on `getopts::Options::optopt`: declares an optional option that
/// takes a value; it panics on names that `valid_names` rules out.
#[verifier::external_body]
pub(crate) fn add_option(o: &mut getopts::Options, short: &str, long: &str, desc: &str, hint: &str)
    requires
        valid_names(short@, long@),
    ensures
        declared_names(*final(o)) == declared_names(*old(o)).union(names_of(short@, long@)),
        declared_specs(*final(o)) == declared_specs(*old(o)).push((short@, long@, true)),
        declared_descriptions(*final(o)) == declared_descriptions(*old(o)).push(desc@),
        all_optional(*final(o)) == all_optional(*old(o)),
{
    o.optopt(short, long, desc, hint);
}

/// Relies on `getopts::Options::optflag`: declares an optional flag, which
/// takes no value; it panics on names that `valid_names` rules out.
#[verifier::external_body]
pub(crate) fn add_flag(o: &mut getopts::Options, short: &str, long: &str, desc: &str)
    requires
        valid_names(short@, long@),
    ensures
        declared_names(*final(o)) == declared_names(*old(o)).union(names_of(short@, long@)),
        declared_specs(*final(o)) == declared_specs(*old(o)).push((short@, long@, false)),
        declared_descriptions(*final(o)) == declared_descriptions(*old(o)).push(desc@),
        all_optional(*final(o)) == all_optional(*old(o)),
{
    o.optflag(short, long, desc);
}

/// Relies on `getopts::Options::parse`, whose outcome depends on the declared
/// options and the arguments alone: on success every declared name can be
/// queried; no arguments give nothing; a lone `-x`, for a flag `x` that
/// shares no name, gives that flag alone; `-x v`, for such an option `x`
/// that takes a value, gives `x` alone with the value `v`. A failure is
/// turned into its message.
#[verifier::external_body]
pub(crate) fn parse_args(o: &getopts::Options, args: &Vec<String>) -> (r: Result<getopts::Matches, String>)
    requires
        all_optional(*o),
    ensures
        (r is Ok) == (getopts_given(declared_specs(*o), views_of(args@)) is Some),
        r is Ok ==> given_values(r->Ok_0) == getopts_given(declared_specs(*o), views_of(args@))->Some_0,
        r is Ok ==> queryable_names(r->Ok_0) == declared_names(*o),
        args@.len() == 0 ==> r is Ok && given_values(r->Ok_0).dom() == Set::<Seq<char>>::empty(),
        forall|k: int| #[trigger] unique_short(declared_specs(*o), k) && !declared_specs(*o)[k].2
            && args@.len() == 1 && args@[0]@ == seq!['-'] + declared_specs(*o)[k].0
            ==> r is Ok && given_values(r->Ok_0).dom() == names_of(declared_specs(*o)[k].0, declared_specs(*o)[k].1),
        forall|k: int| #[trigger] unique_short(declared_specs(*o), k) && declared_specs(*o)[k].2
            && args@.len() == 2 && args@[0]@ == seq!['-'] + declared_specs(*o)[k].0
            ==> r is Ok && given_values(r->Ok_0).dom() == names_of(declared_specs(*o)[k].0, declared_specs(*o)[k].1)
                && given_values(r->Ok_0)[declared_specs(*o)[k].0] == Some(args@[1]@),
{
    o.parse(args).map_err(|e| e.to_string())
}

/// Relies on `getopts::Matches::opt_present`: whether the option was given;
/// it panics on a name that was not declared.
#[verifier::external_body]
pub(crate) fn opt_present(m: &getopts::Matches, name: &str) -> (r: bool)
    requires
        queryable_names(*m).contains(name@),
    ensures
        r == given_values(*m).contains_key(name@),
{
    m.opt_present(name)
}

/// Relies on `getopts::Matches::opt_str`: the value of the option's first
/// occurrence, if it was given with one.
#[verifier::external_body]
pub(crate) fn opt_str(m: &getopts::Matches, name: &str) -> (r: Option<String>)
    requires
        queryable_names(*m).contains(name@),
    ensures
        (r is Some) == (given_values(*m).contains_key(name@) && given_values(*m)[name@] is Some),
        r is Some ==> given_values(*m)[name@] == Some(r->Some_0@),
{
    m.opt_str(name)
}

/// Relies on `getopts::Matches::opt_get::<u64>`, which reads the option's
/// first value with `u64`'s `FromStr`; a failure is turned into its message.
#[verifier::external_body]
pub(crate) fn opt_get_u64(m: &getopts::Matches, name: &str) -> (r: Result<Option<u64>, String>)
    requires
        queryable_names(*m).contains(name@),
    ensures
        (r is Ok) == (u64_reading(given_values(*m), name@) is Some),
        r is Ok ==> u64_reading(given_values(*m), name@) == Some(r->Ok_0),
{
    m.opt_get::<u64>(name).map_err(|e| e.to_string())
}

} // verus!
