use vstd::prelude::*;
use crate::geometry::{Point2Di, Size2Di};
use crate::text::push_str;
use crate::cmdline::{
    arg_lexable, is_ascii_char, is_short_cluster, lex_cmdline, lex_spec, lexed_view, lexer_input_ok,
    short_arg_chars, OptSpec,
};

verus! {

/// A value of the `-X` option.
#[derive(Debug, Clone, Copy, PartialEq, Eq, Structural)]
pub enum OptUcXParam {
    Help,
    PackageVersionInfo,
}

/// The parsed command line.
pub struct CmdOptConf {
    /// The program's name, as used in messages.
    pub prog_name: String,
    /// `-c, --config <file>`: the configuration file's path.
    pub opt_config: Option<String>,
    /// `-X <x-options>`, in the order given.
    pub opt_uc_x: Vec<OptUcXParam>,
    /// The free arguments: the first is an image to open.
    pub arg_params: Vec<String>,
}

pub open spec fn has_uc_x(v: Seq<OptUcXParam>, p: OptUcXParam) -> bool {
    exists|i: int| 0 <= i < v.len() && v[i] == p
}

fn contains_uc_x(v: &Vec<OptUcXParam>, p: OptUcXParam) -> (b: bool)
    ensures
        b == has_uc_x(v@, p),
{
    let mut i: usize = 0;
    while i < v.len()
        invariant
            i <= v.len(),
            forall|j: int| 0 <= j < i ==> v@[j] != p,
        decreases v.len() - i,
    {
        if v[i] == p {
            return true;
        }
        i += 1;
    }
    false
}

impl CmdOptConf {
    /// Whether `-X help` was given.
    pub fn is_opt_uc_x_help(&self) -> (b: bool)
        ensures
            b == has_uc_x(self.opt_uc_x@, OptUcXParam::Help),
    {
        contains_uc_x(&self.opt_uc_x, OptUcXParam::Help)
    }

    /// Whether `-X package-version-info` was given.
    pub fn is_opt_uc_x_package_version_info(&self) -> (b: bool)
        ensures
            b == has_uc_x(self.opt_uc_x@, OptUcXParam::PackageVersionInfo),
    {
        contains_uc_x(&self.opt_uc_x, OptUcXParam::PackageVersionInfo)
    }

    /// The image to open at start-up: the first free argument, or the
    /// empty string when there is none.
    pub fn image_path(&self) -> (p: String)
        ensures
            self.arg_params@.len() > 0 ==> p@ == self.arg_params@[0]@,
            self.arg_params@.len() == 0 ==> p@ == Seq::<char>::empty(),
    {
        if self.arg_params.len() > 0 {
            self.arg_params[0].clone()
        } else {
            String::new()
        }
    }
}

/// The window settings kept in the configuration file.
pub struct WindowProfile {
    pub geometry_x: i32,
    pub geometry_y: i32,
    pub geometry_w: i32,
    pub geometry_h: i32,
    pub decorated: bool,
    pub sticky: bool,
    pub above: bool,
    pub below: bool,
}

/// The main window's state when it is closed.
pub struct WindowObservation {
    pub maximized: bool,
    pub position: Point2Di,
    pub size: Size2Di,
    pub decorated: bool,
    pub sticky: bool,
    pub above: bool,
    pub below: bool,
}

impl WindowProfile {
    /// Records the closing window's state: its position and size unless it
    /// is maximized (then the last unmaximized geometry stays), and its
    /// decoration, sticky, above and below flags.
    pub fn record_window_state(&mut self, obs: &WindowObservation)
        ensures
            obs.maximized ==> (final(self).geometry_x == old(self).geometry_x
                && final(self).geometry_y == old(self).geometry_y
                && final(self).geometry_w == old(self).geometry_w
                && final(self).geometry_h == old(self).geometry_h),
            !obs.maximized ==> (final(self).geometry_x == obs.position@.0
                && final(self).geometry_y == obs.position@.1
                && final(self).geometry_w == obs.size@.0
                && final(self).geometry_h == obs.size@.1),
            final(self).decorated == obs.decorated,
            final(self).sticky == obs.sticky,
            final(self).above == obs.above,
            final(self).below == obs.below,
    {
        if !obs.maximized {
            self.geometry_x = obs.position.x();
            self.geometry_y = obs.position.y();
            self.geometry_w = obs.size.w();
            self.geometry_h = obs.size.h();
        }
        self.decorated = obs.decorated;
        self.sticky = obs.sticky;
        self.above = obs.above;
        self.below = obs.below;
    }
}


/// The configuration file's name.
pub open spec fn config_file_name() -> Seq<char> {
    "aki-image-view-gtk.conf"@
}

/// The configuration file's path: the one given with `-c`; else the file
/// under `$HOME/.config/`; else, without `HOME`, the name right after
/// `/etc` (no separator between them).
pub open spec fn config_path_spec(opt_config: Option<Seq<char>>, home: Option<Seq<char>>) -> Seq<char> {
    match opt_config {
        Some(p) => p,
        None => match home {
            Some(h) => h + "/.config/"@ + config_file_name(),
            None => "/etc"@ + config_file_name(),
        },
    }
}

/// Where the configuration is read from and written to, given the `-c`
/// option and the `HOME` variable (each when there is one).
pub fn config_file_path(opt_config: Option<String>, home: Option<String>) -> (path: String)
    ensures
        path@ == config_path_spec(
            (match opt_config { Some(p) => Some(p@), None => None }),
            (match home { Some(h) => Some(h@), None => None }),
        ),
{
    match opt_config {
        Some(p) => p,
        None => {
            let mut path = match home {
                Some(h) => {
                    let mut s = h;
                    push_str(&mut s, "/.config/");
                    s
                },
                None => String::from_str("/etc"),
            };
            push_str(&mut path, "aki-image-view-gtk.conf");
            path
        },
    }
}


/// Number of `-c, --config`.
pub const CMD_OP_CONFIG: u8 = 1;
/// Number of `-H, --help`.
pub const CMD_OP_HELP: u8 = 2;
/// Number of `-V, --version`.
pub const CMD_OP_VERSION: u8 = 3;
/// Number of `-X`.
pub const CMD_OP_UC_X: u8 = 4;

/// The option table, sorted by long name: `-X <x-options>`,
/// `-c, --config <file>`, `-H, --help`, `-V, --version` (short names as
/// ASCII bytes).
pub open spec fn cmd_opt_table_spec() -> Seq<(u8, Seq<char>, bool, u8)> {
    seq![
        (88u8, Seq::<char>::empty(), true, CMD_OP_UC_X),
        (99u8, "config"@, true, CMD_OP_CONFIG),
        (72u8, "help"@, false, CMD_OP_HELP),
        (86u8, "version"@, false, CMD_OP_VERSION),
    ]
}

/// The short names `H`, `V`, `X`, `c` (bytes 72, 86, 88, 99) in byte
/// order, each with its row.
pub open spec fn cmd_sho_idx_spec() -> Seq<(u8, usize)> {
    seq![(72u8, 2usize), (86u8, 3usize), (88u8, 0usize), (99u8, 1usize)]
}

/// The short options that take a value: `X` and `c`.
pub open spec fn cmd_arg_chars() -> Set<char> {
    set!['X', 'c']
}

/// Command lines that the lexer walks without failing: no short-option
/// cluster holds a non-ASCII character before its `-X` or `-c`.
pub open spec fn cmdline_args_ok(args: Seq<Seq<char>>) -> bool {
    forall|i: int| 0 <= i < args.len() ==> arg_lexable(#[trigger] args[i], cmd_arg_chars())
}

fn cmd_opt_table() -> (t: Vec<OptSpec>)
    ensures
        t.deep_view() == cmd_opt_table_spec(),
{
    let mut t: Vec<OptSpec> = Vec::new();
    t.push(OptSpec { sho: 88u8, lon: String::new(), has_arg: true, num: CMD_OP_UC_X });
    t.push(OptSpec { sho: 99u8, lon: String::from_str("config"), has_arg: true, num: CMD_OP_CONFIG });
    t.push(OptSpec { sho: 72u8, lon: String::from_str("help"), has_arg: false, num: CMD_OP_HELP });
    t.push(OptSpec { sho: 86u8, lon: String::from_str("version"), has_arg: false, num: CMD_OP_VERSION });
    assert(t.deep_view() =~= cmd_opt_table_spec());
    t
}

fn cmd_sho_idx() -> (t: Vec<(u8, usize)>)
    ensures
        t@ == cmd_sho_idx_spec(),
{
    let mut t: Vec<(u8, usize)> = Vec::new();
    t.push((72u8, 2usize));
    t.push((86u8, 3usize));
    t.push((88u8, 0usize));
    t.push((99u8, 1usize));
    assert(t@ =~= cmd_sho_idx_spec());
    t
}

proof fn lemma_cmd_arg_chars()
    ensures
        short_arg_chars(cmd_opt_table_spec(), cmd_sho_idx_spec()) == cmd_arg_chars(),
{
    let table = cmd_opt_table_spec();
    let idx = cmd_sho_idx_spec();
    assert('X' as int == 88 && 'c' as int == 99);
    assert forall|c: char| #[trigger] short_arg_chars(table, idx).contains(c) implies cmd_arg_chars().contains(c) by {
        let k = choose|k: int|
            0 <= k < idx.len() && idx[k].0 as int == c as int && #[trigger] table[idx[k].1 as int].2;
        assert(k == 2 || k == 3);
        if k == 2 {
            assert(c as int == 88);
        } else {
            assert(c as int == 99);
        }
    }
    assert forall|c: char| #[trigger] cmd_arg_chars().contains(c) implies short_arg_chars(table, idx).contains(c) by {
        if c == 'X' {
            assert(idx[2].0 as int == c as int && table[idx[2].1 as int].2);
        } else {
            assert(idx[3].0 as int == c as int && table[idx[3].1 as int].2);
        }
    }
    assert(short_arg_chars(table, idx) =~= cmd_arg_chars());
}


/// Whether every argument can be handed to the lexer (see
/// `cmdline_args_ok`).
pub fn cmdline_args_lexable(args: &Vec<String>) -> (b: bool)
    ensures
        b == cmdline_args_ok(args.deep_view()),
{
    let mut i: usize = 0;
    while i < args.len()
        invariant
            i <= args.len(),
            forall|k: int| 0 <= k < i ==> arg_lexable(#[trigger] args.deep_view()[k], cmd_arg_chars()),
        decreases args.len() - i,
    {
        if !arg_is_lexable(args[i].as_str()) {
            assert(!arg_lexable(args.deep_view()[i as int], cmd_arg_chars()));
            return false;
        }
        i += 1;
    }
    true
}

fn arg_is_lexable(a: &str) -> (b: bool)
    ensures
        b == arg_lexable(a@, cmd_arg_chars()),
{
    let n = a.unicode_len();
    if n == 0 || a.get_char(0) != '-' {
        return true;
    }
    if n >= 2 && a.get_char(1) == '-' {
        return true;
    }
    let ghost tail = a@.drop_first();
    assert(is_short_cluster(a@));
    let mut j: usize = 1;
    while j < n
        invariant
            1 <= j <= n,
            n == a@.len(),
            tail == a@.drop_first(),
            is_short_cluster(a@),
            forall|k: int| 0 <= k < j - 1 ==> is_ascii_char(#[trigger] tail[k]) && !cmd_arg_chars().contains(tail[k]),
        decreases n - j,
    {
        let c = a.get_char(j);
        assert(tail[j - 1] == c);
        if (c as u32) >= 128 {
            assert((c as u32) as int == c as int);
            assert(!is_ascii_char(tail[j - 1]));
            return false;
        }
        if c == 'X' || c == 'c' {
            assert forall|i: int|
                #![trigger tail[i]]
                0 <= i < tail.len() && (forall|jj: int| 0 <= jj < i ==> !cmd_arg_chars().contains(#[trigger] tail[jj]))
                    implies is_ascii_char(tail[i]) by {
                if i > j - 1 {
                    assert(cmd_arg_chars().contains(tail[j - 1]));
                }
            }
            return true;
        }
        j += 1;
    }
    true
}

/// What the options met so far have set.
pub struct OptFold {
    pub config: Option<Seq<char>>,
    pub uc_x: Seq<OptUcXParam>,
    pub errors: Seq<Seq<char>>,
    pub help: bool,
    pub version: bool,
}

pub open spec fn opt_fold_start() -> OptFold {
    OptFold { config: None, uc_x: Seq::empty(), errors: Seq::empty(), help: false, version: false }
}

/// The `-X` values: `help` and `package-version-info`.
pub open spec fn uc_x_param_spec(v: Seq<char>) -> Option<OptUcXParam> {
    if v == "help"@ {
        Some(OptUcXParam::Help)
    } else if v == "package-version-info"@ {
        Some(OptUcXParam::PackageVersionInfo)
    } else {
        None
    }
}

pub open spec fn invalid_uc_x_msg(v: Seq<char>) -> Seq<char> {
    "Invalid option argument: X: "@ + v
}

pub open spec fn missing_value_msg(name: Seq<char>) -> Seq<char> {
    "Missing option argument: "@ + name
}

/// One option met: `-H` and `-V` raise their flags, `-c` sets the
/// configuration path, `-X` appends its value or, for an unknown value,
/// an error; an option without its value is an error.
pub open spec fn apply_opt(st: OptFold, nv: (u8, Option<Seq<char>>)) -> OptFold {
    if nv.0 == CMD_OP_HELP {
        OptFold { help: true, ..st }
    } else if nv.0 == CMD_OP_VERSION {
        OptFold { version: true, ..st }
    } else if nv.0 == CMD_OP_CONFIG {
        match nv.1 {
            Some(v) => OptFold { config: Some(v), ..st },
            None => OptFold { errors: st.errors.push(missing_value_msg("config"@)), ..st },
        }
    } else if nv.0 == CMD_OP_UC_X {
        match nv.1 {
            Some(v) => match uc_x_param_spec(v) {
                Some(p) => OptFold { uc_x: st.uc_x.push(p), ..st },
                None => OptFold { errors: st.errors.push(invalid_uc_x_msg(v)), ..st },
            },
            None => OptFold { errors: st.errors.push(missing_value_msg("X"@)), ..st },
        }
    } else {
        st
    }
}

/// The options met, in order, up to and including the first `-H` or `-V`.
pub open spec fn fold_opts(st: OptFold, nvs: Seq<(u8, Option<Seq<char>>)>) -> OptFold
    decreases nvs.len(),
{
    if nvs.len() == 0 || st.help || st.version {
        st
    } else {
        fold_opts(apply_opt(st, nvs[0]), nvs.drop_first())
    }
}

/// Why no configuration came of the command line.
pub enum CmdOptError {
    /// `-H, --help`: show the help text.
    Help,
    /// `-V, --version`: show the version.
    Version,
    /// The messages of the errors found.
    Invalid(Vec<String>),
}

/// A parse's outcome as plain values.
pub enum CmdLineOutcome {
    Conf { prog_name: Seq<char>, config: Option<Seq<char>>, uc_x: Seq<OptUcXParam>, args: Seq<Seq<char>> },
    Help,
    Version,
    Invalid(Seq<Seq<char>>),
}

pub open spec fn outcome_view(r: Result<CmdOptConf, CmdOptError>) -> CmdLineOutcome {
    match r {
        Ok(c) => CmdLineOutcome::Conf {
            prog_name: c.prog_name@,
            config: c.opt_config.deep_view(),
            uc_x: c.opt_uc_x@,
            args: c.arg_params.deep_view(),
        },
        Err(CmdOptError::Help) => CmdLineOutcome::Help,
        Err(CmdOptError::Version) => CmdLineOutcome::Version,
        Err(CmdOptError::Invalid(m)) => CmdLineOutcome::Invalid(m.deep_view()),
    }
}

/// The outcome of a command line that the lexer split into `lexed`: its
/// errors, if it failed; else help or version when the first of them met
/// asks for it; else the errors of the option values, if any; else the
/// configuration, the free arguments being the image paths.
pub open spec fn cmdline_outcome(
    program: Seq<char>,
    lexed: Result<(Seq<(u8, Option<Seq<char>>)>, Seq<Seq<char>>), Seq<Seq<char>>>,
) -> CmdLineOutcome {
    match lexed {
        Err(m) => CmdLineOutcome::Invalid(m),
        Ok(t) => {
            let st = fold_opts(opt_fold_start(), t.0);
            if st.help {
                CmdLineOutcome::Help
            } else if st.version {
                CmdLineOutcome::Version
            } else if st.errors.len() > 0 {
                CmdLineOutcome::Invalid(st.errors)
            } else {
                CmdLineOutcome::Conf { prog_name: program, config: st.config, uc_x: st.uc_x, args: t.1 }
            }
        },
    }
}

fn uc_x_param(v: &String) -> (p: Option<OptUcXParam>)
    ensures
        p == uc_x_param_spec(v@),
{
    if *v == String::from_str("help") {
        Some(OptUcXParam::Help)
    } else if *v == String::from_str("package-version-info") {
        Some(OptUcXParam::PackageVersionInfo)
    } else {
        None
    }
}

fn invalid_uc_x_message(v: &String) -> (m: String)
    ensures
        m@ == invalid_uc_x_msg(v@),
{
    let mut m = String::new();
    push_str(&mut m, "Invalid option argument: X: ");
    push_str(&mut m, v.as_str());
    assert(m@ =~= invalid_uc_x_msg(v@));
    m
}

fn missing_value_message(name: &str) -> (m: String)
    ensures
        m@ == missing_value_msg(name@),
{
    let mut m = String::new();
    push_str(&mut m, "Missing option argument: ");
    push_str(&mut m, name);
    assert(m@ =~= missing_value_msg(name@));
    m
}

/// Builds the configuration from what the lexer made of the command line
/// (see `cmdline_outcome`); `program` is the name used in messages.
pub fn conf_from_tokens(
    program: &str,
    lexed: Result<(Vec<(u8, Option<String>)>, Vec<String>), Vec<String>>,
) -> (r: Result<CmdOptConf, CmdOptError>)
    ensures
        outcome_view(r) == cmdline_outcome(program@, lexed_view(lexed)),
{
    match lexed {
        Err(msgs) => Err(CmdOptError::Invalid(msgs)),
        Ok((nvs, free)) => {
            let ghost nvs_v = nvs.deep_view();
            let mut config: Option<String> = None;
            let mut uc_x: Vec<OptUcXParam> = Vec::new();
            let mut errors: Vec<String> = Vec::new();
            let mut help = false;
            let mut version = false;
            let mut i: usize = 0;
            assert(errors.deep_view() =~= Seq::<Seq<char>>::empty());
            assert(uc_x@ =~= Seq::<OptUcXParam>::empty());
            assert(nvs_v.skip(0) =~= nvs_v);
            while i < nvs.len() && !help && !version
                invariant
                    i <= nvs.len(),
                    nvs_v == nvs.deep_view(),
                    fold_opts(opt_fold_start(), nvs_v) == fold_opts(
                        OptFold { config: config.deep_view(), uc_x: uc_x@, errors: errors.deep_view(), help, version },
                        nvs_v.skip(i as int),
                    ),
                decreases nvs.len() - i,
            {
                let ghost before = OptFold {
                    config: config.deep_view(),
                    uc_x: uc_x@,
                    errors: errors.deep_view(),
                    help,
                    version,
                };
                let num = nvs[i].0;
                if num == CMD_OP_HELP {
                    help = true;
                } else if num == CMD_OP_VERSION {
                    version = true;
                } else if num == CMD_OP_CONFIG {
                    match &nvs[i].1 {
                        Some(v) => {
                            config = Some(v.clone());
                        },
                        None => {
                            errors.push(missing_value_message("config"));
                            assert(errors.deep_view() =~= before.errors.push(missing_value_msg("config"@)));
                        },
                    }
                } else if num == CMD_OP_UC_X {
                    match &nvs[i].1 {
                        Some(v) => match uc_x_param(v) {
                            Some(p) => {
                                uc_x.push(p);
                            },
                            None => {
                                errors.push(invalid_uc_x_message(v));
                                assert(errors.deep_view() =~= before.errors.push(invalid_uc_x_msg(v@)));
                            },
                        },
                        None => {
                            errors.push(missing_value_message("X"));
                            assert(errors.deep_view() =~= before.errors.push(missing_value_msg("X"@)));
                        },
                    }
                }
                proof {
                    let after = OptFold {
                        config: config.deep_view(),
                        uc_x: uc_x@,
                        errors: errors.deep_view(),
                        help,
                        version,
                    };
                    assert(nvs_v.skip(i as int)[0] == nvs_v[i as int]);
                    assert(nvs_v.skip(i as int).drop_first() =~= nvs_v.skip(i + 1));
                    assert(after == apply_opt(before, nvs_v[i as int]));
                }
                i += 1;
            }
            if help {
                Err(CmdOptError::Help)
            } else if version {
                Err(CmdOptError::Version)
            } else if errors.len() > 0 {
                Err(CmdOptError::Invalid(errors))
            } else {
                Ok(CmdOptConf {
                    prog_name: String::from_str(program),
                    opt_config: config,
                    opt_uc_x: uc_x,
                    arg_params: free,
                })
            }
        },
    }
}

/// Parses the command line `args` (the program's name left out): the
/// options `-c, --config <file>`, `-H, --help`, `-V, --version` and
/// `-X <x-options>`, the rest being free arguments, as `cmdline_outcome`
/// says of what the lexer makes of them.
pub fn parse_cmdopts(program: &str, args: &Vec<String>) -> (r: Result<CmdOptConf, CmdOptError>)
    requires
        cmdline_args_ok(args.deep_view()),
    ensures
        outcome_view(r) == cmdline_outcome(
            program@,
            lex_spec(cmd_opt_table_spec(), cmd_sho_idx_spec(), args.deep_view()),
        ),
{
    let table = cmd_opt_table();
    let idx = cmd_sho_idx();
    proof {
        lemma_cmd_arg_chars();
        assert(lexer_input_ok(table.deep_view(), idx@, args.deep_view()));
    }
    let lexed = lex_cmdline(&table, &idx, args);
    conf_from_tokens(program, lexed)
}


/// `-H` or `-V` as the first option decides the outcome, whatever follows.
pub proof fn lemma_first_help_or_version_wins(
    program: Seq<char>,
    first: (u8, Option<Seq<char>>),
    rest: Seq<(u8, Option<Seq<char>>)>,
    free: Seq<Seq<char>>,
)
    ensures
        first.0 == CMD_OP_HELP ==> cmdline_outcome(program, Ok((seq![first] + rest, free))) == CmdLineOutcome::Help,
        first.0 == CMD_OP_VERSION ==> cmdline_outcome(program, Ok((seq![first] + rest, free)))
            == CmdLineOutcome::Version,
{
    let nvs = seq![first] + rest;
    assert(nvs[0] == first);
    if first.0 == CMD_OP_HELP || first.0 == CMD_OP_VERSION {
        let st1 = apply_opt(opt_fold_start(), first);
        assert(fold_opts(st1, nvs.drop_first()) == st1);
    }
}

/// Valid `-X` values are kept in the order given: options `-X v1 ... -X vk`
/// append `v1 ... vk` after the values already kept, and change nothing
/// else.
pub proof fn lemma_uc_x_values_in_order(st: OptFold, vs: Seq<Seq<char>>)
    requires
        !st.help,
        !st.version,
        forall|i: int| 0 <= i < vs.len() ==> #[trigger] uc_x_param_spec(vs[i]) is Some,
    ensures
        fold_opts(st, vs.map_values(|v: Seq<char>| (CMD_OP_UC_X, Some(v))))
            == (OptFold { uc_x: st.uc_x + vs.map_values(|v: Seq<char>| uc_x_param_spec(v)->0), ..st }),
    decreases vs.len(),
{
    let nvs = vs.map_values(|v: Seq<char>| (CMD_OP_UC_X, Some(v)));
    if vs.len() == 0 {
        assert(st.uc_x + vs.map_values(|v: Seq<char>| uc_x_param_spec(v)->0) =~= st.uc_x);
    } else {
        assert(uc_x_param_spec(vs[0]) is Some);
        let st1 = apply_opt(st, nvs[0]);
        assert(st1 == (OptFold { uc_x: st.uc_x.push(uc_x_param_spec(vs[0])->0), ..st }));
        assert(nvs.drop_first() =~= vs.drop_first().map_values(|v: Seq<char>| (CMD_OP_UC_X, Some(v))));
        assert forall|i: int| 0 <= i < vs.drop_first().len() implies #[trigger] uc_x_param_spec(
            vs.drop_first()[i],
        ) is Some by {
            assert(vs.drop_first()[i] == vs[i + 1]);
        }
        lemma_uc_x_values_in_order(st1, vs.drop_first());
        assert(st1.uc_x + vs.drop_first().map_values(|v: Seq<char>| uc_x_param_spec(v)->0)
            =~= st.uc_x + vs.map_values(|v: Seq<char>| uc_x_param_spec(v)->0));
    }
}

/// Of several `-c` options the last one gives the configuration path.
pub proof fn lemma_last_config_wins(st: OptFold, vs: Seq<Seq<char>>)
    requires
        !st.help,
        !st.version,
        vs.len() > 0,
    ensures
        fold_opts(st, vs.map_values(|v: Seq<char>| (CMD_OP_CONFIG, Some(v))))
            == (OptFold { config: Some(vs.last()), ..st }),
    decreases vs.len(),
{
    let nvs = vs.map_values(|v: Seq<char>| (CMD_OP_CONFIG, Some(v)));
    let st1 = apply_opt(st, nvs[0]);
    assert(nvs.drop_first() =~= vs.drop_first().map_values(|v: Seq<char>| (CMD_OP_CONFIG, Some(v))));
    if vs.len() == 1 {
        assert(fold_opts(st1, nvs.drop_first()) == st1);
    } else {
        lemma_last_config_wins(st1, vs.drop_first());
    }
}

} // verus!
