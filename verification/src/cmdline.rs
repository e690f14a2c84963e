//! Splitting the command line into options and free arguments, which the
//! `flood-tide` lexer does.
use vstd::prelude::*;
use flood_tide::{Arg, Lex, Opt};

verus! {

/// One row of an option table: the short name (an ASCII byte, `0` for
/// none), the long name (empty for none), whether the option takes a value,
/// and the number by which the option is told apart.
pub struct OptSpec {
    pub sho: u8,
    pub lon: String,
    pub has_arg: bool,
    pub num: u8,
}

impl DeepView for OptSpec {
    type V = (u8, Seq<char>, bool, u8);

    open spec fn deep_view(&self) -> (u8, Seq<char>, bool, u8) {
        (self.sho, self.lon@, self.has_arg, self.num)
    }
}

/// What the lexer makes of `args` with an option table and its index of
/// short names: on success the options met, each as its number and its
/// value (in the order given), and the free arguments; else the messages
/// of the errors found.
pub uninterp spec fn lex_spec(
    table: Seq<(u8, Seq<char>, bool, u8)>,
    sho_idx: Seq<(u8, usize)>,
    args: Seq<Seq<char>>,
) -> Result<(Seq<(u8, Option<Seq<char>>)>, Seq<Seq<char>>), Seq<Seq<char>>>;

/// A lexer result as plain values.
pub open spec fn lexed_view(r: Result<(Vec<(u8, Option<String>)>, Vec<String>), Vec<String>>) -> Result<
    (Seq<(u8, Option<Seq<char>>)>, Seq<Seq<char>>),
    Seq<Seq<char>>,
> {
    match r {
        Ok(t) => Ok((t.0.deep_view(), t.1.deep_view())),
        Err(e) => Err(e.deep_view()),
    }
}

pub open spec fn is_ascii_char(c: char) -> bool {
    (c as int) < 128
}

/// The short names of the options that take a value.
pub open spec fn short_arg_chars(
    table: Seq<(u8, Seq<char>, bool, u8)>,
    sho_idx: Seq<(u8, usize)>,
) -> Set<char> {
    Set::new(
        |c: char|
            exists|k: int|
                0 <= k < sho_idx.len() && sho_idx[k].0 as int == c as int && #[trigger] table[sho_idx[k].1 as int].2,
    )
}

/// A cluster of short options (`tail`, after its `-`) that the lexer can
/// walk: each character is ASCII up to the first option that takes a value
/// (the rest of the cluster is that value).
pub open spec fn cluster_lexable(tail: Seq<char>, arg_chars: Set<char>) -> bool {
    forall|i: int|
        #![trigger tail[i]]
        0 <= i < tail.len() && (forall|j: int| 0 <= j < i ==> !arg_chars.contains(#[trigger] tail[j]))
            ==> is_ascii_char(tail[i])
}

/// An argument that the lexer reads as a cluster of short options: a `-`
/// not followed by a second `-`.
pub open spec fn is_short_cluster(a: Seq<char>) -> bool {
    a.len() >= 1 && a[0] == '-' && !(a.len() >= 2 && a[1] == '-')
}

/// An argument that the lexer takes without failing.
pub open spec fn arg_lexable(a: Seq<char>, arg_chars: Set<char>) -> bool {
    is_short_cluster(a) ==> cluster_lexable(a.drop_first(), arg_chars)
}

/// The lexer's own demands: short names are ASCII, sorted and distinct,
/// each indexing a row of the table; and every argument can be walked.
pub open spec fn lexer_input_ok(
    table: Seq<(u8, Seq<char>, bool, u8)>,
    sho_idx: Seq<(u8, usize)>,
    args: Seq<Seq<char>>,
) -> bool {
    &&& forall|k: int| 0 <= k < sho_idx.len() ==> #[trigger] sho_idx[k].0 < 128 && sho_idx[k].1 < table.len()
    &&& forall|k1: int, k2: int|
        0 <= k1 < k2 < sho_idx.len() ==> #[trigger] sho_idx[k1].0 < #[trigger] sho_idx[k2].0
    &&& forall|i: int| 0 <= i < args.len() ==> arg_lexable(#[trigger] args[i], short_arg_chars(table, sho_idx))
}

/// Runs `flood_tide::Lex::create_with(table, sho_idx).tokens_from(args)`.
/// Claimed: the result, the options and free arguments or the errors'
/// messages (as their `Display` writes them), is `lex_spec` of the
/// arguments. The lexer panics when a short-option cluster holds a
/// multi-byte character before its first option that takes a value, or
/// when the index names a row the table lacks: `requires` leaves those out.
#[verifier::external_body]
pub(crate) fn lex_cmdline(table: &Vec<OptSpec>, sho_idx: &Vec<(u8, usize)>, args: &Vec<String>) -> (r:
    Result<(Vec<(u8, Option<String>)>, Vec<String>), Vec<String>>)
    requires
        lexer_input_ok(table.deep_view(), sho_idx@, args.deep_view()),
    ensures
        lexed_view(r) == lex_spec(table.deep_view(), sho_idx@, args.deep_view()),
{
    let opts: Vec<Opt> = table.iter().map(|o| Opt {
        sho: o.sho,
        lon: &o.lon,
        has: if o.has_arg { Arg::Yes } else { Arg::No },
        num: o.num,
    }).collect();
    let argv: Vec<&str> = args.iter().map(String::as_str).collect();
    match Lex::create_with(&opts, sho_idx).tokens_from(&argv) {
        Ok(t) => Ok((t.namevals.iter().map(|nv| (nv.opt.num, nv.val.map(String::from))).collect(),
            t.free.into_iter().map(String::from).collect())),
        Err(errs) => Err(errs.iter().map(ToString::to_string).collect()),
    }
}

} // verus!
