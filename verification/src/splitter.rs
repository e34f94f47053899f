//! Splitting of the arguments that follow the `run` command word into a
//! sequence of leading launcher options and one target file name.
//!
//! A token is an option when its first character is `-`. Scanning stops at
//! the first non-option token, which becomes the target; tokens after the
//! target are not inspected.

use vstd::prelude::*;

verus! {

/// A token is a launcher option when its first character is `-`.
pub open spec fn is_option_token(t: Seq<char>) -> bool {
    t.len() > 0 && t[0] == '-'
}

/// The views of a sequence of tokens.
pub open spec fn views_of(tokens: Seq<String>) -> Seq<Seq<char>> {
    tokens.map_values(|t: String| t@)
}

/// The length of the maximal prefix of option tokens: the index of the first
/// non-option token, or the length of the sequence when every token is an
/// option.
pub open spec fn option_prefix_len(args: Seq<Seq<char>>) -> int
    decreases args.len(),
{
    if args.len() == 0 {
        0
    } else if !is_option_token(args[0]) {
        0
    } else {
        1 + option_prefix_len(args.drop_first())
    }
}

/// `k` is the length of the maximal prefix of option tokens of `args`.
pub open spec fn is_option_prefix_len(args: Seq<Seq<char>>, k: int) -> bool {
    &&& 0 <= k <= args.len()
    &&& forall|i: int| 0 <= i < k ==> is_option_token(#[trigger] args[i])
    &&& k < args.len() ==> !is_option_token(args[k])
}

/// The maximal prefix of option tokens has exactly one length.
pub proof fn lemma_prefix_len_is(args: Seq<Seq<char>>, k: int)
    requires
        is_option_prefix_len(args, k),
    ensures
        option_prefix_len(args) == k,
    decreases args.len(),
{
    if args.len() == 0 {
    } else if !is_option_token(args[0]) {
        if k > 0 {
            assert(is_option_token(args[0]));
        }
    } else {
        assert(k > 0);
        assert(is_option_prefix_len(args.drop_first(), k - 1)) by {
            assert forall|i: int| 0 <= i < k - 1 implies is_option_token(
                #[trigger] args.drop_first()[i],
            ) by {
                assert(args.drop_first()[i] == args[i + 1]);
            }
            if k - 1 < args.len() - 1 {
                assert(args.drop_first()[k - 1] == args[k]);
            }
        }
        lemma_prefix_len_is(args.drop_first(), k - 1);
    }
}

/// The option tokens that precede the first non-option token, in input order.
pub open spec fn split_options(args: Seq<Seq<char>>) -> Seq<Seq<char>> {
    args.take(option_prefix_len(args))
}

/// The first non-option token, if one exists.
pub open spec fn split_target(args: Seq<Seq<char>>) -> Option<Seq<char>> {
    if option_prefix_len(args) < args.len() {
        Some(args[option_prefix_len(args)])
    } else {
        None
    }
}

/// Decide whether a token is a launcher option, that is, whether its first
/// character is `-`.
pub fn token_is_option(t: &str) -> (r: bool)
    ensures
        r == is_option_token(t@),
{
    if t.unicode_len() == 0 {
        false
    } else {
        t.get_char(0) == '-'
    }
}

/// Split the arguments following `run` into the leading option tokens and the
/// first non-option token (the target file name). Tokens after the target are
/// not inspected; when no non-option token exists, the target is absent.
pub fn split(args: &Vec<String>) -> (r: (Vec<String>, Option<String>))
    ensures
        views_of(r.0@) == split_options(views_of(args@)),
        match r.1 {
            Some(t) => split_target(views_of(args@)) == Some(t@),
            None => split_target(views_of(args@)) is None,
        },
{
    let ghost vs = views_of(args@);
    let mut options: Vec<String> = Vec::new();
    let mut i: usize = 0;
    while i < args.len()
        invariant
            i <= args@.len(),
            options@.len() == i,
            forall|j: int| 0 <= j < i ==> is_option_token(#[trigger] vs[j]),
            forall|j: int| 0 <= j < i ==> #[trigger] options@[j]@ == args@[j]@,
            vs == views_of(args@),
        decreases args@.len() - i,
    {
        if token_is_option(args[i].as_str()) {
            proof {
                assert(vs[i as int] == args@[i as int]@);
            }
            options.push(args[i].clone());
            i += 1;
        } else {
            proof {
                assert(vs[i as int] == args@[i as int]@);
                lemma_prefix_len_is(vs, i as int);
                assert(views_of(options@) =~= split_options(vs));
            }
            let t = args[i].clone();
            return (options, Some(t));
        }
    }
    proof {
        lemma_prefix_len_is(vs, args@.len() as int);
        assert(views_of(options@) =~= split_options(vs));
    }
    (options, None)
}

/// Law: splitting a sequence of option tokens followed by one non-option
/// token yields exactly those options and that token as the target.
pub proof fn lemma_split_round_trip(opts: Seq<Seq<char>>, t: Seq<char>)
    requires
        forall|i: int| 0 <= i < opts.len() ==> is_option_token(#[trigger] opts[i]),
        !is_option_token(t),
    ensures
        split_options(opts.push(t)) == opts,
        split_target(opts.push(t)) == Some(t),
{
    let args = opts.push(t);
    assert(is_option_prefix_len(args, opts.len() as int)) by {
        assert forall|i: int| 0 <= i < opts.len() implies is_option_token(#[trigger] args[i]) by {
            assert(args[i] == opts[i]);
        }
        assert(args[opts.len() as int] == t);
    }
    lemma_prefix_len_is(args, opts.len() as int);
    assert(split_options(args) =~= opts);
}

/// Law: when every token in the input is an option, the whole input is
/// returned as the options and the target is absent.
pub proof fn lemma_split_all_options(args: Seq<Seq<char>>)
    requires
        forall|i: int| 0 <= i < args.len() ==> is_option_token(#[trigger] args[i]),
    ensures
        split_options(args) == args,
        split_target(args) is None,
{
    lemma_prefix_len_is(args, args.len() as int);
    assert(split_options(args) =~= args);
}

} // verus!
