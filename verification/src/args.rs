//! Command-line argument recognition.
//!
//! The process accepts `--conf <path>`, `--datadir <path>` and a network
//! selector flag (`--bitcoin`, `--testnet`, `--signet`, `--regtest`).  Any
//! other argument is a fatal parse error: a token containing `--` must
//! name a network, and a bare token not consumed as the value of `--conf`
//! or `--datadir` is rejected.

use vstd::prelude::*;
use vstd::string::StrSliceExecFns;

use crate::network::{network_from_name, network_of_name, Network};
use crate::text::str_eq;

verus! {

/// One recognized command-line argument.
#[derive(Debug, PartialEq, Eq)]
pub enum Arg {
    ConfigPath(String),
    DatadirPath(String),
    Network(Network),
}

/// The mathematical value of a recognized argument: paths as character
/// sequences.
pub ghost enum ArgV {
    ConfigPath(Seq<char>),
    DatadirPath(Seq<char>),
    Network(Network),
}

impl View for Arg {
    type V = ArgV;

    open spec fn view(&self) -> ArgV {
        match self {
            Arg::ConfigPath(p) => ArgV::ConfigPath(p@),
            Arg::DatadirPath(p) => ArgV::DatadirPath(p@),
            Arg::Network(n) => ArgV::Network(*n),
        }
    }
}

/// Why a command line was rejected.
#[derive(Clone, Copy, Debug, PartialEq, Eq, Structural)]
pub enum ParseError {
    /// `--conf` was the last token, so its path value is missing.
    MissingConfValue,
    /// `--datadir` was the last token, so its path value is missing.
    MissingDatadirValue,
    /// A token containing `--` named no known network.
    UnknownNetwork,
    /// A bare token that is no flag and not the value of one.
    UnexpectedArgument,
}

/// Whether a token contains two consecutive dashes anywhere.
pub open spec fn has_double_dash(s: Seq<char>) -> bool {
    exists|j: int|
        #![trigger s[j]]
        0 <= j && j + 1 < s.len() && s[j] == '-' && s[j + 1] == '-'
}

/// The token with every leading `--` pair removed.
pub open spec fn strip_double_dash(s: Seq<char>) -> Seq<char>
    decreases s.len(),
{
    if s.len() >= 2 && s[0] == '-' && s[1] == '-' {
        strip_double_dash(s.skip(2))
    } else {
        s
    }
}

/// Reports whether a token contains two consecutive dashes anywhere.
pub fn contains_double_dash(s: &str) -> (r: bool)
    ensures
        r == has_double_dash(s@),
{
    let len: usize = s.unicode_len();
    if len < 2 {
        return false;
    }
    let mut i: usize = 0;
    while i + 1 < len
        invariant
            len == s@.len(),
            i < len,
            forall|j: int|
                #![trigger s@[j]]
                0 <= j < i ==> !(s@[j] == '-' && s@[j + 1] == '-'),
        decreases len - i,
    {
        if s.get_char(i) == '-' && s.get_char(i + 1) == '-' {
            proof {
                assert(s@[i as int] == '-' && s@[i as int + 1] == '-');
            }
            return true;
        }
        i = i + 1;
    }
    false
}

/// Removes every leading `--` pair from a token.
pub fn strip_leading_double_dash(s: &str) -> (r: &str)
    ensures
        r@ == strip_double_dash(s@),
{
    let len: usize = s.unicode_len();
    let mut k: usize = 0;
    proof {
        assert(s@.subrange(0, len as int) =~= s@);
    }
    while k < len && s.get_char(k) == '-' && k + 1 < len && s.get_char(k + 1) == '-'
        invariant
            len == s@.len(),
            k <= len,
            strip_double_dash(s@) == strip_double_dash(s@.subrange(k as int, len as int)),
        decreases len - k,
    {
        proof {
            assert(s@.subrange(k as int, len as int).skip(2) =~= s@.subrange(
                k as int + 2,
                len as int,
            ));
        }
        k = k + 2;
    }
    proof {
        assert(strip_double_dash(s@.subrange(k as int, len as int)) == s@.subrange(
            k as int,
            len as int,
        ));
    }
    s.substring_char(k, len)
}

/// What parsing yields from position `i` on: a left-to-right scan in which
/// `--conf` and `--datadir` consume the following token as a path, any
/// other token containing `--` must name a network, any other bare token
/// is rejected, and the first offending token aborts the scan.
pub open spec fn parse_args_from(args: Seq<Seq<char>>, i: int) -> Result<Seq<ArgV>, ParseError>
    decreases args.len() - i,
{
    if i < 0 || i >= args.len() {
        Ok(Seq::empty())
    } else if args[i] == "--conf"@ {
        if i + 1 < args.len() {
            match parse_args_from(args, i + 2) {
                Ok(rest) => Ok(seq![ArgV::ConfigPath(args[i + 1])] + rest),
                Err(e) => Err(e),
            }
        } else {
            Err(ParseError::MissingConfValue)
        }
    } else if args[i] == "--datadir"@ {
        if i + 1 < args.len() {
            match parse_args_from(args, i + 2) {
                Ok(rest) => Ok(seq![ArgV::DatadirPath(args[i + 1])] + rest),
                Err(e) => Err(e),
            }
        } else {
            Err(ParseError::MissingDatadirValue)
        }
    } else if has_double_dash(args[i]) {
        match network_of_name(strip_double_dash(args[i])) {
            Some(n) => match parse_args_from(args, i + 1) {
                Ok(rest) => Ok(seq![ArgV::Network(n)] + rest),
                Err(e) => Err(e),
            },
            None => Err(ParseError::UnknownNetwork),
        }
    } else {
        Err(ParseError::UnexpectedArgument)
    }
}

/// The character sequences of a sequence of strings.
pub open spec fn string_views(ss: Seq<String>) -> Seq<Seq<char>> {
    ss.map_values(|s: String| s@)
}

/// The mathematical values of a sequence of recognized arguments.
pub open spec fn arg_views(aa: Seq<Arg>) -> Seq<ArgV> {
    aa.map_values(|a: Arg| a@)
}

/// What parsing a whole command line yields.
pub open spec fn parse_args_spec(args: Seq<Seq<char>>) -> Result<Seq<ArgV>, ParseError> {
    parse_args_from(args, 0)
}

/// Scans the command line left to right and collects the recognized
/// arguments, failing on the first malformed token.
pub fn parse_args(args: Vec<String>) -> (r: Result<Vec<Arg>, ParseError>)
    ensures
        (match r {
            Ok(v) => parse_args_spec(string_views(args@)) == Ok::<Seq<ArgV>, ParseError>(
                arg_views(v@),
            ),
            Err(e) => parse_args_spec(string_views(args@)) == Err::<Seq<ArgV>, ParseError>(e),
        }),
{
    let ghost vs = string_views(args@);
    let mut res: Vec<Arg> = Vec::new();
    let n: usize = args.len();
    let mut i: usize = 0;
    while i < n
        invariant
            n == args@.len(),
            i <= n,
            vs == string_views(args@),
            vs.len() == n,
            (match parse_args_from(vs, i as int) {
                Ok(rest) => parse_args_from(vs, 0) == Ok::<Seq<ArgV>, ParseError>(
                    arg_views(res@) + rest,
                ),
                Err(e) => parse_args_from(vs, 0) == Err::<Seq<ArgV>, ParseError>(e),
            }),
        decreases n - i,
    {
        proof {
            assert(vs[i as int] == args@[i as int]@);
            assert(i + 1 < n ==> vs[i as int + 1] == args@[i as int + 1]@);
        }
        let arg = &args[i];
        if str_eq(arg.as_str(), "--conf") {
            if i + 1 < n {
                let val = args[i + 1].clone();
                let ghost old_res = res@;
                res.push(Arg::ConfigPath(val));
                proof {
                    let c = ArgV::ConfigPath(vs[i as int + 1]);
                    assert(arg_views(res@) =~= arg_views(old_res) + seq![c]);
                    match parse_args_from(vs, i as int + 2) {
                        Ok(rest) => {
                            assert(arg_views(old_res) + (seq![c] + rest) =~= arg_views(res@)
                                + rest);
                        },
                        Err(e) => {},
                    }
                }
                i = i + 2;
            } else {
                return Err(ParseError::MissingConfValue);
            }
        } else if str_eq(arg.as_str(), "--datadir") {
            if i + 1 < n {
                let val = args[i + 1].clone();
                let ghost old_res = res@;
                res.push(Arg::DatadirPath(val));
                proof {
                    let c = ArgV::DatadirPath(vs[i as int + 1]);
                    assert(arg_views(res@) =~= arg_views(old_res) + seq![c]);
                    match parse_args_from(vs, i as int + 2) {
                        Ok(rest) => {
                            assert(arg_views(old_res) + (seq![c] + rest) =~= arg_views(res@)
                                + rest);
                        },
                        Err(e) => {},
                    }
                }
                i = i + 2;
            } else {
                return Err(ParseError::MissingDatadirValue);
            }
        } else if contains_double_dash(arg.as_str()) {
            let stripped = strip_leading_double_dash(arg.as_str());
            match network_from_name(stripped) {
                Some(nw) => {
                    let ghost old_res = res@;
                    res.push(Arg::Network(nw));
                    proof {
                        let c = ArgV::Network(nw);
                        assert(arg_views(res@) =~= arg_views(old_res) + seq![c]);
                        match parse_args_from(vs, i as int + 1) {
                            Ok(rest) => {
                                assert(arg_views(old_res) + (seq![c] + rest) =~= arg_views(res@)
                                    + rest);
                            },
                            Err(e) => {},
                        }
                    }
                    i = i + 1;
                },
                None => {
                    return Err(ParseError::UnknownNetwork);
                },
            }
        } else {
            return Err(ParseError::UnexpectedArgument);
        }
    }
    proof {
        assert(arg_views(res@) + Seq::<ArgV>::empty() =~= arg_views(res@));
    }
    Ok(res)
}

/// The command-line token that selects a network: `--` followed by its
/// canonical name.
pub open spec fn network_flag(n: Network) -> Seq<char> {
    "--"@ + n.name_spec()
}

/// Law: a `--datadir <path>` pair and a network selector flag parse in
/// either order to the same two arguments, for every path and every
/// network, so resolution downstream is equivalent in either order.
pub proof fn lemma_parse_order_independent(d: Seq<char>, n: Network)
    ensures
        parse_args_spec(seq!["--datadir"@, d, network_flag(n)]) == Ok::<Seq<ArgV>, ParseError>(
            seq![ArgV::DatadirPath(d), ArgV::Network(n)],
        ),
        parse_args_spec(seq![network_flag(n), "--datadir"@, d]) == Ok::<Seq<ArgV>, ParseError>(
            seq![ArgV::Network(n), ArgV::DatadirPath(d)],
        ),
{
    reveal_strlit("--datadir");
    reveal_strlit("--conf");
    reveal_strlit("--");
    reveal_strlit("bitcoin");
    reveal_strlit("testnet");
    reveal_strlit("signet");
    reveal_strlit("regtest");
    let flag = network_flag(n);
    let name = n.name_spec();
    assert(flag.len() == 2 + name.len());
    assert(flag[0] == '-' && flag[1] == '-');
    assert(flag[2] == name[0]);
    assert(has_double_dash(flag));
    assert(flag.skip(2) =~= name);
    match n {
        Network::Bitcoin => {
            assert(name[0] == 'b');
        },
        Network::Testnet => {
            assert(name[0] == 't');
            assert(name != "bitcoin"@) by {
                assert(name[0] != "bitcoin"@[0]);
            }
        },
        Network::Signet => {
            assert(name[0] == 's');
            assert(name.len() == 6);
        },
        Network::Regtest => {
            assert(name[0] == 'r');
            assert(name != "bitcoin"@) by {
                assert(name[0] != "bitcoin"@[0]);
            }
            assert(name != "testnet"@) by {
                assert(name[0] != "testnet"@[0]);
            }
        },
    }
    assert(network_of_name(name) == Some(n));
    assert(flag != "--conf"@);
    assert(flag != "--datadir"@) by {
        assert(flag[2] != "--datadir"@[2]);
    }
    assert(strip_double_dash(name) == name);
    assert(strip_double_dash(flag) == name);

    let args1 = seq!["--datadir"@, d, flag];
    assert(parse_args_from(args1, 3) == Ok::<Seq<ArgV>, ParseError>(Seq::empty()));
    assert(parse_args_from(args1, 2) == Ok::<Seq<ArgV>, ParseError>(
        seq![ArgV::Network(n)] + Seq::<ArgV>::empty(),
    ));
    assert(parse_args_from(args1, 0) == Ok::<Seq<ArgV>, ParseError>(
        seq![ArgV::DatadirPath(d)] + (seq![ArgV::Network(n)] + Seq::<ArgV>::empty()),
    ));
    assert(seq![ArgV::DatadirPath(d)] + (seq![ArgV::Network(n)] + Seq::<ArgV>::empty())
        =~= seq![ArgV::DatadirPath(d), ArgV::Network(n)]);

    let args2 = seq![flag, "--datadir"@, d];
    assert(parse_args_from(args2, 3) == Ok::<Seq<ArgV>, ParseError>(Seq::empty()));
    assert(parse_args_from(args2, 1) == Ok::<Seq<ArgV>, ParseError>(
        seq![ArgV::DatadirPath(d)] + Seq::<ArgV>::empty(),
    ));
    assert(parse_args_from(args2, 0) == Ok::<Seq<ArgV>, ParseError>(
        seq![ArgV::Network(n)] + (seq![ArgV::DatadirPath(d)] + Seq::<ArgV>::empty()),
    ));
    assert(seq![ArgV::Network(n)] + (seq![ArgV::DatadirPath(d)] + Seq::<ArgV>::empty())
        =~= seq![ArgV::Network(n), ArgV::DatadirPath(d)]);
}

} // verus!
