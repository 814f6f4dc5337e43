//! The command line: an action, a package and two flags.
use vstd::prelude::*;
use crate::text::str_eq;
use crate::types::{action_named, Action};

verus! {

/// What the command line asks for.
#[derive(Clone, Debug, PartialEq, Eq)]
pub struct Invocation {
    pub action: Action,
    pub package: String,
    pub rebuild: bool,
    pub ignore_deps: bool,
}

/// Whether an argument is one of the two flags.
pub open spec fn is_flag(arg: Seq<char>) -> bool {
    arg == "--rebuild"@ || arg == "--ignore-deps"@
}

/// Whether an argument names something: it is not a flag.
pub open spec fn is_operand() -> spec_fn(Seq<char>) -> bool {
    |a: Seq<char>| !is_flag(a)
}

/// The arguments that are not flags, in their order.
pub open spec fn operands(args: Seq<Seq<char>>) -> Seq<Seq<char>> {
    args.filter(is_operand())
}

/// The action, the package and the two flags that the arguments ask for:
/// an action's name first, then exactly one package name, with the flags
/// anywhere after the action; `None` for any other arguments.
pub open spec fn invocation_of(args: Seq<Seq<char>>) -> Option<(Action, Seq<char>, bool, bool)> {
    if args.len() == 0 {
        None
    } else {
        match action_named(args[0]) {
            None => None,
            Some(action) => {
                let rest = args.drop_first();
                let names = operands(rest);
                if names.len() == 1 {
                    Some((action, names[0], rest.contains("--rebuild"@), rest.contains("--ignore-deps"@)))
                } else {
                    None
                }
            },
        }
    }
}

/// The invocation that the arguments after the program's name ask for, or
/// `None` where the program shows its usage.
pub fn parse_invocation(args: &Vec<String>) -> (r: Option<Invocation>)
    ensures
        match r {
            Some(inv) => invocation_of(args.deep_view()) == Some(
                (inv.action, inv.package@, inv.rebuild, inv.ignore_deps),
            ),
            None => invocation_of(args.deep_view()) is None,
        },
{
    let ghost all = args.deep_view();
    if args.len() == 0 {
        return None;
    }
    let action = match Action::from_str(args[0].as_str()) {
        Some(a) => a,
        None => return None,
    };
    let ghost rest = all.drop_first();
    let mut package: Option<String> = None;
    let mut too_many = false;
    let mut rebuild = false;
    let mut ignore_deps = false;
    let mut i: usize = 1;
    while i < args.len()
        invariant
            1 <= i <= args.len(),
            all == args.deep_view(),
            all.len() == args.len(),
            rest == all.drop_first(),
            ({
                let names = operands(rest.take(i - 1));
                &&& (package is None <==> names.len() == 0)
                &&& (package matches Some(p) ==> p@ == names[0])
                &&& (too_many <==> names.len() >= 2)
            }),
            rebuild <==> rest.take(i - 1).contains("--rebuild"@),
            ignore_deps <==> rest.take(i - 1).contains("--ignore-deps"@),
        decreases args.len() - i,
    {
        let arg = &args[i];
        let ghost prev = rest.take(i - 1);
        let ghost next = rest.take(i as int);
        assert(next.drop_last() =~= prev);
        assert(next.last() == arg@);
        assert(next =~= prev.push(arg@));
        let is_rebuild = str_eq(arg.as_str(), "--rebuild");
        let is_ignore = str_eq(arg.as_str(), "--ignore-deps");
        if is_rebuild {
            rebuild = true;
        } else if is_ignore {
            ignore_deps = true;
        } else if package.is_none() {
            package = Some(arg.clone());
        } else {
            too_many = true;
        }
        proof {
            reveal_strlit("--rebuild");
            reveal_strlit("--ignore-deps");
            prev.lemma_filter_push(arg@, is_operand());
            assert(operands(next) == if is_flag(arg@) {
                operands(prev)
            } else {
                operands(prev).push(arg@)
            });
            assert(next.contains("--rebuild"@) <==> (prev.contains("--rebuild"@) || arg@
                == "--rebuild"@)) by {
                if next.contains("--rebuild"@) && arg@ != "--rebuild"@ {
                    let k = choose|k: int| 0 <= k < next.len() && next[k] == "--rebuild"@;
                    assert(k < prev.len() && prev[k] == "--rebuild"@);
                }
                if prev.contains("--rebuild"@) {
                    let k = choose|k: int| 0 <= k < prev.len() && prev[k] == "--rebuild"@;
                    assert(next[k] == "--rebuild"@);
                }
                if arg@ == "--rebuild"@ {
                    assert(next[next.len() - 1] == "--rebuild"@);
                }
            }
            assert(next.contains("--ignore-deps"@) <==> (prev.contains("--ignore-deps"@) || arg@
                == "--ignore-deps"@)) by {
                if next.contains("--ignore-deps"@) && arg@ != "--ignore-deps"@ {
                    let k = choose|k: int| 0 <= k < next.len() && next[k] == "--ignore-deps"@;
                    assert(k < prev.len() && prev[k] == "--ignore-deps"@);
                }
                if prev.contains("--ignore-deps"@) {
                    let k = choose|k: int| 0 <= k < prev.len() && prev[k] == "--ignore-deps"@;
                    assert(next[k] == "--ignore-deps"@);
                }
                if arg@ == "--ignore-deps"@ {
                    assert(next[next.len() - 1] == "--ignore-deps"@);
                }
            }
        }
        i = i + 1;
    }
    assert(rest.take(args.len() - 1) =~= rest);
    if too_many {
        return None;
    }
    match package {
        Some(p) => Some(Invocation { action, package: p, rebuild, ignore_deps }),
        None => None,
    }
}

} // verus!
