//! Parsing deployment targets: `<repo>[#<node>[.<profile>]]`. The fragment
//! after the first `#` names a node, and the part after the fragment's first
//! `.` names a profile.

use vstd::prelude::*;

use crate::data::opt_view;
use crate::opts::GetDeploymentDataError;

verus! {

/// `s` cut at the first occurrence of `sep`: the part before and the part
/// after, or nothing when `sep` does not occur.
pub open spec fn split_first(s: Seq<char>, sep: char) -> Option<(Seq<char>, Seq<char>)>
    decreases s.len(),
{
    if s.len() == 0 {
        None
    } else if s[0] == sep {
        Some((Seq::<char>::empty(), s.drop_first()))
    } else {
        match split_first(s.drop_first(), sep) {
            None => None,
            Some((a, b)) => Some((seq![s[0]] + a, b)),
        }
    }
}

proof fn lemma_split_first_none(s: Seq<char>, sep: char)
    requires
        forall|j: int| 0 <= j < s.len() ==> s[j] != sep,
    ensures
        split_first(s, sep) is None,
    decreases s.len(),
{
    if s.len() > 0 {
        lemma_split_first_none(s.drop_first(), sep);
    }
}

proof fn lemma_split_first_at(s: Seq<char>, sep: char, i: int)
    requires
        0 <= i < s.len(),
        s[i] == sep,
        forall|j: int| 0 <= j < i ==> s[j] != sep,
    ensures
        split_first(s, sep) == Some((s.take(i), s.skip(i + 1))),
    decreases i,
{
    if i == 0 {
        assert(s.take(0) =~= Seq::<char>::empty());
        assert(s.skip(1) =~= s.drop_first());
    } else {
        lemma_split_first_at(s.drop_first(), sep, i - 1);
        assert(seq![s[0]] + s.drop_first().take(i - 1) =~= s.take(i));
        assert(s.drop_first().skip(i) =~= s.skip(i + 1));
    }
}

/// Cuts `s` at the first occurrence of `sep`, or returns nothing.
pub fn split_once_char(s: &str, sep: char) -> (r: Option<(String, String)>)
    ensures
        match r {
            Some((a, b)) => split_first(s@, sep) == Some((a@, b@)),
            None => split_first(s@, sep) is None,
        },
{
    let len = s.unicode_len();
    let mut i: usize = 0;
    while i < len
        invariant
            i <= len,
            len == s@.len(),
            forall|j: int| 0 <= j < i ==> s@[j] != sep,
        decreases len - i,
    {
        let c = s.get_char(i);
        if c == sep {
            proof {
                lemma_split_first_at(s@, sep, i as int);
            }
            let a = s.substring_char(0, i);
            let b = s.substring_char(i + 1, len);
            proof {
                assert(a@ =~= s@.take(i as int));
                assert(b@ =~= s@.skip(i + 1 as int));
            }
            return Some((a.to_owned(), b.to_owned()));
        }
        i = i + 1;
    }
    proof {
        lemma_split_first_none(s@, sep);
    }
    None
}

/// A parsed deployment target: the repository (or file expression) and the
/// optional node and profile selector.
pub struct DeployFlake {
    pub repo: String,
    pub node: Option<String>,
    pub profile: Option<String>,
}

/// Parses `<repo>[#<node>[.<profile>]]`: everything before the first `#` is
/// the repository; inside the fragment, everything after the first `.` is the
/// profile.
pub fn parse_flake(flake: &str) -> (r: DeployFlake)
    ensures
        match split_first(flake@, '#') {
            None => r.repo@ == flake@ && r.node is None && r.profile is None,
            Some((repo, fragment)) => {
                &&& r.repo@ == repo
                &&& match split_first(fragment, '.') {
                    None => opt_view(r.node) == Some(fragment) && r.profile is None,
                    Some((n, p)) => opt_view(r.node) == Some(n) && opt_view(r.profile) == Some(p),
                }
            },
        },
{
    match split_once_char(flake, '#') {
        None => DeployFlake { repo: flake.to_owned(), node: None, profile: None },
        Some((repo, fragment)) => match split_once_char(fragment.as_str(), '.') {
            None => DeployFlake { repo, node: Some(fragment), profile: None },
            Some((n, p)) => DeployFlake { repo, node: Some(n), profile: Some(p) },
        },
    }
}

/// The nix expression handed to `--apply` when one node and one profile are
/// selected: every other node and profile is masked out of the descriptor.
pub open spec fn eval_expr_pair_view(node: Seq<char>, profile: Seq<char>) -> Seq<char> {
    "\n                      deploy:\n                      (deploy // {\n                        nodes = {\n                          \""@
        + node + "\" = deploy.nodes.\""@ + node
        + "\" // {\n                            profiles = {\n                              inherit (deploy.nodes.\""@
        + node + "\".profiles) \""@ + profile
        + "\";\n                            };\n                          };\n                        };\n                      })\n                     "@
}

/// The nix expression handed to `--apply` when only a node is selected: every
/// other node is masked out.
pub open spec fn eval_expr_node_view(node: Seq<char>) -> Seq<char> {
    "\n                      deploy:\n                      (deploy // {\n                        nodes = {\n                          inherit (deploy.nodes) \""@
        + node + "\";\n                        };\n                      })\n                    "@
}

/// Builds the `--apply` expression that narrows the evaluated descriptor to
/// the selected node and profile. A profile without a node is invalid.
pub fn build_eval_apply_expr(node: &Option<String>, profile: &Option<String>) -> (r: Result<
    String,
    GetDeploymentDataError,
>)
    ensures
        match (opt_view(*node), opt_view(*profile)) {
            (Some(n), Some(p)) => r matches Ok(e) && e@ == eval_expr_pair_view(n, p),
            (Some(n), None) => r matches Ok(e) && e@ == eval_expr_node_view(n),
            (None, None) => r matches Ok(e) && e@ == "deploy: deploy"@,
            (None, Some(_)) => r matches Err(GetDeploymentDataError::ProfileNoNode),
        },
{
    match (node, profile) {
        (Some(n), Some(p)) => {
            let mut e =
                "\n                      deploy:\n                      (deploy // {\n                        nodes = {\n                          \"".to_owned();
            e.append(n.as_str());
            e.append("\" = deploy.nodes.\"");
            e.append(n.as_str());
            e.append(
                "\" // {\n                            profiles = {\n                              inherit (deploy.nodes.\"",
            );
            e.append(n.as_str());
            e.append("\".profiles) \"");
            e.append(p.as_str());
            e.append(
                "\";\n                            };\n                          };\n                        };\n                      })\n                     ",
            );
            proof {
                assert(e@ =~= eval_expr_pair_view(n@, p@));
            }
            Ok(e)
        },
        (Some(n), None) => {
            let mut e =
                "\n                      deploy:\n                      (deploy // {\n                        nodes = {\n                          inherit (deploy.nodes) \"".to_owned();
            e.append(n.as_str());
            e.append("\";\n                        };\n                      })\n                    ");
            proof {
                assert(e@ =~= eval_expr_node_view(n@));
            }
            Ok(e)
        },
        (None, None) => Ok("deploy: deploy".to_owned()),
        (None, Some(_)) => Err(GetDeploymentDataError::ProfileNoNode),
    }
}

/// The arguments of the descriptor evaluation. With flake support the
/// descriptor is evaluated as JSON through `--apply`; without it the file's
/// `deploy` attribute is instantiated strictly.
pub fn build_eval_command(supports_flakes: bool, repo: &str, node: &Option<String>, profile: &Option<
    String,
>) -> (r: Result<Vec<String>, GetDeploymentDataError>)
    ensures
        match r {
            Ok(args) => {
                if supports_flakes {
                    &&& args.deep_view().len() == 5
                    &&& args.deep_view()[0] == "eval"@
                    &&& args.deep_view()[1] == "--json"@
                    &&& args.deep_view()[2] == repo@ + "#deploy"@
                    &&& args.deep_view()[3] == "--apply"@
                    &&& (match (opt_view(*node), opt_view(*profile)) {
                        (Some(n), Some(p)) => args.deep_view()[4] == eval_expr_pair_view(n, p),
                        (Some(n), None) => args.deep_view()[4] == eval_expr_node_view(n),
                        (None, None) => args.deep_view()[4] == "deploy: deploy"@,
                        (None, Some(_)) => false,
                    })
                } else {
                    &&& args.deep_view().len() == 6
                    &&& args.deep_view()[0] == "--strict"@
                    &&& args.deep_view()[1] == "--read-write-mode"@
                    &&& args.deep_view()[2] == "--json"@
                    &&& args.deep_view()[3] == "--eval"@
                    &&& args.deep_view()[4] == "-E"@
                    &&& args.deep_view()[5] == "let r = import "@ + repo@
                        + "/.; in if builtins.isFunction r then (r {}).deploy else r.deploy"@
                }
            },
            Err(e) => {
                &&& supports_flakes
                &&& opt_view(*node) is None
                &&& opt_view(*profile) is Some
                &&& e is ProfileNoNode
            },
        },
{
    let mut args: Vec<String> = Vec::new();
    if supports_flakes {
        args.push("eval".to_owned());
        args.push("--json".to_owned());
        let mut attr = repo.to_owned();
        attr.append("#deploy");
        args.push(attr);
        args.push("--apply".to_owned());
        let expr = match build_eval_apply_expr(node, profile) {
            Ok(e) => e,
            Err(e) => {
                return Err(e);
            },
        };
        args.push(expr);
    } else {
        args.push("--strict".to_owned());
        args.push("--read-write-mode".to_owned());
        args.push("--json".to_owned());
        args.push("--eval".to_owned());
        args.push("-E".to_owned());
        let mut expr = "let r = import ".to_owned();
        expr.append(repo);
        expr.append("/.; in if builtins.isFunction r then (r {}).deploy else r.deploy");
        args.push(expr);
    }
    Ok(args)
}

/// The arguments of the pre-deployment check: `nix flake check` on the
/// repository, or a `nix-build` of its `checks` attribute.
pub fn build_check_command(supports_flakes: bool, repo: &str) -> (r: Vec<String>)
    ensures
        supports_flakes ==> {
            &&& r.deep_view().len() == 3
            &&& r.deep_view()[0] == "flake"@
            &&& r.deep_view()[1] == "check"@
            &&& r.deep_view()[2] == repo@
        },
        !supports_flakes ==> {
            &&& r.deep_view().len() == 3
            &&& r.deep_view()[0] == "-E"@
            &&& r.deep_view()[1] == "--no-out-link"@
            &&& r.deep_view()[2] == "let r = import "@ + repo@
                + "/.; x = (if builtins.isFunction r then (r {}) else r); in if x ? checks then x.checks.${builtins.currentSystem} else {}"@
        },
{
    let mut args: Vec<String> = Vec::new();
    if supports_flakes {
        args.push("flake".to_owned());
        args.push("check".to_owned());
        args.push(repo.to_owned());
    } else {
        args.push("-E".to_owned());
        args.push("--no-out-link".to_owned());
        let mut expr = "let r = import ".to_owned();
        expr.append(repo);
        expr.append(
            "/.; x = (if builtins.isFunction r then (r {}) else r); in if x ? checks then x.checks.${builtins.currentSystem} else {}",
        );
        args.push(expr);
    }
    args
}

} // verus!
