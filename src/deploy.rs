//! Choosing what a deployment uses: cluster, wallet and program artifact.
use vstd::prelude::*;
use crate::keys::{extract_setting, setting_in_lines};
use crate::text::{chars_of, ends_with, has_prefix, has_suffix, lines_of, piece, starts_with, views};

verus! {

pub const CLUSTER_KEY: &'static str = "cluster = ";

pub const WALLET_KEY: &'static str = "wallet = ";

/// The cluster used when neither the command nor the configuration names one.
pub const DEFAULT_CLUSTER: &'static str = "localhost";

/// The wallet used when neither the command nor the configuration names one.
pub const DEFAULT_WALLET: &'static str = "~/.config/solana/id.json";

/// Build artifacts that can be deployed carry this extension.
pub const ARTIFACT_SUFFIX: &'static str = ".so";

pub const HOME_MARK: &'static str = "~";

pub const HOME_PREFIX: &'static str = "~/";

/// The cluster and wallet of a deployment.
#[derive(Debug)]
pub struct DeploySettings {
    pub cluster: String,
    pub wallet: String,
}

/// A setting: the command's override, else the configuration's value, else the default.
pub open spec fn chosen(
    given: Option<Seq<char>>,
    config: Option<Seq<char>>,
    key: Seq<char>,
    default: Seq<char>,
) -> Seq<char> {
    match given {
        Some(v) => v,
        None => match config {
            Some(c) => match setting_in_lines(lines_of(c), key) {
                Some(v) => v,
                None => default,
            },
            None => default,
        },
    }
}

pub open spec fn opt_str(s: Option<&str>) -> Option<Seq<char>> {
    match s {
        Some(v) => Some(v@),
        None => None,
    }
}

fn choose_setting(given: Option<&str>, config: Option<&str>, key: &str, default: &str) -> (r:
    String)
    ensures
        r@ == chosen(opt_str(given), opt_str(config), key@, default@),
{
    match given {
        Some(v) => String::from_str(v),
        None => match config {
            Some(c) => match extract_setting(c, key) {
                Some(v) => v,
                None => String::from_str(default),
            },
            None => String::from_str(default),
        },
    }
}

/// The cluster and wallet of a deployment, each taken from the command's
/// override, else from the configuration text, else from the defaults.
pub fn deploy_settings(cluster: Option<&str>, wallet: Option<&str>, config: Option<&str>) -> (r:
    DeploySettings)
    ensures
        r.cluster@ == chosen(opt_str(cluster), opt_str(config), CLUSTER_KEY@, DEFAULT_CLUSTER@),
        r.wallet@ == chosen(opt_str(wallet), opt_str(config), WALLET_KEY@, DEFAULT_WALLET@),
{
    DeploySettings {
        cluster: choose_setting(cluster, config, CLUSTER_KEY, DEFAULT_CLUSTER),
        wallet: choose_setting(wallet, config, WALLET_KEY, DEFAULT_WALLET),
    }
}

/// A file name whose extension is `so`: it ends with `.so` and has a stem before it.
pub open spec fn is_artifact_name(name: Seq<char>) -> bool {
    ends_with(name, ARTIFACT_SUFFIX@) && name.len() > ARTIFACT_SUFFIX@.len()
}

/// Whether a deploy-directory file is a deployable program artifact.
pub fn is_program_artifact(file_name: &str) -> (r: bool)
    ensures
        r == is_artifact_name(file_name@),
{
    let v = chars_of(file_name);
    let suffix = chars_of(ARTIFACT_SUFFIX);
    has_suffix(&v, &suffix) && v.len() > suffix.len()
}

/// The index of the first program artifact among the deploy directory's entries.
pub fn find_program_artifact(names: &Vec<String>) -> (r: Option<usize>)
    ensures
        match r {
            Some(i) => i < names.len() && is_artifact_name(names@[i as int]@) && forall|j: int|
                0 <= j < i ==> !is_artifact_name(#[trigger] names@[j]@),
            None => forall|j: int| 0 <= j < names.len() ==> !is_artifact_name(#[trigger] names@[j]@),
        },
{
    let mut i: usize = 0;
    while i < names.len()
        invariant
            i <= names.len(),
            forall|j: int| 0 <= j < i ==> !is_artifact_name(#[trigger] names@[j]@),
        decreases names.len() - i,
    {
        if is_program_artifact(names[i].as_str()) {
            return Some(i);
        }
        i = i + 1;
    }
    None
}

/// `path` with a leading `~` standing for the home directory replaced by `home`.
pub open spec fn expanded(path: Seq<char>, home: Seq<char>) -> Seq<char> {
    if path == HOME_MARK@ {
        home
    } else if starts_with(path, HOME_PREFIX@) {
        home + path.subrange(1, path.len() as int)
    } else {
        path
    }
}

/// Resolves a leading `~` (alone or followed by `/`) to the home directory `home`.
pub fn expand_home(path: &str, home: &str) -> (r: String)
    ensures
        r@ == expanded(path@, home@),
{
    let v = chars_of(path);
    let mark = chars_of(HOME_MARK);
    let prefix = chars_of(HOME_PREFIX);
    proof {
        reveal_strlit("~/");
    }
    if v.len() == mark.len() && has_prefix(&v, &mark) {
        assert(v@ =~= v@.subrange(0, mark@.len() as int));
        return String::from_str(home);
    }
    assert(path@ != HOME_MARK@) by {
        assert(v@.subrange(0, v@.len() as int) =~= v@);
    }
    if has_prefix(&v, &prefix) {
        let rest = piece(path, 1, v.len());
        String::from_str(home).concat(rest.as_str())
    } else {
        String::from_str(path)
    }
}

/// The arguments of the deployment call.
pub open spec fn deploy_args(cluster: Seq<char>, wallet: Seq<char>, artifact: Seq<char>) -> Seq<
    Seq<char>,
> {
    seq!["program"@, "deploy"@, "--url"@, cluster, "--keypair"@, wallet, artifact]
}

/// The arguments that deploy `artifact` to `cluster`, paid from `wallet`.
pub fn deploy_arguments(cluster: &str, wallet: &str, artifact: &str) -> (r: Vec<String>)
    ensures
        views(r@) == deploy_args(cluster@, wallet@, artifact@),
{
    let mut r: Vec<String> = Vec::new();
    r.push(String::from_str("program"));
    r.push(String::from_str("deploy"));
    r.push(String::from_str("--url"));
    r.push(String::from_str(cluster));
    r.push(String::from_str("--keypair"));
    r.push(String::from_str(wallet));
    r.push(String::from_str(artifact));
    assert(views(r@) =~= deploy_args(cluster@, wallet@, artifact@));
    r
}

} // verus!
