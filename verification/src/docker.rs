//! Plans for the orchestration tool: which compose file and which verb
//! arguments each lifecycle command passes, and which images the clean
//! command removes. The plans are data; spawning the external process is
//! left to the thin shell around the library.
use vstd::prelude::*;

verus! {

/// The compose-file argument for the dev stack.
pub open spec fn dev_compose_arg() -> Seq<char> {
    "-f/Users/xavier2p/Developer/javascript/helix/docker-compose.dev.yml"@
}

/// The compose-file argument for the prod stack.
pub open spec fn prod_compose_arg() -> Seq<char> {
    "-f/Users/xavier2p/Developer/javascript/helix/releases/docker-compose.yml"@
}

/// The compose-file argument the install flow pulls images with.
pub open spec fn install_compose_arg() -> Seq<char> {
    "-f./docker-compose.yml"@
}

/// The compose-file argument selected by the mode.
pub open spec fn compose_arg_for(is_dev: bool) -> Seq<char> {
    if is_dev {
        dev_compose_arg()
    } else {
        prod_compose_arg()
    }
}

/// One invocation of the orchestration tool: the compose-file argument and
/// the verb arguments that follow it.
pub struct ComposeInvocation {
    /// The `-f<path>` compose-file argument.
    pub file_arg: String,
    /// The verb arguments, such as `up`, `-d`, `down` or `pull`.
    pub args: Vec<String>,
}

impl ComposeInvocation {
    /// The views of the verb arguments, in order.
    pub open spec fn args_view(self) -> Seq<Seq<char>> {
        Seq::new(self.args@.len(), |i: int| self.args@[i]@)
    }
}

/// The invocation the start command makes: bring the stack up, building it
/// in dev mode and detaching in prod mode.
pub fn start_plan(is_dev: bool) -> (r: ComposeInvocation)
    ensures
        r.file_arg@ == compose_arg_for(is_dev),
        r.args_view() == (if is_dev {
            seq!["up"@, "--build"@]
        } else {
            seq!["up"@, "-d"@]
        }),
{
    let file_arg: String = if is_dev {
        "-f/Users/xavier2p/Developer/javascript/helix/docker-compose.dev.yml".to_owned()
    } else {
        "-f/Users/xavier2p/Developer/javascript/helix/releases/docker-compose.yml".to_owned()
    };
    let mut args: Vec<String> = Vec::new();
    args.push("up".to_owned());
    if is_dev {
        args.push("--build".to_owned());
    } else {
        args.push("-d".to_owned());
    }
    let r = ComposeInvocation { file_arg, args };
    proof {
        if is_dev {
            assert(r.args_view() =~= seq!["up"@, "--build"@]);
        } else {
            assert(r.args_view() =~= seq!["up"@, "-d"@]);
        }
    }
    r
}

/// The invocation the stop command makes: take the stack down.
pub fn stop_plan(is_dev: bool) -> (r: ComposeInvocation)
    ensures
        r.file_arg@ == compose_arg_for(is_dev),
        r.args_view() == seq!["down"@],
{
    let file_arg: String = if is_dev {
        "-f/Users/xavier2p/Developer/javascript/helix/docker-compose.dev.yml".to_owned()
    } else {
        "-f/Users/xavier2p/Developer/javascript/helix/releases/docker-compose.yml".to_owned()
    };
    let mut args: Vec<String> = Vec::new();
    args.push("down".to_owned());
    let r = ComposeInvocation { file_arg, args };
    proof {
        assert(r.args_view() =~= seq!["down"@]);
    }
    r
}

/// The invocation the install flow makes: pull the production image set.
pub fn pull_plan() -> (r: ComposeInvocation)
    ensures
        r.file_arg@ == install_compose_arg(),
        r.args_view() == seq!["pull"@],
{
    let mut args: Vec<String> = Vec::new();
    args.push("pull".to_owned());
    let r = ComposeInvocation { file_arg: "-f./docker-compose.yml".to_owned(), args };
    proof {
        assert(r.args_view() =~= seq!["pull"@]);
    }
    r
}

/// The names of the three images the clean command removes: the local
/// dev-tagged names in dev mode, the registry-namespaced release names
/// otherwise.
pub open spec fn clean_image_names(is_dev: bool) -> Seq<Seq<char>> {
    if is_dev {
        seq!["helix-dev-server"@, "helix-dev-db"@, "helix-dev-client"@]
    } else {
        seq!["xavier2p/helix-server"@, "xavier2p/helix-db"@, "xavier2p/helix-client"@]
    }
}

/// The images the clean command removes, one removal invocation each.
pub fn clean_images(is_dev: bool) -> (r: Vec<String>)
    ensures
        Seq::new(r@.len(), |i: int| r@[i]@) == clean_image_names(is_dev),
{
    let mut r: Vec<String> = Vec::new();
    if is_dev {
        r.push("helix-dev-server".to_owned());
        r.push("helix-dev-db".to_owned());
        r.push("helix-dev-client".to_owned());
    } else {
        r.push("xavier2p/helix-server".to_owned());
        r.push("xavier2p/helix-db".to_owned());
        r.push("xavier2p/helix-client".to_owned());
    }
    proof {
        assert(Seq::new(r@.len(), |i: int| r@[i]@) =~= clean_image_names(is_dev));
    }
    r
}

} // verus!
