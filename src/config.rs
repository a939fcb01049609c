use vstd::prelude::*;

use crate::task::Task;
use crate::text::{clone_opt, opt_view};

verus! {

/// The settings read from the configuration file, or the settings in effect
/// after the command line has been applied to them.
pub struct Config {
    pub circleci_token: String,
    pub project: Option<String>,
    pub tag: Option<String>,
    pub branch: Option<String>,
}

/// The command line: a task and optional overrides.
pub struct Cli {
    pub task: Task,
    pub project: Option<String>,
    pub tag: Option<String>,
    pub branch: Option<String>,
}

/// The settings as characters.
pub struct ConfigView {
    pub token: Seq<char>,
    pub project: Option<Seq<char>>,
    pub tag: Option<Seq<char>>,
    pub branch: Option<Seq<char>>,
}

/// The command line as characters.
pub struct CliView {
    pub task: Task,
    pub project: Option<Seq<char>>,
    pub tag: Option<Seq<char>>,
    pub branch: Option<Seq<char>>,
}

impl View for Config {
    type V = ConfigView;

    open spec fn view(&self) -> ConfigView {
        ConfigView {
            token: self.circleci_token@,
            project: opt_view(self.project),
            tag: opt_view(self.tag),
            branch: opt_view(self.branch),
        }
    }
}

impl View for Cli {
    type V = CliView;

    open spec fn view(&self) -> CliView {
        CliView {
            task: self.task,
            project: opt_view(self.project),
            tag: opt_view(self.tag),
            branch: opt_view(self.branch),
        }
    }
}

/// The command line's value where it gives one, else the file's.
pub open spec fn prefer(arg: Option<Seq<char>>, file: Option<Seq<char>>) -> Option<Seq<char>> {
    match arg {
        Some(v) => Some(v),
        None => file,
    }
}

/// The settings in effect: the token from the file, each other field from
/// the command line where it is given there.
pub open spec fn merged(c: ConfigView, a: CliView) -> ConfigView {
    ConfigView {
        token: c.token,
        project: prefer(a.project, c.project),
        tag: prefer(a.tag, c.tag),
        branch: prefer(a.branch, c.branch),
    }
}

fn prefer_opt(arg: &Option<String>, file: &Option<String>) -> (r: Option<String>)
    ensures
        opt_view(r) == prefer(opt_view(*arg), opt_view(*file)),
{
    match arg {
        Some(v) => Some(v.clone()),
        None => clone_opt(file),
    }
}

/// Applies the command line's overrides to the configuration file's settings.
pub fn merge(config: &Config, args: &Cli) -> (r: Config)
    ensures
        r@ == merged(config@, args@),
{
    Config {
        circleci_token: config.circleci_token.clone(),
        project: prefer_opt(&args.project, &config.project),
        tag: prefer_opt(&args.tag, &config.tag),
        branch: prefer_opt(&args.branch, &config.branch),
    }
}

/// A field given on the command line is the field in effect, whatever the
/// file says.
pub proof fn lemma_merge_argument_wins(c: ConfigView, a: CliView)
    ensures
        a.project is Some ==> merged(c, a).project == a.project,
        a.tag is Some ==> merged(c, a).tag == a.tag,
        a.branch is Some ==> merged(c, a).branch == a.branch,
        merged(c, a).token == c.token,
{
}

/// A field absent from the command line is the file's, absent or not.
pub proof fn lemma_merge_falls_back_to_file(c: ConfigView, a: CliView)
    ensures
        a.project is None ==> merged(c, a).project == c.project,
        a.tag is None ==> merged(c, a).tag == c.tag,
        a.branch is None ==> merged(c, a).branch == c.branch,
{
}

} // verus!
