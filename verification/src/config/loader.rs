//! Resolving the settings of a run.
//!
//! A setting given on the command line or in the environment wins over the
//! settings file; the identity of the committer may also come from the
//! configuration of git, and the repository from the surroundings of an
//! automated run.

use vstd::prelude::*;
use vstd::string::StringExecFns;

use crate::cli::args::{
    default_commit_message, default_readme_path, default_section_name, default_stats_range, Cli,
};
use crate::config::toml::TomlConfig;
use crate::error::{Error, ErrorKind, ErrorView};
use crate::text::{same_text, text_of};

verus! {

/// What the surroundings of the run supply: the identity that git is
/// configured with, and the repository that an automated run names.
#[derive(Clone, Debug, PartialEq, Eq)]
pub struct Environment {
    /// `user.name` of the configuration of git.
    pub git_user_name: Option<String>,
    /// `user.email` of the configuration of git.
    pub git_user_email: Option<String>,
    /// The repository of the automated run, as `owner/repo`.
    pub repository: Option<String>,
}

/// The resolved settings of a run. They are built once and not changed.
#[derive(Clone, Debug, PartialEq, Eq)]
pub struct Config {
    pub api_key: String,
    pub readme_path: String,
    pub section_name: String,
    pub stats_range_str: String,
    pub auto_commit: bool,
    pub auto_push: bool,
    pub git_user_name: String,
    pub git_user_email: String,
    pub github_token: Option<String>,
    pub repository: Option<String>,
    pub commit_message: String,
}

/// The first of two optional values that is there.
pub open spec fn first_of<A>(a: Option<A>, b: Option<A>) -> Option<A> {
    match a {
        Some(_) => a,
        None => b,
    }
}

/// The value of a setting that has a default on the command line: the
/// value from the command line, unless that is the default and the file
/// gives one.
pub open spec fn over_default(given: Seq<char>, default: Seq<char>, file: Option<Seq<char>>) -> Seq<
    char,
> {
    match file {
        Some(f) if given == default => f,
        _ => given,
    }
}

/// An optional text, or none where the text is empty.
pub open spec fn non_empty(text: Option<Seq<char>>) -> Option<Seq<char>> {
    match text {
        Some(t) if t.len() > 0 => text,
        _ => None,
    }
}

/// The name that signs a commit when none is given or configured.
pub open spec fn default_user_name() -> Seq<char> {
    "github-actions[bot]"@
}

/// The address that signs a commit when none is given or configured.
pub open spec fn default_user_email() -> Seq<char> {
    "github-actions[bot]@users.noreply.github.com"@
}

/// The error when no key of the statistics service is given.
pub open spec fn missing_api_key() -> ErrorView {
    ErrorView {
        kind: ErrorKind::Configuration,
        message: "API key not provided. Please provide it via CLI argument, environment variable, or config file"@,
    }
}

fn first_text(a: Option<String>, b: Option<String>) -> (r: Option<String>)
    ensures
        text_of(r) == first_of(text_of(a), text_of(b)),
{
    match a {
        Some(a) => Some(a),
        None => b,
    }
}

fn first_flag(a: Option<bool>, b: Option<bool>) -> (r: bool)
    ensures
        r == (first_of(a, b) == Some(true)),
{
    match a {
        Some(a) => a,
        None => match b {
            Some(b) => b,
            None => false,
        },
    }
}

fn file_over_default(given: String, default: &str, file: Option<String>) -> (r: String)
    ensures
        r@ == over_default(given@, default@, text_of(file)),
{
    match file {
        Some(f) => {
            if same_text(given.as_str(), default) {
                f
            } else {
                given
            }
        },
        None => given,
    }
}

fn text_or(text: Option<String>, default: &str) -> (r: String)
    ensures
        r@ == (match text {
            Some(t) => t@,
            None => default@,
        }),
{
    match text {
        Some(t) => t,
        None => String::from_str(default),
    }
}

impl Config {
    /// Resolves the settings of a run from the command line `cli`, the
    /// settings file `toml_config` and the surroundings `environment`.
    ///
    /// The key is required. A setting with a default on the command line
    /// is taken from the file only where the command line holds the
    /// default. The identity of the committer comes from the command line,
    /// the file, the configuration of git or a fixed identity, in this
    /// order; the repository from the command line, the file or the
    /// surroundings, and an empty one counts as none.
    pub fn from_cli(cli: Cli, toml_config: TomlConfig, environment: Environment) -> (r: Result<
        Config,
        Error,
    >)
        ensures
            match r {
                Ok(config) => {
                    &&& Some(config.api_key@) == first_of(
                        text_of(cli.api_key),
                        text_of(toml_config.api_key),
                    )
                    &&& config.readme_path@ == over_default(
                        cli.readme_path@,
                        default_readme_path(),
                        text_of(toml_config.readme_path),
                    )
                    &&& config.section_name@ == over_default(
                        cli.section_name@,
                        default_section_name(),
                        text_of(toml_config.section_name),
                    )
                    &&& config.stats_range_str@ == over_default(
                        cli.stats_range_str@,
                        default_stats_range(),
                        text_of(toml_config.stats_range_str),
                    )
                    &&& config.auto_commit == (first_of(cli.auto_commit, toml_config.auto_commit)
                        == Some(true))
                    &&& config.auto_push == (first_of(cli.auto_push, toml_config.auto_push)
                        == Some(true))
                    &&& Some(config.git_user_name@) == first_of(
                        first_of(
                            first_of(
                                text_of(cli.git_user_name),
                                text_of(toml_config.git_user_name),
                            ),
                            text_of(environment.git_user_name),
                        ),
                        Some(default_user_name()),
                    )
                    &&& Some(config.git_user_email@) == first_of(
                        first_of(
                            first_of(
                                text_of(cli.git_user_email),
                                text_of(toml_config.git_user_email),
                            ),
                            text_of(environment.git_user_email),
                        ),
                        Some(default_user_email()),
                    )
                    &&& text_of(config.github_token) == first_of(
                        text_of(cli.github_token),
                        text_of(toml_config.github_token),
                    )
                    &&& text_of(config.repository) == non_empty(
                        first_of(
                            first_of(text_of(cli.repository), text_of(toml_config.repository)),
                            text_of(environment.repository),
                        ),
                    )
                    &&& config.commit_message@ == over_default(
                        cli.commit_message@,
                        default_commit_message(),
                        text_of(toml_config.commit_message),
                    )
                },
                Err(e) => {
                    &&& cli.api_key is None
                    &&& toml_config.api_key is None
                    &&& e@ == missing_api_key()
                },
            },
    {
        let api_key = match first_text(cli.api_key, toml_config.api_key) {
            Some(key) => key,
            None => {
                return Err(
                    Error::new(
                        ErrorKind::Configuration,
                        String::from_str(
                            "API key not provided. Please provide it via CLI argument, environment variable, or config file",
                        ),
                    ),
                );
            },
        };
        let readme_path = file_over_default(cli.readme_path, "README.md", toml_config.readme_path);
        let section_name = file_over_default(cli.section_name, "waka", toml_config.section_name);
        let stats_range_str = file_over_default(
            cli.stats_range_str,
            "last_7_days",
            toml_config.stats_range_str,
        );
        let auto_commit = first_flag(cli.auto_commit, toml_config.auto_commit);
        let auto_push = first_flag(cli.auto_push, toml_config.auto_push);
        let git_user_name = text_or(
            first_text(
                first_text(cli.git_user_name, toml_config.git_user_name),
                environment.git_user_name,
            ),
            "github-actions[bot]",
        );
        let git_user_email = text_or(
            first_text(
                first_text(cli.git_user_email, toml_config.git_user_email),
                environment.git_user_email,
            ),
            "github-actions[bot]@users.noreply.github.com",
        );
        let github_token = first_text(cli.github_token, toml_config.github_token);
        let commit_message = file_over_default(
            cli.commit_message,
            "📊 Updated WakaTime stats",
            toml_config.commit_message,
        );
        let named = first_text(
            first_text(cli.repository, toml_config.repository),
            environment.repository,
        );
        let repository = match named {
            Some(r) => if r.as_str().is_empty() {
                None
            } else {
                Some(r)
            },
            None => None,
        };
        Ok(
            Config {
                api_key,
                readme_path,
                section_name,
                stats_range_str,
                auto_commit,
                auto_push,
                git_user_name,
                git_user_email,
                github_token,
                repository,
                commit_message,
            },
        )
    }
}

} // verus!
