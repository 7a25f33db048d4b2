//! The settings as the command line and the environment give them, each
//! with its default where it has one.

use vstd::prelude::*;
use vstd::string::StringExecFns;

verus! {

/// The path of the document when none is given.
pub open spec fn default_readme_path() -> Seq<char> {
    "README.md"@
}

/// The name of the section when none is given.
pub open spec fn default_section_name() -> Seq<char> {
    "waka"@
}

/// The path of the settings file when none is given.
pub open spec fn default_config_path() -> Seq<char> {
    "wakatime-updater.toml"@
}

/// The range of the statistics when none is given.
pub open spec fn default_stats_range() -> Seq<char> {
    "last_7_days"@
}

/// The message of the commit when none is given.
pub open spec fn default_commit_message() -> Seq<char> {
    "📊 Updated WakaTime stats"@
}

/// The settings that the command line and the environment supply. A
/// setting that was not given holds its default, or `None` where it has no
/// default.
#[derive(Clone, Debug, PartialEq, Eq)]
pub struct Cli {
    /// The key of the statistics service.
    pub api_key: Option<String>,
    /// The path of the document to update.
    pub readme_path: String,
    /// The name of the section to update in the document.
    pub section_name: String,
    /// The path of the settings file.
    pub config_path: String,
    /// The range of the statistics.
    pub stats_range_str: String,
    /// Whether to commit the updated document.
    pub auto_commit: Option<bool>,
    /// Whether to push the commit.
    pub auto_push: Option<bool>,
    /// The name to sign the commit with.
    pub git_user_name: Option<String>,
    /// The address to sign the commit with.
    pub git_user_email: Option<String>,
    /// The service token for fetching and pushing.
    pub github_token: Option<String>,
    /// The repository to fetch where the directory holds none.
    pub repository: Option<String>,
    /// The message of the commit.
    pub commit_message: String,
}

impl Default for Cli {
    /// The settings when nothing is given.
    fn default() -> (cli: Cli)
        ensures
            cli.api_key is None,
            cli.readme_path@ == default_readme_path(),
            cli.section_name@ == default_section_name(),
            cli.config_path@ == default_config_path(),
            cli.stats_range_str@ == default_stats_range(),
            cli.auto_commit is None,
            cli.auto_push is None,
            cli.git_user_name is None,
            cli.git_user_email is None,
            cli.github_token is None,
            cli.repository is None,
            cli.commit_message@ == default_commit_message(),
    {
        Cli {
            api_key: None,
            readme_path: String::from_str("README.md"),
            section_name: String::from_str("waka"),
            config_path: String::from_str("wakatime-updater.toml"),
            stats_range_str: String::from_str("last_7_days"),
            auto_commit: None,
            auto_push: None,
            git_user_name: None,
            git_user_email: None,
            github_token: None,
            repository: None,
            commit_message: String::from_str("📊 Updated WakaTime stats"),
        }
    }
}

} // verus!
