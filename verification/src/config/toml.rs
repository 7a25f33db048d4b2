//! The settings as the settings file gives them.

use vstd::prelude::*;

verus! {

/// The settings that the settings file supplies; `None` for each one that
/// the file does not mention.
#[derive(Clone, Debug, PartialEq, Eq)]
pub struct TomlConfig {
    pub api_key: Option<String>,
    pub readme_path: Option<String>,
    pub section_name: Option<String>,
    pub stats_range_str: Option<String>,
    pub auto_commit: Option<bool>,
    pub auto_push: Option<bool>,
    pub git_user_name: Option<String>,
    pub git_user_email: Option<String>,
    pub github_token: Option<String>,
    pub repository: Option<String>,
    pub commit_message: Option<String>,
}

impl Default for TomlConfig {
    /// The settings of a file that mentions none.
    fn default() -> (file: TomlConfig)
        ensures
            file.api_key is None,
            file.readme_path is None,
            file.section_name is None,
            file.stats_range_str is None,
            file.auto_commit is None,
            file.auto_push is None,
            file.git_user_name is None,
            file.git_user_email is None,
            file.github_token is None,
            file.repository is None,
            file.commit_message is None,
    {
        TomlConfig {
            api_key: None,
            readme_path: None,
            section_name: None,
            stats_range_str: None,
            auto_commit: None,
            auto_push: None,
            git_user_name: None,
            git_user_email: None,
            github_token: None,
            repository: None,
            commit_message: None,
        }
    }
}

} // verus!
