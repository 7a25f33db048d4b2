use wakatime_updater::cli::Cli;
use wakatime_updater::config::loader::Environment;
use wakatime_updater::config::{Config, TomlConfig};
use wakatime_updater::error::ErrorKind;

fn nothing() -> Environment {
    Environment { git_user_name: None, git_user_email: None, repository: None }
}

fn some(s: &str) -> Option<String> {
    Some(s.to_string())
}

#[test]
fn command_line_defaults() {
    let cli = Cli::default();
    assert_eq!(cli.api_key, None);
    assert_eq!(cli.readme_path, "README.md");
    assert_eq!(cli.section_name, "waka");
    assert_eq!(cli.config_path, "wakatime-updater.toml");
    assert_eq!(cli.stats_range_str, "last_7_days");
    assert_eq!(cli.auto_commit, None);
    assert_eq!(cli.auto_push, None);
    assert_eq!(cli.commit_message, "📊 Updated WakaTime stats");
}

#[test]
fn missing_key_is_a_configuration_error() {
    let err = Config::from_cli(Cli::default(), TomlConfig::default(), nothing()).unwrap_err();
    assert_eq!(err.kind, ErrorKind::Configuration);
    assert_eq!(
        err.message,
        "API key not provided. Please provide it via CLI argument, environment variable, or config file"
    );
}

#[test]
fn defaults_apply_when_only_the_key_is_given() {
    let cli = Cli { api_key: some("key"), ..Cli::default() };
    let config = Config::from_cli(cli, TomlConfig::default(), nothing()).unwrap();
    assert_eq!(
        config,
        Config {
            api_key: "key".to_string(),
            readme_path: "README.md".to_string(),
            section_name: "waka".to_string(),
            stats_range_str: "last_7_days".to_string(),
            auto_commit: false,
            auto_push: false,
            git_user_name: "github-actions[bot]".to_string(),
            git_user_email: "github-actions[bot]@users.noreply.github.com".to_string(),
            github_token: None,
            repository: None,
            commit_message: "📊 Updated WakaTime stats".to_string(),
        }
    );
}

#[test]
fn file_fills_what_the_command_line_leaves_at_its_default() {
    let file = TomlConfig {
        api_key: some("file-key"),
        readme_path: some("docs/README.md"),
        section_name: some("stats"),
        stats_range_str: some("last_30_days"),
        auto_commit: Some(true),
        auto_push: Some(true),
        git_user_name: some("file name"),
        git_user_email: some("file@example.com"),
        github_token: some("file-token"),
        repository: some("file/repo"),
        commit_message: some("file message"),
    };
    let env = Environment {
        git_user_name: some("git name"),
        git_user_email: some("git@example.com"),
        repository: some("env/repo"),
    };
    let config = Config::from_cli(Cli::default(), file, env).unwrap();
    assert_eq!(
        config,
        Config {
            api_key: "file-key".to_string(),
            readme_path: "docs/README.md".to_string(),
            section_name: "stats".to_string(),
            stats_range_str: "last_30_days".to_string(),
            auto_commit: true,
            auto_push: true,
            git_user_name: "file name".to_string(),
            git_user_email: "file@example.com".to_string(),
            github_token: some("file-token"),
            repository: some("file/repo"),
            commit_message: "file message".to_string(),
        }
    );
}

#[test]
fn command_line_wins_over_the_file() {
    let cli = Cli {
        api_key: some("cli-key"),
        readme_path: "PROFILE.md".to_string(),
        section_name: "coding".to_string(),
        config_path: "other.toml".to_string(),
        stats_range_str: "2024".to_string(),
        auto_commit: Some(false),
        auto_push: Some(false),
        git_user_name: some("cli name"),
        git_user_email: some("cli@example.com"),
        github_token: some("cli-token"),
        repository: some("cli/repo"),
        commit_message: "cli message".to_string(),
    };
    let file = TomlConfig {
        api_key: some("file-key"),
        readme_path: some("docs/README.md"),
        section_name: some("stats"),
        stats_range_str: some("last_30_days"),
        auto_commit: Some(true),
        auto_push: Some(true),
        git_user_name: some("file name"),
        git_user_email: some("file@example.com"),
        github_token: some("file-token"),
        repository: some("file/repo"),
        commit_message: some("file message"),
    };
    let env = Environment {
        git_user_name: some("git name"),
        git_user_email: some("git@example.com"),
        repository: some("env/repo"),
    };
    let config = Config::from_cli(cli, file, env).unwrap();
    assert_eq!(
        config,
        Config {
            api_key: "cli-key".to_string(),
            readme_path: "PROFILE.md".to_string(),
            section_name: "coding".to_string(),
            stats_range_str: "2024".to_string(),
            auto_commit: false,
            auto_push: false,
            git_user_name: "cli name".to_string(),
            git_user_email: "cli@example.com".to_string(),
            github_token: some("cli-token"),
            repository: some("cli/repo"),
            commit_message: "cli message".to_string(),
        }
    );
}

#[test]
fn identity_falls_back_to_the_configuration_of_git() {
    let cli = Cli { api_key: some("key"), ..Cli::default() };
    let env = Environment {
        git_user_name: some("git name"),
        git_user_email: None,
        repository: None,
    };
    let config = Config::from_cli(cli, TomlConfig::default(), env).unwrap();
    assert_eq!(config.git_user_name, "git name");
    assert_eq!(config.git_user_email, "github-actions[bot]@users.noreply.github.com");
}

#[test]
fn repository_falls_back_to_the_surroundings() {
    let cli = Cli { api_key: some("key"), ..Cli::default() };
    let env = Environment {
        git_user_name: None,
        git_user_email: None,
        repository: some("env/repo"),
    };
    let config = Config::from_cli(cli, TomlConfig::default(), env).unwrap();
    assert_eq!(config.repository, some("env/repo"));
}

#[test]
fn empty_repository_counts_as_none() {
    let cli = Cli { api_key: some("key"), repository: some(""), ..Cli::default() };
    let file = TomlConfig { repository: some("file/repo"), ..TomlConfig::default() };
    let config = Config::from_cli(cli, file, nothing()).unwrap();
    assert_eq!(config.repository, None);
    let cli = Cli { api_key: some("key"), ..Cli::default() };
    let env = Environment { git_user_name: None, git_user_email: None, repository: some("") };
    let config = Config::from_cli(cli, TomlConfig::default(), env).unwrap();
    assert_eq!(config.repository, None);
}

#[test]
fn flag_from_the_command_line_wins_over_the_file() {
    let cli = Cli { api_key: some("key"), auto_commit: Some(true), ..Cli::default() };
    let file = TomlConfig { auto_commit: Some(false), auto_push: Some(true), ..TomlConfig::default() };
    let config = Config::from_cli(cli, file, nothing()).unwrap();
    assert!(config.auto_commit);
    assert!(config.auto_push);
}
