use wakatime_updater::error::{Error, ErrorKind};
use wakatime_updater::git::credentials::Credential;
use wakatime_updater::git::event::GitEvent;
use wakatime_updater::git::pusher::{GitPusher, PushAction, PushStage};

fn run(token: Option<&str>, events: Vec<GitEvent>) -> (PushStage, Vec<PushAction>) {
    let (mut state, first) = GitPusher::push_changes(token.map(String::from));
    let mut actions = vec![first];
    for event in events {
        let (next, action) = GitPusher::step(state, event);
        state = next;
        actions.push(action);
    }
    (state.stage, actions)
}

fn text(s: &str) -> GitEvent {
    GitEvent::Text(Some(s.to_string()))
}

fn failure(message: &str) -> PushAction {
    PushAction::Fail(Error { kind: ErrorKind::GitState, message: message.to_string() })
}

#[test]
fn refspec_pushes_the_branch_to_its_namesake() {
    assert_eq!(GitPusher::refspec("main"), "refs/heads/main:refs/heads/main");
    assert_eq!(
        GitPusher::refspec("feature/x"),
        "refs/heads/feature/x:refs/heads/feature/x"
    );
}

#[test]
fn address_is_rewritten_for_a_token_only() {
    assert_eq!(
        GitPusher::address("git@github.com:owner/repo.git", true),
        Some("https://github.com/owner/repo.git".to_string())
    );
    assert_eq!(GitPusher::address("git@github.com:owner/repo.git", false), None);
    assert_eq!(GitPusher::address("https://github.com/owner/repo.git", true), None);
    assert_eq!(GitPusher::address("ssh://git@github.com/owner/repo.git", true), None);
    assert_eq!(GitPusher::address("", true), None);
    assert_eq!(
        GitPusher::address("git@github.com:a/git@github.com:b", true),
        Some("https://github.com/a/git@github.com:b".to_string())
    );
}

#[test]
fn push_over_the_stored_remote() {
    let (stage, actions) = run(
        None,
        vec![
            GitEvent::Completed,
            text("main"),
            text("git@github.com:owner/repo.git"),
            GitEvent::Completed,
        ],
    );
    assert_eq!(
        actions,
        vec![
            PushAction::OpenRepository,
            PushAction::ReadHeadBranch,
            PushAction::FindRemote { name: "origin".to_string() },
            PushAction::Push {
                refspec: "refs/heads/main:refs/heads/main".to_string(),
                token: None,
            },
            PushAction::Finish,
        ]
    );
    assert_eq!(stage, PushStage::Closed);
}

#[test]
fn push_with_a_token_goes_over_https() {
    let (stage, actions) = run(
        Some("secret"),
        vec![
            GitEvent::Completed,
            text("master"),
            text("git@github.com:owner/repo.git"),
            GitEvent::Completed,
            GitEvent::Completed,
        ],
    );
    assert_eq!(
        actions,
        vec![
            PushAction::OpenRepository,
            PushAction::ReadHeadBranch,
            PushAction::FindRemote { name: "origin".to_string() },
            PushAction::CreateAnonymousRemote {
                url: "https://github.com/owner/repo.git".to_string(),
            },
            PushAction::Push {
                refspec: "refs/heads/master:refs/heads/master".to_string(),
                token: Some("secret".to_string()),
            },
            PushAction::Finish,
        ]
    );
    assert_eq!(stage, PushStage::Closed);
}

#[test]
fn push_with_a_token_keeps_an_https_remote() {
    let (_, actions) = run(
        Some("secret"),
        vec![GitEvent::Completed, text("main"), text("https://github.com/owner/repo.git")],
    );
    assert_eq!(
        actions[3],
        PushAction::Push {
            refspec: "refs/heads/main:refs/heads/main".to_string(),
            token: Some("secret".to_string()),
        }
    );
}

#[test]
fn push_with_an_unreadable_address_uses_the_stored_remote() {
    let (_, actions) = run(
        Some("secret"),
        vec![GitEvent::Completed, text("main"), GitEvent::Text(None)],
    );
    assert!(matches!(actions[3], PushAction::Push { .. }));
}

#[test]
fn detached_head_is_an_error() {
    let (stage, actions) = run(None, vec![GitEvent::Completed, GitEvent::Text(None)]);
    assert_eq!(actions[2], failure("Failed to get branch name"));
    assert_eq!(stage, PushStage::Closed);
}

#[test]
fn push_names_each_failed_step() {
    let boom = GitEvent::Failed("boom".to_string());
    let (_, actions) = run(None, vec![boom.clone()]);
    assert_eq!(actions[1], failure("Failed to open Git repository: boom"));
    let (_, actions) = run(None, vec![GitEvent::Completed, boom.clone()]);
    assert_eq!(actions[2], failure("Failed to get HEAD: boom"));
    let (_, actions) = run(None, vec![GitEvent::Completed, text("main"), boom.clone()]);
    assert_eq!(actions[3], failure("Failed to find remote 'origin': boom"));
    let (_, actions) = run(
        Some("t"),
        vec![GitEvent::Completed, text("main"), text("git@github.com:o/r.git"), boom.clone()],
    );
    assert_eq!(actions[4], failure("Failed to create anonymous remote: boom"));
    let (stage, actions) = run(
        None,
        vec![GitEvent::Completed, text("main"), text("git@github.com:o/r.git"), boom],
    );
    assert_eq!(actions[4], failure("Failed to push changes: boom"));
    assert_eq!(stage, PushStage::Closed);
}

#[test]
fn push_rejects_an_outcome_out_of_turn() {
    let (stage, actions) = run(None, vec![GitEvent::Answer(true)]);
    assert_eq!(actions[1], failure("Unexpected outcome for this step"));
    assert_eq!(stage, PushStage::Closed);
    let (_, actions) = run(None, vec![GitEvent::Completed, GitEvent::Completed]);
    assert_eq!(actions[2], failure("Unexpected outcome for this step"));
}

#[test]
fn credentials_for_a_push_with_a_token() {
    assert_eq!(
        Credential::for_push(Some("secret"), Some("git")),
        vec![Credential::UserPass {
            username: "x-access-token".to_string(),
            password: "secret".to_string(),
        }]
    );
    assert_eq!(Credential::for_push(Some("secret"), None).len(), 1);
}

#[test]
fn credentials_for_a_push_without_a_token() {
    assert_eq!(
        Credential::for_push(None, Some("alice")),
        vec![
            Credential::SshAgent { username: "alice".to_string() },
            Credential::SshAgent { username: "git".to_string() },
        ]
    );
    assert_eq!(
        Credential::for_push(None, None),
        vec![Credential::SshAgent { username: "git".to_string() }]
    );
}

#[test]
fn credentials_for_a_fetch() {
    assert_eq!(
        Credential::for_fetch(Some("secret")),
        Some(Credential::UserPass {
            username: "x-access-token".to_string(),
            password: "secret".to_string(),
        })
    );
    assert_eq!(Credential::for_fetch(None), None);
    assert_eq!(Credential::from_token("t"), Credential::for_fetch(Some("t")).unwrap());
}
