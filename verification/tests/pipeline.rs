use wakatime_updater::pipeline::Stage;

fn run(updated: bool, auto_commit: bool, auto_push: bool) -> Vec<Stage> {
    let mut stages = vec![Stage::first()];
    while *stages.last().unwrap() != Stage::Finished {
        let next = stages.last().unwrap().next(updated, auto_commit, auto_push);
        stages.push(next);
    }
    stages
}

#[test]
fn run_commits_and_pushes_a_changed_document() {
    assert_eq!(
        run(true, true, true),
        vec![
            Stage::AcquireRepository,
            Stage::ValidateSection,
            Stage::FetchStats,
            Stage::UpdateReadme,
            Stage::Commit,
            Stage::Push,
            Stage::Finished,
        ]
    );
}

#[test]
fn run_commits_without_pushing() {
    assert_eq!(
        run(true, true, false),
        vec![
            Stage::AcquireRepository,
            Stage::ValidateSection,
            Stage::FetchStats,
            Stage::UpdateReadme,
            Stage::Commit,
            Stage::Finished,
        ]
    );
}

#[test]
fn run_ends_after_the_update_without_a_commit() {
    let plain = vec![
        Stage::AcquireRepository,
        Stage::ValidateSection,
        Stage::FetchStats,
        Stage::UpdateReadme,
        Stage::Finished,
    ];
    assert_eq!(run(false, true, true), plain);
    assert_eq!(run(true, false, true), plain);
    assert_eq!(run(false, false, false), plain);
}

#[test]
fn finished_run_stays_finished() {
    assert_eq!(Stage::Finished.next(true, true, true), Stage::Finished);
}
