use robinzhon::batch::find_shared_path;
use robinzhon::batch::begin_batch;
use robinzhon::batch::plan_directory_downloads;
use robinzhon::batch::plan_explicit_downloads;
use robinzhon::batch::plan_uploads;
use robinzhon::batch::Direction;
use robinzhon::batch::DEFAULT_CONCURRENCY;
use robinzhon::coordinator::Directive;
use robinzhon::error::BatchSetupError;
use robinzhon::error::Stage;
use robinzhon::error::TransferError;
use robinzhon::outcome::TransferDescriptor;
use robinzhon::outcome::TransferOutcome;
use robinzhon::results::Results;
use robinzhon::transfer::download_next;
use robinzhon::transfer::upload_next;
use robinzhon::transfer::DownloadEvent;
use robinzhon::transfer::DownloadMode;
use robinzhon::transfer::TransferAction;
use robinzhon::transfer::UploadEvent;

fn item() -> TransferDescriptor {
    TransferDescriptor {
        object_key: String::from("photos/cat.jpg"),
        local_path: String::from("/tmp/out/cat.jpg"),
    }
}

fn perform(stage: Stage) -> TransferAction {
    TransferAction::Perform { stage }
}

/// Downloads `item` from a store that holds the keys in `present`, each with
/// a body of two chunks.
fn download(mode: DownloadMode, item: &TransferDescriptor, present: &[&str]) -> Result<String, TransferError> {
    let mut chunks_left = 2;
    let mut action = download_next(mode, DownloadEvent::Begin, item);
    loop {
        let event = match action {
            TransferAction::Perform { stage } => match stage {
                Stage::CreateDirectory => DownloadEvent::DirectoryReady,
                Stage::GetObject => {
                    if present.contains(&item.object_key.as_str()) {
                        DownloadEvent::ObjectOpened
                    } else {
                        DownloadEvent::Failed { stage, cause: String::from("NoSuchKey") }
                    }
                }
                Stage::CreateFile => DownloadEvent::FileCreated,
                Stage::ReadBody => {
                    if chunks_left > 0 {
                        chunks_left -= 1;
                        DownloadEvent::ChunkRead
                    } else {
                        DownloadEvent::BodyExhausted
                    }
                }
                Stage::WriteFile => DownloadEvent::ChunkWritten,
                Stage::FlushFile => DownloadEvent::Flushed,
                _ => unreachable!(),
            },
            over => return over.into_result().unwrap(),
        };
        action = download_next(mode, event, item);
    }
}

fn download_batch(plan: Vec<TransferDescriptor>, limit: usize, present: &[&str]) -> Results {
    let mut coordinator = match begin_batch(plan, limit, Direction::Download) {
        Ok(coordinator) => coordinator,
        Err(failure) => panic!("{}", failure.message()),
    };
    let mut running: Vec<usize> = Vec::new();
    loop {
        match coordinator.directive() {
            Directive::Start { .. } => running.push(coordinator.start()),
            Directive::Wait => {
                let index = running.remove(0);
                let item = coordinator.descriptor(index).clone();
                let result = download(DownloadMode::Directory, &item, present);
                coordinator.complete(index, result.map(|_| ()));
            }
            Directive::Finish => break,
        }
    }
    Results::from_operation(coordinator.finish())
}

/// Uploads the files of `paths_and_keys` to a store that refuses the keys in
/// `refused`.
fn upload_batch(
    paths_and_keys: Vec<(String, String)>,
    limit: usize,
    refused: &[&str],
) -> robinzhon::results::RustOperationResult {
    let plan = plan_uploads(paths_and_keys);
    let mut coordinator = match begin_batch(plan, limit, Direction::Upload) {
        Ok(coordinator) => coordinator,
        Err(failure) => panic!("{}", failure.message()),
    };
    let mut running: Vec<usize> = Vec::new();
    loop {
        match coordinator.directive() {
            Directive::Start { .. } => running.push(coordinator.start()),
            Directive::Wait => {
                let index = running.remove(0);
                let item = coordinator.descriptor(index).clone();
                let mut action = upload_next(UploadEvent::Begin, &item);
                let result = loop {
                    let event = match action {
                        TransferAction::Perform { stage: Stage::OpenFile } => UploadEvent::FileOpened,
                        TransferAction::Perform { stage } => {
                            if refused.contains(&item.object_key.as_str()) {
                                UploadEvent::Failed { stage, cause: String::from("AccessDenied") }
                            } else {
                                UploadEvent::ObjectStored
                            }
                        }
                        over => break over.into_result().unwrap(),
                    };
                    action = upload_next(event, &item);
                };
                coordinator.complete(index, result.map(|_| ()));
            }
            Directive::Finish => break,
        }
    }
    coordinator.finish()
}

#[test]
fn default_limit_is_five() {
    assert_eq!(DEFAULT_CONCURRENCY, 5);
}

#[test]
fn directory_download_asks_for_the_object_first() {
    assert_eq!(
        download_next(DownloadMode::Directory, DownloadEvent::Begin, &item()),
        perform(Stage::GetObject)
    );
}

#[test]
fn explicit_path_download_creates_the_parent_first() {
    assert_eq!(
        download_next(DownloadMode::ExplicitPath, DownloadEvent::Begin, &item()),
        perform(Stage::CreateDirectory)
    );
    assert_eq!(
        download_next(DownloadMode::ExplicitPath, DownloadEvent::DirectoryReady, &item()),
        perform(Stage::GetObject)
    );
}

#[test]
fn download_steps_follow_one_another() {
    let mode = DownloadMode::Directory;
    assert_eq!(download_next(mode, DownloadEvent::ObjectOpened, &item()), perform(Stage::CreateFile));
    assert_eq!(download_next(mode, DownloadEvent::FileCreated, &item()), perform(Stage::ReadBody));
    assert_eq!(download_next(mode, DownloadEvent::ChunkRead, &item()), perform(Stage::WriteFile));
    assert_eq!(download_next(mode, DownloadEvent::ChunkWritten, &item()), perform(Stage::ReadBody));
    assert_eq!(download_next(mode, DownloadEvent::BodyExhausted, &item()), perform(Stage::FlushFile));
}

#[test]
fn flushed_download_returns_the_local_path() {
    let action = download_next(DownloadMode::Directory, DownloadEvent::Flushed, &item());
    assert_eq!(action, TransferAction::Succeed { path: String::from("/tmp/out/cat.jpg") });
    assert_eq!(action.into_result(), Some(Ok(String::from("/tmp/out/cat.jpg"))));
}

#[test]
fn failed_step_ends_the_download() {
    let event = DownloadEvent::Failed { stage: Stage::WriteFile, cause: String::from("disk full") };
    let action = download_next(DownloadMode::Directory, event, &item());
    let error = TransferError {
        stage: Stage::WriteFile,
        key: String::from("photos/cat.jpg"),
        path: String::from("/tmp/out/cat.jpg"),
        cause: String::from("disk full"),
    };
    assert_eq!(action, TransferAction::Fail { error: error.clone() });
    assert_eq!(action.into_result(), Some(Err(error)));
}

#[test]
fn failed_parent_directory_ends_the_download() {
    let event = DownloadEvent::DirectoryFailed {
        directory: String::from("/tmp/out"),
        cause: String::from("Permission denied"),
    };
    let action = download_next(DownloadMode::ExplicitPath, event, &item());
    match action.into_result() {
        Some(Err(error)) => {
            assert_eq!(error.stage, Stage::CreateDirectory);
            assert_eq!(error.key, "photos/cat.jpg");
            assert_eq!(error.path, "/tmp/out");
            assert_eq!(
                error.message(),
                "Failed to create directory '/tmp/out': Permission denied"
            );
        }
        other => panic!("unexpected {:?}", other),
    }
}

#[test]
fn pending_step_has_no_result() {
    assert_eq!(perform(Stage::ReadBody).into_result(), None);
}

#[test]
fn whole_download_writes_each_chunk_before_reading_the_next() {
    let mut stages: Vec<Stage> = Vec::new();
    let mut chunks_left = 3;
    let mut action = download_next(DownloadMode::ExplicitPath, DownloadEvent::Begin, &item());
    let result = loop {
        let event = match action {
            TransferAction::Perform { stage } => {
                stages.push(stage);
                match stage {
                    Stage::CreateDirectory => DownloadEvent::DirectoryReady,
                    Stage::GetObject => DownloadEvent::ObjectOpened,
                    Stage::CreateFile => DownloadEvent::FileCreated,
                    Stage::ReadBody => {
                        if chunks_left > 0 {
                            chunks_left -= 1;
                            DownloadEvent::ChunkRead
                        } else {
                            DownloadEvent::BodyExhausted
                        }
                    }
                    Stage::WriteFile => DownloadEvent::ChunkWritten,
                    Stage::FlushFile => DownloadEvent::Flushed,
                    _ => unreachable!(),
                }
            }
            over => break over.into_result(),
        };
        action = download_next(DownloadMode::ExplicitPath, event, &item());
    };
    assert_eq!(result, Some(Ok(String::from("/tmp/out/cat.jpg"))));
    assert_eq!(
        stages,
        vec![
            Stage::CreateDirectory,
            Stage::GetObject,
            Stage::CreateFile,
            Stage::ReadBody,
            Stage::WriteFile,
            Stage::ReadBody,
            Stage::WriteFile,
            Stage::ReadBody,
            Stage::WriteFile,
            Stage::ReadBody,
            Stage::FlushFile,
        ]
    );
}

#[test]
fn upload_steps_follow_one_another() {
    assert_eq!(upload_next(UploadEvent::Begin, &item()), perform(Stage::OpenFile));
    assert_eq!(upload_next(UploadEvent::FileOpened, &item()), perform(Stage::PutObject));
    assert_eq!(
        upload_next(UploadEvent::ObjectStored, &item()),
        TransferAction::Succeed { path: String::from("/tmp/out/cat.jpg") }
    );
}

#[test]
fn unreadable_file_ends_the_upload() {
    let event = UploadEvent::Failed { stage: Stage::OpenFile, cause: String::from("No such file") };
    match upload_next(event, &item()).into_result() {
        Some(Err(error)) => {
            assert_eq!(error.stage, Stage::OpenFile);
            assert_eq!(error.message(), "Failed to open file '/tmp/out/cat.jpg': No such file");
        }
        other => panic!("unexpected {:?}", other),
    }
}

#[test]
fn refused_put_ends_the_upload() {
    let event = UploadEvent::Failed { stage: Stage::PutObject, cause: String::from("AccessDenied") };
    match upload_next(event, &item()).into_result() {
        Some(Err(error)) => {
            assert_eq!(error.key, "photos/cat.jpg");
            assert_eq!(
                error.message(),
                "Failed to upload S3 object '/tmp/out/cat.jpg': 'AccessDenied'"
            );
        }
        other => panic!("unexpected {:?}", other),
    }
}

#[test]
fn directory_plan_derives_each_path() {
    let plan = plan_directory_downloads(
        vec![String::from("a/b/c.txt"), String::from("file.txt")],
        "/tmp/out",
    );
    assert_eq!(
        plan,
        vec![
            TransferDescriptor {
                object_key: String::from("a/b/c.txt"),
                local_path: String::from("/tmp/out/c.txt"),
            },
            TransferDescriptor {
                object_key: String::from("file.txt"),
                local_path: String::from("/tmp/out/file.txt"),
            },
        ]
    );
}

#[test]
fn explicit_plan_pairs_key_with_path() {
    let plan = plan_explicit_downloads(vec![(String::from("k1"), String::from("/x/one"))]);
    assert_eq!(
        plan,
        vec![TransferDescriptor {
            object_key: String::from("k1"),
            local_path: String::from("/x/one"),
        }]
    );
}

#[test]
fn upload_plan_pairs_path_with_key() {
    let plan = plan_uploads(vec![(String::from("/x/one"), String::from("k1"))]);
    assert_eq!(
        plan,
        vec![TransferDescriptor {
            object_key: String::from("k1"),
            local_path: String::from("/x/one"),
        }]
    );
}

#[test]
fn plans_of_nothing_are_empty() {
    assert!(plan_directory_downloads(Vec::new(), "/tmp/out").is_empty());
    assert!(plan_explicit_downloads(Vec::new()).is_empty());
    assert!(plan_uploads(Vec::new()).is_empty());
}

#[test]
fn successful_item_becomes_a_success_with_its_local_path() {
    let outcome = TransferOutcome::of_item(&item(), Ok(()));
    assert_eq!(outcome, TransferOutcome::Success { path: String::from("/tmp/out/cat.jpg") });
    assert!(outcome.is_success());
}

#[test]
fn failed_download_is_reported_by_its_key() {
    let error = TransferError {
        stage: Stage::GetObject,
        key: String::from("photos/cat.jpg"),
        path: String::from("/tmp/out/cat.jpg"),
        cause: String::from("NoSuchKey"),
    };
    let outcome = TransferOutcome::of_item(&item(), Err(error));
    assert_eq!(
        outcome,
        TransferOutcome::Failure {
            key: String::from("photos/cat.jpg"),
            message: String::from("Failed to get S3 object 'photos/cat.jpg': NoSuchKey"),
        }
    );
    assert!(!outcome.is_success());
}

#[test]
fn failed_upload_is_reported_by_its_key() {
    let error = TransferError {
        stage: Stage::PutObject,
        key: String::from("photos/cat.jpg"),
        path: String::from("/tmp/out/cat.jpg"),
        cause: String::from("AccessDenied"),
    };
    let outcome = TransferOutcome::of_item(&item(), Err(error));
    assert_eq!(
        outcome,
        TransferOutcome::Failure {
            key: String::from("photos/cat.jpg"),
            message: String::from("Failed to upload S3 object '/tmp/out/cat.jpg': 'AccessDenied'"),
        }
    );
}

#[test]
fn refused_put_fails_alone_under_its_object_key() {
    let result = upload_batch(
        vec![
            (String::from("/tmp/u/a"), String::from("ka")),
            (String::from("/tmp/u/b"), String::from("kb")),
        ],
        2,
        &["kb"],
    );
    assert_eq!(result.successful, vec![String::from("/tmp/u/a")]);
    assert_eq!(result.failed.len(), 1);
    assert_eq!(result.failed[0].0, "kb");
    assert_eq!(result.failed[0].1, "Failed to upload S3 object '/tmp/u/b': 'AccessDenied'");
}

#[test]
fn uploads_may_read_one_file_twice() {
    let result = upload_batch(
        vec![
            (String::from("/tmp/u/a"), String::from("ka")),
            (String::from("/tmp/u/a"), String::from("kb")),
        ],
        1,
        &[],
    );
    assert_eq!(result.successful, vec![String::from("/tmp/u/a"), String::from("/tmp/u/a")]);
    assert!(result.failed.is_empty());
}

#[test]
fn batch_with_zero_limit_is_refused() {
    let plan = plan_uploads(vec![(String::from("/tmp/u/a"), String::from("ka"))]);
    match begin_batch(plan, 0, Direction::Upload) {
        Err(failure) => assert_eq!(failure, BatchSetupError::ZeroLimit),
        Ok(_) => panic!("a batch with no slot was set up"),
    }
    match begin_batch(Vec::new(), 0, Direction::Download) {
        Err(failure) => assert_eq!(failure, BatchSetupError::ZeroLimit),
        Ok(_) => panic!("a batch with no slot was set up"),
    }
}

#[test]
fn download_batch_with_shared_path_is_refused() {
    let plan = plan_directory_downloads(
        vec![String::from("a/x.txt"), String::from("a/y.txt"), String::from("b/x.txt")],
        "/tmp/d",
    );
    match begin_batch(plan, 2, Direction::Download) {
        Err(failure) => assert_eq!(
            failure,
            BatchSetupError::SharedPath {
                first_key: String::from("a/x.txt"),
                second_key: String::from("b/x.txt"),
                path: String::from("/tmp/d/x.txt"),
            }
        ),
        Ok(_) => panic!("two downloads to one path were set up"),
    }
}

#[test]
fn batch_that_may_start_has_nothing_started() {
    let plan = plan_directory_downloads(vec![String::from("a/x.txt")], "/tmp/d");
    match begin_batch(plan, 3, Direction::Download) {
        Ok(coordinator) => {
            assert_eq!(coordinator.total(), 1);
            assert_eq!(coordinator.limit(), 3);
            assert_eq!(coordinator.in_flight_count(), 0);
            assert_eq!(coordinator.completed_count(), 0);
            assert_eq!(coordinator.directive(), Directive::Start { index: 0 });
        }
        Err(failure) => panic!("{}", failure.message()),
    }
}

#[test]
fn missing_key_fails_alone_in_a_batch_of_two() {
    let plan = plan_directory_downloads(vec![String::from("k1"), String::from("k2")], "/tmp/d");
    let results = download_batch(plan, DEFAULT_CONCURRENCY, &["k1"]);
    assert_eq!(results.successful, vec![String::from("/tmp/d/k1")]);
    assert_eq!(results.failed, vec![String::from("k2")]);
    assert!(!results.is_complete_success());
    assert!(results.has_success());
    assert!(results.has_failures());
}

#[test]
fn missing_key_is_reported_with_its_message() {
    let plan = plan_directory_downloads(vec![String::from("k1"), String::from("k2")], "/tmp/d");
    let failed = download(DownloadMode::Directory, &plan[1], &["k1"]);
    let outcome = TransferOutcome::of_item(&plan[1], failed.map(|_| ()));
    assert_eq!(
        outcome,
        TransferOutcome::Failure {
            key: String::from("k2"),
            message: String::from("Failed to get S3 object 'k2': NoSuchKey"),
        }
    );
}

#[test]
fn one_missing_key_in_five_leaves_four_successes() {
    let keys: Vec<String> = vec!["a/1", "a/2", "a/3", "a/4", "a/5"]
        .into_iter()
        .map(String::from)
        .collect();
    for limit in 1..=5usize {
        let plan = plan_directory_downloads(keys.clone(), "/tmp/d");
        let results = download_batch(plan, limit, &["a/1", "a/2", "a/4", "a/5"]);
        assert_eq!(
            results.successful,
            vec![
                String::from("/tmp/d/1"),
                String::from("/tmp/d/2"),
                String::from("/tmp/d/4"),
                String::from("/tmp/d/5"),
            ]
        );
        assert_eq!(results.failed, vec![String::from("a/3")]);
        assert_eq!(results.total_count(), 5);
        assert_eq!(results.success_ratio(), (4, 5));
    }
}

#[test]
fn distinct_local_paths_share_nothing() {
    let plan = plan_explicit_downloads(vec![
        (String::from("k1"), String::from("/x/one")),
        (String::from("k2"), String::from("/x/two")),
        (String::from("k3"), String::from("/x/three")),
    ]);
    assert_eq!(find_shared_path(&plan), None);
    assert_eq!(find_shared_path(&Vec::new()), None);
}

#[test]
fn first_shared_local_path_is_found() {
    let plan = plan_directory_downloads(
        vec![
            String::from("a/x.txt"),
            String::from("a/y.txt"),
            String::from("b/y.txt"),
            String::from("b/x.txt"),
            String::from("c/x.txt"),
        ],
        "/tmp/d",
    );
    assert_eq!(find_shared_path(&plan), Some((1, 2)));
}
