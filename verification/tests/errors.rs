use robinzhon::batch::check_setup;
use robinzhon::error::BatchSetupError;
use robinzhon::error::ErrorKind;
use robinzhon::error::Stage;
use robinzhon::error::TransferError;

fn error_at(stage: Stage) -> TransferError {
    TransferError {
        stage,
        key: String::from("photos/cat.jpg"),
        path: String::from("/tmp/out/cat.jpg"),
        cause: String::from("boom"),
    }
}

#[test]
fn get_object_message_names_the_key() {
    assert_eq!(
        error_at(Stage::GetObject).message(),
        "Failed to get S3 object 'photos/cat.jpg': boom"
    );
}

#[test]
fn create_file_message_names_the_path() {
    assert_eq!(
        error_at(Stage::CreateFile).message(),
        "Failed to create file '/tmp/out/cat.jpg': boom"
    );
}

#[test]
fn read_body_message_names_the_key() {
    assert_eq!(
        error_at(Stage::ReadBody).message(),
        "Failed to read S3 response body for 'photos/cat.jpg': boom"
    );
}

#[test]
fn write_file_message_names_the_path() {
    assert_eq!(
        error_at(Stage::WriteFile).message(),
        "Failed to write to file '/tmp/out/cat.jpg': boom"
    );
}

#[test]
fn flush_file_message_names_the_path() {
    assert_eq!(
        error_at(Stage::FlushFile).message(),
        "Failed to flush file '/tmp/out/cat.jpg': boom"
    );
}

#[test]
fn open_file_message_names_the_path() {
    assert_eq!(
        error_at(Stage::OpenFile).message(),
        "Failed to open file '/tmp/out/cat.jpg': boom"
    );
}

#[test]
fn put_object_message_quotes_the_cause() {
    assert_eq!(
        error_at(Stage::PutObject).message(),
        "Failed to upload S3 object '/tmp/out/cat.jpg': 'boom'"
    );
}

#[test]
fn create_directory_message_names_the_directory() {
    let error = TransferError {
        stage: Stage::CreateDirectory,
        key: String::from("photos/cat.jpg"),
        path: String::from("/tmp/out"),
        cause: String::from("Permission denied"),
    };
    assert_eq!(error.message(), "Failed to create directory '/tmp/out': Permission denied");
}

#[test]
fn store_side_stages_are_remote() {
    assert_eq!(error_at(Stage::GetObject).kind(), ErrorKind::Remote);
    assert_eq!(error_at(Stage::ReadBody).kind(), ErrorKind::Remote);
    assert_eq!(error_at(Stage::PutObject).kind(), ErrorKind::Remote);
}

#[test]
fn filesystem_stages_are_io() {
    assert_eq!(error_at(Stage::CreateFile).kind(), ErrorKind::Io);
    assert_eq!(error_at(Stage::WriteFile).kind(), ErrorKind::Io);
    assert_eq!(error_at(Stage::FlushFile).kind(), ErrorKind::Io);
    assert_eq!(error_at(Stage::OpenFile).kind(), ErrorKind::Io);
    assert_eq!(error_at(Stage::CreateDirectory).kind(), ErrorKind::Io);
}

#[test]
fn setup_error_message() {
    let error = BatchSetupError::Directory {
        directory: String::from("/readonly/out"),
        cause: String::from("Read-only file system"),
    };
    assert_eq!(
        error.message(),
        "Failed to create directory '/readonly/out': Read-only file system"
    );
}

#[test]
fn shared_path_message_names_both_keys_and_the_path() {
    let error = BatchSetupError::SharedPath {
        first_key: String::from("a/x.txt"),
        second_key: String::from("b/x.txt"),
        path: String::from("/tmp/d/x.txt"),
    };
    assert_eq!(
        error.message(),
        "Objects 'a/x.txt' and 'b/x.txt' would both be written to '/tmp/d/x.txt'"
    );
}

#[test]
fn zero_limit_message() {
    assert_eq!(BatchSetupError::ZeroLimit.message(), "The concurrency limit must be at least 1");
}

#[test]
fn setup_passes_when_the_directory_was_created() {
    assert_eq!(check_setup("/tmp/out", Ok(())), Ok(()));
}

#[test]
fn setup_fails_for_the_whole_batch() {
    let ready = check_setup("/tmp/out", Err(String::from("Permission denied")));
    assert_eq!(
        ready,
        Err(BatchSetupError::Directory {
            directory: String::from("/tmp/out"),
            cause: String::from("Permission denied"),
        })
    );
}
