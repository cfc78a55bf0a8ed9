use zed_flatbuffers::command::{language_server_command, LaunchCommand};
use zed_flatbuffers::error::ResolveError;
use zed_flatbuffers::tool::Tool;

const ADVICE: &str = "You can download a release manually or build from source here: https://github.com/smpanaro/flatbuffers-language-server\nOr open an issue here: https://github.com/smpanaro/zed-flatbuffers/issues";

#[test]
fn message_of_a_failed_release_lookup() {
    let error = ResolveError::ReleaseLookup { cause: "no releases found".to_string() };
    assert_eq!(error.message("advice"), "no releases found\n\nadvice");
}

#[test]
fn message_of_a_missing_asset() {
    let error = ResolveError::AssetNotFound { asset_name: "tool-1.2.3-x86-apple-darwin.tar.gz".to_string() };
    assert_eq!(
        error.message(ADVICE),
        format!("no asset found matching \"tool-1.2.3-x86-apple-darwin.tar.gz\"\n\n{}", ADVICE)
    );
}

#[test]
fn message_of_a_missing_asset_holds_the_name() {
    let name = "flatbuffers-language-server-9.9.9-aarch64-unknown-linux-gnu.tar.gz";
    let error = ResolveError::AssetNotFound { asset_name: name.to_string() };
    assert!(error.message(ADVICE).contains(name));
    let odd = "a\"b\\c\n";
    let error = ResolveError::AssetNotFound { asset_name: odd.to_string() };
    assert!(error.message(ADVICE).contains(odd));
}

#[test]
fn message_of_a_failed_directory_creation() {
    let error = ResolveError::DirectoryCreate {
        directory: "tool-1.2.3".to_string(),
        cause: "permission denied".to_string(),
    };
    assert_eq!(
        error.message("advice"),
        "failed to create directory 'tool-1.2.3': permission denied\n\nadvice"
    );
}

#[test]
fn message_of_a_failed_download() {
    let error = ResolveError::Download { cause: "connection reset".to_string() };
    assert_eq!(error.message("advice"), "failed to download file: connection reset\n\nadvice");
}

#[test]
fn message_of_a_refused_permission() {
    let error = ResolveError::Permission { cause: "operation not permitted".to_string() };
    assert_eq!(error.message("advice"), "operation not permitted\n\nadvice");
}

#[test]
fn message_of_a_failed_listing() {
    let error = ResolveError::DirectoryList { cause: "not a directory".to_string() };
    assert_eq!(
        error.message("advice"),
        "failed to list working directory not a directory\n\nadvice"
    );
}

#[test]
fn every_message_ends_with_the_advice() {
    let errors = vec![
        ResolveError::ReleaseLookup { cause: "a".to_string() },
        ResolveError::AssetNotFound { asset_name: "b".to_string() },
        ResolveError::DirectoryCreate { directory: "c".to_string(), cause: "d".to_string() },
        ResolveError::Download { cause: "e".to_string() },
        ResolveError::Permission { cause: "f".to_string() },
        ResolveError::DirectoryList { cause: "g".to_string() },
    ];
    for error in errors {
        assert!(error.message(ADVICE).ends_with(&format!("\n\n{}", ADVICE)));
        assert_eq!(error.clone(), error);
    }
}

#[test]
fn command_starts_the_binary_without_arguments() {
    let command = language_server_command(Ok("/usr/bin/flatbuffers-language-server".to_string()), ADVICE);
    assert_eq!(
        command,
        Ok(LaunchCommand {
            executable_path: "/usr/bin/flatbuffers-language-server".to_string(),
            args: vec![],
            environment: vec![],
        })
    );
}

#[test]
fn command_of_a_failed_resolution_is_its_message() {
    let tool = Tool::flatbuffers();
    let command = language_server_command(
        Err(ResolveError::Download { cause: "timed out".to_string() }),
        &tool.remediation,
    );
    assert_eq!(command, Err(format!("failed to download file: timed out\n\n{}", ADVICE)));
}
