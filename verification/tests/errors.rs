use config_store::error::{Action, StoreError};

#[test]
fn environment_message() {
    let e = StoreError::Environment {
        cause: "No such file or directory (os error 2)".to_string(),
    };
    assert_eq!(
        e.message(),
        "Failed to get current directory: No such file or directory (os error 2)"
    );
}

#[test]
fn resolution_message() {
    assert_eq!(
        StoreError::Resolution.message(),
        "Could not determine data directory location"
    );
}

#[test]
fn create_dir_message() {
    let e = StoreError::Io {
        action: Action::CreateDir,
        path: "/opt/editor/src/data".to_string(),
        cause: "Permission denied (os error 13)".to_string(),
    };
    assert_eq!(
        e.message(),
        "Failed to create directory \"/opt/editor/src/data\": Permission denied (os error 13)"
    );
}

#[test]
fn write_file_message() {
    let e = StoreError::Io {
        action: Action::WriteFile,
        path: "/opt/editor/src/data/config-templates.json".to_string(),
        cause: "Is a directory (os error 21)".to_string(),
    };
    assert_eq!(
        e.message(),
        "Failed to write file at \"/opt/editor/src/data/config-templates.json\": Is a directory (os error 21)"
    );
}

#[test]
fn read_file_message() {
    let e = StoreError::Io {
        action: Action::ReadFile,
        path: "/opt/editor/src/data/config-templates.json".to_string(),
        cause: "stream did not contain valid UTF-8".to_string(),
    };
    assert_eq!(
        e.message(),
        "Failed to read file at \"/opt/editor/src/data/config-templates.json\": stream did not contain valid UTF-8"
    );
}

#[test]
fn message_quotes_the_path_as_a_path_is_printed() {
    let e = StoreError::Io {
        action: Action::WriteFile,
        path: "/tmp/a \"b\"\n/c".to_string(),
        cause: "x".to_string(),
    };
    assert_eq!(
        e.message(),
        "Failed to write file at \"/tmp/a \\\"b\\\"\\n/c\": x"
    );
}
