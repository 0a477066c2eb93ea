use viewing_system::{response_message, DialogResponse, DATA_FILE_EXTENSION};

#[test]
fn single_file_is_quoted() {
    let r = DialogResponse::Okay("/tmp/a.dat".to_string());
    assert_eq!(response_message(&r), "File Path = \"/tmp/a.dat\"");
}

#[test]
fn quotes_in_a_path_are_escaped() {
    let r = DialogResponse::Okay("a\"b".to_string());
    assert_eq!(response_message(&r), "File Path = \"a\\\"b\"");
}

#[test]
fn several_files_are_listed() {
    let r = DialogResponse::OkayMultiple(vec!["a.dat".to_string(), "b.dat".to_string()]);
    assert_eq!(response_message(&r), "Files [\"a.dat\", \"b.dat\"]");
}

#[test]
fn no_files_give_an_empty_list() {
    let r = DialogResponse::OkayMultiple(Vec::new());
    assert_eq!(response_message(&r), "Files []");
}

#[test]
fn cancel_is_reported() {
    assert_eq!(response_message(&DialogResponse::Cancel), "User canceled");
}

#[test]
fn dialog_filters_data_files() {
    assert_eq!(DATA_FILE_EXTENSION, "dat");
}

#[test]
fn file_path_line_prefixes_the_text() {
    assert_eq!(viewing_system::file_path_line("\"x.dat\""), "File Path = \"x.dat\"");
}

#[test]
fn files_line_prefixes_the_text() {
    assert_eq!(viewing_system::files_line("[]"), "Files []");
}

#[test]
fn one_file_in_a_list() {
    let r = DialogResponse::OkayMultiple(vec!["a\\b.dat".to_string()]);
    assert_eq!(response_message(&r), "Files [\"a\\\\b.dat\"]");
}
