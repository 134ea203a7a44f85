use std::path::PathBuf;

use artie::fs::{join_path, FileSystem, Folder, Settings};
use artie::models::{CopyOperation, MediaLocation, MediaType};

fn setup_file_system(name: &str) -> (PathBuf, FileSystem) {
    let base = PathBuf::from("/tmp").join(name);
    let text = |p: PathBuf| p.to_str().unwrap().to_owned();
    let settings = Settings {
        inbox: text(base.join("inbox")),
        library: text(base.join("library")),
        archive: text(base.join("archive")),
        data: text(base.join("data")),
    };
    (base, FileSystem::new(&settings))
}

fn copy_operation(id: u32, media_type: MediaType, title: &str, disc: u16, season: u16) -> CopyOperation {
    CopyOperation { id, media_type, title: title.to_string(), disc, season, ..CopyOperation::default() }
}

#[test]
fn test_movie_inbox_folder() {
    let (base, file_system) = setup_file_system("artie.test.fs.test_movie_inbox_folder");
    let copy_op = copy_operation(12345, MediaType::Movie, "The Matrix", 1, 0);
    let result = file_system.inbox_folder(&copy_op);
    let expected = base.join("inbox/0x00003039.The Matrix.D1");
    assert_eq!(PathBuf::from(result), expected);
}

#[test]
fn test_movie_inbox_folder_with_large_id() {
    let (base, file_system) = setup_file_system("artie.test.fs.test_movie_inbox_folder_with_large_id");
    let copy_op = copy_operation(0xFFFFFFFF, MediaType::Movie, "Test Movie", 2, 0);
    let result = file_system.inbox_folder(&copy_op);
    let expected = base.join("inbox/0xFFFFFFFF.Test Movie.D2");
    assert_eq!(PathBuf::from(result), expected);
}

#[test]
fn test_show_inbox_folder() {
    let (base, file_system) = setup_file_system("artie.test.fs.test_show_inbox_folder");
    let copy_op = copy_operation(54321, MediaType::Show, "Breaking Bad", 3, 5);
    let result = file_system.inbox_folder(&copy_op);
    let expected = base.join("inbox/0x0000D431.Breaking Bad.S5.D3");
    assert_eq!(PathBuf::from(result), expected);
}

#[test]
fn test_show_inbox_folder_season_zero() {
    let (base, file_system) = setup_file_system("artie.test.fs.test_show_inbox_folder_season_zero");
    let copy_op = copy_operation(100, MediaType::Show, "Extras", 1, 0);
    let result = file_system.inbox_folder(&copy_op);
    let expected = base.join("inbox/0x00000064.Extras.S0.D1");
    assert_eq!(PathBuf::from(result), expected);
}

#[test]
fn test_inbox_folder_with_special_characters_in_title() {
    let (base, file_system) =
        setup_file_system("artie.test.fs.test_inbox_folder_with_special_characters_in_title");
    let copy_op = copy_operation(999, MediaType::Movie, "Movie: The Sequel!", 1, 0);
    let result = file_system.inbox_folder(&copy_op);
    let expected = base.join("inbox/0x000003E7.Movie: The Sequel!.D1");
    assert_eq!(PathBuf::from(result), expected);
}

#[test]
fn test_inbox_folder_with_id_zero() {
    let (base, file_system) = setup_file_system("artie.test.fs.test_inbox_folder_with_id_zero");
    let copy_op = copy_operation(0, MediaType::Movie, "Zero", 1, 0);
    let result = file_system.inbox_folder(&copy_op);
    let expected = base.join("inbox/0x00000000.Zero.D1");
    assert_eq!(PathBuf::from(result), expected);
}

#[test]
fn test_inbox_path() {
    let (base, file_system) = setup_file_system("artie.test.fs.test_inbox_path");
    let location = MediaLocation::Inbox(String::from("movie_folder"));
    let result = file_system.path(&location).map(PathBuf::from);
    assert_eq!(result, Some(base.join("inbox/movie_folder")));
}

#[test]
fn test_library_path() {
    let (base, file_system) = setup_file_system("artie.test.fs.test_library_path");
    let location = MediaLocation::Library(String::from("show_folder"));
    let result = file_system.path(&location).map(PathBuf::from);
    assert_eq!(result, Some(base.join("library/show_folder")));
}

#[test]
fn test_archive_path() {
    let (base, file_system) = setup_file_system("artie.test.fs.test_archive_path");
    let location = MediaLocation::Archive(String::from("archived_content"));
    let result = file_system.path(&location).map(PathBuf::from);
    assert_eq!(result, Some(base.join("archive/archived_content")));
}

#[test]
fn test_deleted_path() {
    let (_base, file_system) = setup_file_system("artie.test.fs.test_deleted_path");
    let location = MediaLocation::Deleted;
    let result = file_system.path(&location);
    assert_eq!(result, None);
}

#[test]
fn test_inbox_path_with_nested_structure() {
    let (base, file_system) = setup_file_system("artie.test.fs.test_inbox_path_with_nested_structure");
    let location = MediaLocation::Inbox(String::from("folder/subfolder/file"));
    let result = file_system.path(&location).map(PathBuf::from);
    assert_eq!(result, Some(base.join("inbox/folder/subfolder/file")));
}

#[test]
fn test_library_path_with_empty_path() {
    let (base, file_system) = setup_file_system("artie.test.fs.test_library_path_with_empty_path");
    let location = MediaLocation::Library(String::from(""));
    let result = file_system.path(&location);
    assert_eq!(result.clone().map(PathBuf::from), Some(base.join("library/")));
    assert!(result.unwrap().ends_with("library/"));
}

#[test]
fn join_matches_std_path_join() {
    let cases = [
        ("/a/b", "c"),
        ("/a/b/", "c"),
        ("", "c"),
        ("/a", "/abs"),
        ("/a", ""),
        ("rel", "x/y"),
        ("/", "x"),
    ];
    for (base, rel) in cases {
        let expected = PathBuf::from(base).join(rel);
        assert_eq!(join_path(base, rel), expected.to_str().unwrap());
    }
}

#[test]
fn inbox_location_lies_in_inbox_folder() {
    let (_base, file_system) = setup_file_system("artie.test.fs.inbox_location");
    let copy_op = copy_operation(7, MediaType::Show, "Show", 2, 1);
    let location = file_system.inbox_location(&copy_op, "title_t00.mkv");
    match &location {
        MediaLocation::Inbox(path) => assert_eq!(path, "0x00000007.Show.S1.D2/title_t00.mkv"),
        _ => panic!("Expected an inbox location"),
    }
    let folder = file_system.inbox_folder(&copy_op);
    assert_eq!(file_system.path(&location).unwrap(), join_path(&folder, "title_t00.mkv"));
}

#[test]
fn data_and_log_files() {
    let settings = Settings {
        inbox: String::from("/srv/inbox"),
        library: String::from("/srv/library"),
        archive: String::from("/srv/archive"),
        data: String::from("/srv/data"),
    };
    let file_system = FileSystem::new(&settings);
    assert_eq!(file_system.data_path("drive.SN1.json"), "/srv/data/drive.SN1.json");
    let copy_op = copy_operation(1, MediaType::Movie, "M", 1, 0);
    assert_eq!(file_system.disc_info_file(&copy_op), "/srv/inbox/0x00000001.M.D1/disc_info.json");
    assert_eq!(file_system.mkv_info_log_file(&copy_op), "/srv/inbox/0x00000001.M.D1/makemkv-info.log");
    assert_eq!(file_system.mkv_copy_log_file(&copy_op), "/srv/inbox/0x00000001.M.D1/makemkv-copy.log");
}

#[test]
fn folder_keeps_paths() {
    let folder = Folder::new("/i", "/l", "/a", "/d");
    assert_eq!(folder.inbox, "/i");
    assert_eq!(folder.library, "/l");
    assert_eq!(folder.archive, "/a");
    assert_eq!(folder.data, "/d");
}

#[test]
fn temp_file_path_is_in_the_temporary_folder() {
    let t = artie::fs::TempFile::new_in("/tmp", "artie.test.temp");
    assert_eq!(t.path(), "/tmp/artie.test.temp");
    let t = artie::fs::TempFile::new_in("/tmp/", "nested/dir");
    assert_eq!(t.path(), "/tmp/nested/dir");
}
