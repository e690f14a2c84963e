use aki_image_view_gtk::chooser::{
    file_uri_for_path, preview_after_load, preview_start, startup_uri, FileChooserMemory,
    PreviewAction, PreviewAttempt, UriMemory,
};
use aki_image_view_gtk::geometry::Size2Di;

#[test]
fn file_uri() {
    assert_eq!(file_uri_for_path("home/a.png"), "file:///home/a.png");
    assert_eq!(file_uri_for_path("/home/a.png"), "file:////home/a.png");
}

#[test]
fn startup_uri_for_path() {
    assert_eq!(startup_uri("", "/home/u"), None);
    assert_eq!(startup_uri("x.jpg", "/home/u").as_deref(), Some("file:////home/u/x.jpg"));
    assert_eq!(startup_uri("pics/x.jpg", "/tmp").as_deref(), Some("file:////tmp/pics/x.jpg"));
    assert_eq!(startup_uri("/srv/x.jpg", "/home/u").as_deref(), Some("file:////srv/x.jpg"));
}

#[test]
fn startup_uri_relative_names_file_in_cwd() {
    // The same file, named relatively and absolutely, gives one URI.
    assert_eq!(startup_uri("photo.png", "/home/u"), startup_uri("/home/u/photo.png", "/"));
}

#[test]
fn reload_opens_last_uri() {
    let mut m = UriMemory::new();
    assert_eq!(m.reload_uri(), None);
    assert!(!m.record_open(""));
    assert_eq!(m.reload_uri(), None);
    assert!(m.record_open("file:///a.png"));
    assert_eq!(m.reload_uri().as_deref(), Some("file:///a.png"));
    assert!(m.record_open("file:///b.png"));
    assert_eq!(m.reload_uri().as_deref(), Some("file:///b.png"));
    assert!(!m.record_open(""));
    assert_eq!(m.reload_uri().as_deref(), Some("file:///b.png"));
}

#[test]
fn memory_starts_empty() {
    let m: FileChooserMemory<String> = FileChooserMemory::new();
    assert_eq!(m.file_to_select(), None);
    assert_eq!(m.folder_when_unselected(false), None);
}

#[test]
fn memory_records_accepted_choice() {
    let mut m = FileChooserMemory::new();
    let r = m.record_response(true, Some("/pics".to_string()), Some("/pics/a.png".to_string()));
    assert!(r);
    assert_eq!(m.file_to_select().map(|s| s.as_str()), Some("/pics/a.png"));
    assert_eq!(m.folder_when_unselected(false).map(|s| s.as_str()), Some("/pics"));
    assert_eq!(m.folder_when_unselected(true), None);
}

#[test]
fn memory_ignores_cancelled_run() {
    let mut m = FileChooserMemory::new();
    m.record_response(true, Some("/a".to_string()), Some("/a/x".to_string()));
    let r = m.record_response(false, Some("/b".to_string()), Some("/b/y".to_string()));
    assert!(!r);
    assert_eq!(m.file_to_select().map(|s| s.as_str()), Some("/a/x"));
    assert_eq!(m.folder_when_unselected(false).map(|s| s.as_str()), Some("/a"));
}

#[test]
fn memory_keeps_old_values_when_missing() {
    let mut m = FileChooserMemory::new();
    m.record_response(true, Some("/a".to_string()), Some("/a/x".to_string()));
    let r = m.record_response(true, None::<String>, None);
    assert!(!r);
    assert_eq!(m.file_to_select().map(|s| s.as_str()), Some("/a/x"));
    assert_eq!(m.folder_when_unselected(false).map(|s| s.as_str()), Some("/a"));
}

#[test]
fn preview_steps() {
    let parent = Size2Di::new(200, 100);
    assert_eq!(preview_start(false, parent), PreviewAction::ShowIcon);
    assert_eq!(
        preview_start(true, parent),
        PreviewAction::Load { attempt: PreviewAttempt::FitWidth, width: 200, height: -1 }
    );
    assert_eq!(
        preview_after_load(PreviewAttempt::FitWidth, parent, Some(Size2Di::new(200, 80))),
        PreviewAction::Show
    );
    let second = PreviewAction::Load { attempt: PreviewAttempt::FitHeight, width: -1, height: 100 };
    assert_eq!(preview_after_load(PreviewAttempt::FitWidth, parent, Some(Size2Di::new(200, 300))), second);
    assert_eq!(preview_after_load(PreviewAttempt::FitWidth, parent, None), second);
    assert_eq!(
        preview_after_load(PreviewAttempt::FitHeight, parent, Some(Size2Di::new(60, 100))),
        PreviewAction::Show
    );
    assert_eq!(
        preview_after_load(PreviewAttempt::FitHeight, parent, Some(Size2Di::new(260, 100))),
        PreviewAction::ShowIcon
    );
    assert_eq!(preview_after_load(PreviewAttempt::FitHeight, parent, None), PreviewAction::ShowIcon);
}
