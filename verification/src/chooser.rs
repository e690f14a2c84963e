use vstd::prelude::*;
use crate::geometry::Size2Di;
use crate::text::push_str;

verus! {

/// `file:///`
pub open spec fn file_uri_prefix() -> Seq<char> {
    seq!['f', 'i', 'l', 'e', ':', '/', '/', '/']
}

/// The `file:` URI the viewer opens for a local path: `file:///` followed
/// by the path as given.
pub fn file_uri_for_path(path: &str) -> (uri: String)
    ensures
        uri@ == file_uri_prefix() + path@,
{
    let mut uri = String::new();
    push_str(&mut uri, "file:///");
    push_str(&mut uri, path);
    proof {
        reveal_strlit("file:///");
        assert(uri@ =~= file_uri_prefix() + path@);
    }
    uri
}

/// The path that a command-line image path names: itself when it is
/// absolute (begins with `/`), else that path under the working directory
/// `cwd`.
pub open spec fn path_from_cwd(img_path: Seq<char>, cwd: Seq<char>) -> Seq<char> {
    if img_path.len() > 0 && img_path[0] == '/' {
        img_path
    } else {
        cwd + seq!['/'] + img_path
    }
}

/// The URI to open at start-up for the image path given on the command
/// line, a relative path being taken from the working directory `cwd`;
/// none for an empty path.
pub fn startup_uri(img_path: &str, cwd: &str) -> (uri: Option<String>)
    ensures
        img_path@.len() == 0 ==> uri is None,
        img_path@.len() > 0 ==> (uri matches Some(u)
            && u@ == file_uri_prefix() + path_from_cwd(img_path@, cwd@)),
{
    let n = img_path.unicode_len();
    if n == 0 {
        return None;
    }
    if img_path.get_char(0) == '/' {
        Some(file_uri_for_path(img_path))
    } else {
        let mut path = String::new();
        push_str(&mut path, cwd);
        push_str(&mut path, "/");
        push_str(&mut path, img_path);
        proof {
            reveal_strlit("/");
            assert(path@ =~= path_from_cwd(img_path@, cwd@));
        }
        Some(file_uri_for_path(path.as_str()))
    }
}

/// The URI of the image opened last, which a reload opens again.
pub struct UriMemory {
    last: String,
}

impl View for UriMemory {
    type V = Seq<char>;

    closed spec fn view(&self) -> Seq<char> {
        self.last@
    }
}

/// What is remembered after an attempt to open `uri`: an empty URI opens
/// nothing and changes nothing; any other is remembered.
pub open spec fn after_open(last: Seq<char>, uri: Seq<char>) -> Seq<char> {
    if uri.len() > 0 { uri } else { last }
}

/// What a reload opens: the URI remembered, none while it is empty.
pub open spec fn reload_target(last: Seq<char>) -> Option<Seq<char>> {
    if last.len() > 0 { Some(last) } else { None }
}

impl UriMemory {
    /// Nothing opened yet.
    pub fn new() -> (m: Self)
        ensures
            m@.len() == 0,
    {
        UriMemory { last: String::new() }
    }

    /// Called when an image is to be opened from `uri`. Tells whether it is
    /// to be opened at all (not for an empty URI).
    pub fn record_open(&mut self, uri: &str) -> (open: bool)
        ensures
            open == (uri@.len() > 0),
            final(self)@ == after_open(old(self)@, uri@),
    {
        if uri.unicode_len() == 0 {
            false
        } else {
            self.last = uri.to_owned();
            true
        }
    }

    /// The URI that a reload opens.
    pub fn reload_uri(&self) -> (uri: Option<String>)
        ensures
            (match uri {
                Some(u) => reload_target(self@) == Some(u@),
                None => reload_target(self@) is None,
            }),
    {
        if self.last.as_str().unicode_len() == 0 {
            None
        } else {
            Some(self.last.clone())
        }
    }
}

/// A reload opens again the image opened last: after an image is opened
/// from a non-empty `uri`, a reload opens `uri`; an attempt with an empty
/// URI leaves what a reload opens unchanged.
pub proof fn lemma_reload_opens_last(last: Seq<char>, uri: Seq<char>)
    ensures
        uri.len() > 0 ==> reload_target(after_open(last, uri)) == Some(uri),
        uri.len() == 0 ==> reload_target(after_open(last, uri)) == reload_target(last),
{
}

/// What the file chooser remembers between runs: the folder and the file
/// of the last accepted choice, as the dialog reported them (`P` is the
/// path type).
pub struct FileChooserMemory<P> {
    last_dir: Option<P>,
    last_filename: Option<P>,
}

/// The remembered folder and file.
pub struct FileChooserMemoryModel<P> {
    pub last_dir: Option<P>,
    pub last_filename: Option<P>,
}

impl<P> View for FileChooserMemory<P> {
    type V = FileChooserMemoryModel<P>;

    closed spec fn view(&self) -> FileChooserMemoryModel<P> {
        FileChooserMemoryModel { last_dir: self.last_dir, last_filename: self.last_filename }
    }
}

impl<P> FileChooserMemory<P> {
    pub fn new() -> (m: Self)
        ensures
            m@.last_dir is None,
            m@.last_filename is None,
    {
        FileChooserMemory { last_dir: None, last_filename: None }
    }

    /// Before the dialog runs: the file to select again, if any. After an
    /// accepted run that chose a file, it is that file.
    pub fn file_to_select(&self) -> (f: Option<&P>)
        ensures
            f == (match self@.last_filename {
                Some(p) => Some(&p),
                None => None::<&P>,
            }),
    {
        match &self.last_filename {
            Some(p) => Some(p),
            None => None,
        }
    }

    /// When selecting the remembered file failed: the folder to show
    /// instead, if one is remembered.
    pub fn folder_when_unselected(&self, selected: bool) -> (d: Option<&P>)
        ensures
            selected ==> d is None,
            !selected ==> d == (match self@.last_dir {
                Some(p) => Some(&p),
                None => None::<&P>,
            }),
    {
        if !selected {
            match &self.last_dir {
                Some(p) => Some(p),
                None => None,
            }
        } else {
            None
        }
    }

    /// After the dialog ran: when the user accepted, remembers the shown
    /// folder and the chosen file (each when there is one). Tells whether a
    /// file was chosen; that file is then `file_to_select()`.
    pub fn record_response(
        &mut self,
        accepted: bool,
        current_folder: Option<P>,
        filename: Option<P>,
    ) -> (chosen: bool)
        ensures
            chosen == (accepted && filename is Some),
            !accepted ==> final(self)@ == old(self)@,
            accepted ==> final(self)@.last_dir == (match current_folder {
                Some(d) => Some(d),
                None => old(self)@.last_dir,
            }),
            accepted ==> final(self)@.last_filename == (match filename {
                Some(f) => Some(f),
                None => old(self)@.last_filename,
            }),
    {
        if accepted {
            if let Some(dir) = current_folder {
                self.last_dir = Some(dir);
            }
            match filename {
                Some(path) => {
                    self.last_filename = Some(path);
                    true
                },
                None => false,
            }
        } else {
            false
        }
    }
}

/// Which way the preview image is being fitted into its frame.
#[derive(Debug, Clone, Copy, PartialEq, Eq, Structural)]
pub enum PreviewAttempt {
    /// Scaled to the frame's width, height free.
    FitWidth,
    /// Scaled to the frame's height, width free.
    FitHeight,
}

/// The next step of showing a preview in the file chooser.
#[derive(Debug, Clone, Copy, PartialEq, Eq, Structural)]
pub enum PreviewAction {
    /// Load the previewed file scaled to `width`×`height` (`-1`: keep the
    /// aspect ratio in that direction).
    Load { attempt: PreviewAttempt, width: i32, height: i32 },
    /// Show the image just loaded.
    Show,
    /// Show no image.
    ShowIcon,
}

/// First step for a selection change: load the file fitted to the frame's
/// width, or show no image when nothing is selected for preview.
pub fn preview_start(has_file: bool, parent_wh: Size2Di) -> (a: PreviewAction)
    ensures
        has_file ==> a == (PreviewAction::Load {
            attempt: PreviewAttempt::FitWidth,
            width: parent_wh@.0 as i32,
            height: -1i32,
        }),
        !has_file ==> a == PreviewAction::ShowIcon,
{
    if has_file {
        PreviewAction::Load { attempt: PreviewAttempt::FitWidth, width: parent_wh.w(), height: -1 }
    } else {
        PreviewAction::ShowIcon
    }
}

/// Step after a load (`loaded`: the loaded image's size, none when loading
/// failed): an image fitted to the width is shown when its height fits the
/// frame, else the file is loaded again fitted to the height; an image
/// fitted to the height is shown when its width fits, else no image is.
pub fn preview_after_load(
    attempt: PreviewAttempt,
    parent_wh: Size2Di,
    loaded: Option<Size2Di>,
) -> (a: PreviewAction)
    ensures
        attempt == PreviewAttempt::FitWidth ==> (
            if loaded matches Some(pb) && pb@.1 <= parent_wh@.1 {
                a == PreviewAction::Show
            } else {
                a == (PreviewAction::Load {
                    attempt: PreviewAttempt::FitHeight,
                    width: -1i32,
                    height: parent_wh@.1 as i32,
                })
            }),
        attempt == PreviewAttempt::FitHeight ==> (
            if loaded matches Some(pb) && pb@.0 <= parent_wh@.0 {
                a == PreviewAction::Show
            } else {
                a == PreviewAction::ShowIcon
            }),
{
    match attempt {
        PreviewAttempt::FitWidth => {
            match loaded {
                Some(pb) => {
                    if pb.h() <= parent_wh.h() {
                        return PreviewAction::Show;
                    }
                },
                None => {},
            }
            PreviewAction::Load { attempt: PreviewAttempt::FitHeight, width: -1, height: parent_wh.h() }
        },
        PreviewAttempt::FitHeight => {
            match loaded {
                Some(pb) => {
                    if pb.w() <= parent_wh.w() {
                        return PreviewAction::Show;
                    }
                },
                None => {},
            }
            PreviewAction::ShowIcon
        },
    }
}

} // verus!
