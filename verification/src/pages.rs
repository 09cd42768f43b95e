//! The closed set of command pages, each carrying its own form fields, and
//! the validation that turns a form into command arguments.
//!
//! What a page's command does against the music library, the portable
//! player and the database is the domain layer's business; a page owns only
//! the operator-facing part: its kind, its description, its form fields and
//! their validation.

use crate::console::MessageType;
use crate::cui::SimpleCui;
use crate::nonempty_string::NonEmptyString;
use vstd::prelude::*;

verus! {

/// The kind of a command page.
#[derive(Clone, Copy, Debug, PartialEq, Eq, Structural)]
pub enum PageType {
    Add,
    Playlist,
    Move,
    Remove,
    Check,
}

/// Form for the add command: path of the tracks to add.
pub struct PageAdd {
    pub tracks_path: String,
}

impl Default for PageAdd {
    /// An empty form.
    fn default() -> (p: PageAdd)
        ensures
            p.tracks_path@ == Seq::<char>::empty(),
    {
        PageAdd { tracks_path: String::new() }
    }
}

impl PageAdd {
    pub fn page_type(&self) -> (t: PageType)
        ensures
            t == PageType::Add,
    {
        PageType::Add
    }

    pub fn page_discription(&self) -> (d: &'static str)
        ensures
            d@ == "曲をライブラリに追加"@,
    {
        "曲をライブラリに追加"
    }

    /// Validates the form: the command takes the path exactly as entered,
    /// and an empty path is rejected with the form's error message.
    pub fn command_args(&self) -> (r: Result<NonEmptyString, String>)
        ensures
            match r {
                Ok(path) => self.tracks_path@.len() > 0 && path@ == self.tracks_path@,
                Err(e) => self.tracks_path@.len() == 0 && e@ == "追加する曲のパスが未入力です"@,
            },
    {
        match NonEmptyString::try_new(self.tracks_path.clone()) {
            Ok(path) => Ok(path),
            Err(_) => Err("追加する曲のパスが未入力です".to_owned()),
        }
    }
}

/// Form for the playlist command: it has no parameters.
pub struct PagePlaylist;

impl Default for PagePlaylist {
    fn default() -> (p: PagePlaylist) {
        PagePlaylist
    }
}

impl PagePlaylist {
    pub fn page_type(&self) -> (t: PageType)
        ensures
            t == PageType::Playlist,
    {
        PageType::Playlist
    }

    pub fn page_discription(&self) -> (d: &'static str)
        ensures
            d@ == "DAPのプレイリストを更新"@,
    {
        "DAPのプレイリストを更新"
    }

    /// Runs the playlist command: it reports its run to the console and
    /// succeeds.
    pub fn run_command<C: SimpleCui>(&self, cui: &mut C) -> (r: Result<(), String>)
        ensures
            r is Ok,
            final(cui).log_history() == old(cui).log_history().push(
                (MessageType::Log, "[INFO] playlist コマンドを実行"@),
            ).push((MessageType::Log, "[INFO] playlist 処理が完了しました"@)),
            final(cui).answers() == old(cui).answers(),
    {
        cui.out_log("[INFO] playlist コマンドを実行");
        cui.out_log("[INFO] playlist 処理が完了しました");
        Ok(())
    }
}

/// Form for the move command: source and destination library paths.
pub struct PageMove {
    pub src_path: String,
    pub dest_path: String,
}

impl Default for PageMove {
    /// An empty form.
    fn default() -> (p: PageMove)
        ensures
            p.src_path@ == Seq::<char>::empty(),
            p.dest_path@ == Seq::<char>::empty(),
    {
        PageMove { src_path: String::new(), dest_path: String::new() }
    }
}

impl PageMove {
    pub fn page_type(&self) -> (t: PageType)
        ensures
            t == PageType::Move,
    {
        PageType::Move
    }

    pub fn page_discription(&self) -> (d: &'static str)
        ensures
            d@ == "ライブラリ内で曲のパスを移動"@,
    {
        "ライブラリ内で曲のパスを移動"
    }

    /// Validates the form: both paths are taken exactly as entered; an empty
    /// source is reported first, then an empty destination.
    pub fn command_args(&self) -> (r: Result<(NonEmptyString, NonEmptyString), String>)
        ensures
            match r {
                Ok(paths) => {
                    &&& self.src_path@.len() > 0 && self.dest_path@.len() > 0
                    &&& paths.0@ == self.src_path@
                    &&& paths.1@ == self.dest_path@
                },
                Err(e) => {
                    &&& (self.src_path@.len() == 0 || self.dest_path@.len() == 0)
                    &&& (self.src_path@.len() == 0 ==> e@ == "移動元のパスが未入力です"@)
                    &&& (self.src_path@.len() > 0 ==> e@ == "移動先のパスが未入力です"@)
                },
            },
    {
        let src = match NonEmptyString::try_new(self.src_path.clone()) {
            Ok(path) => path,
            Err(_) => {
                return Err("移動元のパスが未入力です".to_owned());
            },
        };
        let dest = match NonEmptyString::try_new(self.dest_path.clone()) {
            Ok(path) => path,
            Err(_) => {
                return Err("移動先のパスが未入力です".to_owned());
            },
        };
        Ok((src, dest))
    }
}

/// Form for the remove command: path of the tracks to remove.
pub struct PageRemove {
    pub target_path: String,
}

impl Default for PageRemove {
    /// An empty form.
    fn default() -> (p: PageRemove)
        ensures
            p.target_path@ == Seq::<char>::empty(),
    {
        PageRemove { target_path: String::new() }
    }
}

impl PageRemove {
    pub fn page_type(&self) -> (t: PageType)
        ensures
            t == PageType::Remove,
    {
        PageType::Remove
    }

    pub fn page_discription(&self) -> (d: &'static str)
        ensures
            d@ == "ライブラリから曲を削除"@,
    {
        "ライブラリから曲を削除"
    }

    /// Validates the form: the command takes the path exactly as entered,
    /// and an empty path is rejected with the form's error message.
    pub fn command_args(&self) -> (r: Result<NonEmptyString, String>)
        ensures
            match r {
                Ok(path) => self.target_path@.len() > 0 && path@ == self.target_path@,
                Err(e) => self.target_path@.len() == 0 && e@ == "削除する曲のパスが未入力です"@,
            },
    {
        match NonEmptyString::try_new(self.target_path.clone()) {
            Ok(path) => Ok(path),
            Err(_) => Err("削除する曲のパスが未入力です".to_owned()),
        }
    }
}

/// Form for the check command: the library path to check, which may be left
/// empty to check everything, and whether to ignore the contents of the
/// portable player's files.
pub struct PageCheck {
    pub target_path: String,
    pub ignore_dap_content: bool,
}

impl Default for PageCheck {
    /// An empty form.
    fn default() -> (p: PageCheck)
        ensures
            p.target_path@ == Seq::<char>::empty(),
            !p.ignore_dap_content,
    {
        PageCheck { target_path: String::new(), ignore_dap_content: false }
    }
}

impl PageCheck {
    pub fn page_type(&self) -> (t: PageType)
        ensures
            t == PageType::Check,
    {
        PageType::Check
    }

    pub fn page_discription(&self) -> (d: &'static str)
        ensures
            d@ == "PC・DAP・DBの齟齬を確認・解決"@,
    {
        "PC・DAP・DBの齟齬を確認・解決"
    }

    /// Validates the form: an empty path means no path restriction, never an
    /// error.
    pub fn command_args(&self) -> (r: (Option<NonEmptyString>, bool))
        ensures
            match r.0 {
                Some(path) => self.target_path@.len() > 0 && path@ == self.target_path@,
                None => self.target_path@.len() == 0,
            },
            r.1 == self.ignore_dap_content,
    {
        let path = match NonEmptyString::try_new(self.target_path.clone()) {
            Ok(p) => Some(p),
            Err(_) => None,
        };
        (path, self.ignore_dap_content)
    }
}

/// The closed set of command pages as one tagged value.
pub enum Page {
    Add(PageAdd),
    Playlist(PagePlaylist),
    Move(PageMove),
    Remove(PageRemove),
    Check(PageCheck),
}

impl Page {
    pub open spec fn spec_page_type(&self) -> PageType {
        match self {
            Page::Add(_) => PageType::Add,
            Page::Playlist(_) => PageType::Playlist,
            Page::Move(_) => PageType::Move,
            Page::Remove(_) => PageType::Remove,
            Page::Check(_) => PageType::Check,
        }
    }

    pub fn page_type(&self) -> (t: PageType)
        ensures
            t == self.spec_page_type(),
    {
        match self {
            Page::Add(p) => p.page_type(),
            Page::Playlist(p) => p.page_type(),
            Page::Move(p) => p.page_type(),
            Page::Remove(p) => p.page_type(),
            Page::Check(p) => p.page_type(),
        }
    }

    pub fn page_discription(&self) -> (d: &'static str)
        ensures
            *self matches Page::Add(_) ==> d@ == "曲をライブラリに追加"@,
            *self matches Page::Playlist(_) ==> d@ == "DAPのプレイリストを更新"@,
            *self matches Page::Move(_) ==> d@ == "ライブラリ内で曲のパスを移動"@,
            *self matches Page::Remove(_) ==> d@ == "ライブラリから曲を削除"@,
            *self matches Page::Check(_) ==> d@ == "PC・DAP・DBの齟齬を確認・解決"@,
    {
        match self {
            Page::Add(p) => p.page_discription(),
            Page::Playlist(p) => p.page_discription(),
            Page::Move(p) => p.page_discription(),
            Page::Remove(p) => p.page_discription(),
            Page::Check(p) => p.page_discription(),
        }
    }
}

/// Whether `p` is the freshly opened page of kind `t`: right variant, empty
/// form.
pub open spec fn is_default_page_of(p: Page, t: PageType) -> bool {
    match t {
        PageType::Add => p matches Page::Add(a) && a.tracks_path@ == Seq::<char>::empty(),
        PageType::Playlist => p matches Page::Playlist(_),
        PageType::Move => p matches Page::Move(m) && m.src_path@ == Seq::<char>::empty()
            && m.dest_path@ == Seq::<char>::empty(),
        PageType::Remove => p matches Page::Remove(r) && r.target_path@ == Seq::<char>::empty(),
        PageType::Check => p matches Page::Check(c) && c.target_path@ == Seq::<char>::empty()
            && !c.ignore_dap_content,
    }
}

/// The freshly opened page of the given kind.
pub fn default_page_by_type(page_type: &PageType) -> (p: Page)
    ensures
        p.spec_page_type() == *page_type,
        is_default_page_of(p, *page_type),
{
    match page_type {
        PageType::Add => Page::Add(PageAdd::default()),
        PageType::Playlist => Page::Playlist(PagePlaylist::default()),
        PageType::Move => Page::Move(PageMove::default()),
        PageType::Remove => Page::Remove(PageRemove::default()),
        PageType::Check => Page::Check(PageCheck::default()),
    }
}

} // verus!
