//! The plain data types handed to the editor's API, and the names the API
//! knows their values by.

use vstd::prelude::*;
use crate::fuzzy::HLText;
use crate::text::push_char;

verus! {

/// Where virtual text is placed.
#[derive(PartialEq, Eq, Structural, Clone, Copy)]
pub enum VirtTextPos {
    Eol,
    Overlay,
    RightAlign,
    Inline,
}

impl VirtTextPos {
    /// The name the API knows the position by.
    pub fn name(&self) -> (r: &'static str)
        ensures
            r@ == match self {
                VirtTextPos::Eol => "eol"@,
                VirtTextPos::Overlay => "overlay"@,
                VirtTextPos::RightAlign => "right_align"@,
                VirtTextPos::Inline => "inline"@,
            },
    {
        match self {
            VirtTextPos::Eol => "eol",
            VirtTextPos::Overlay => "overlay",
            VirtTextPos::RightAlign => "right_align",
            VirtTextPos::Inline => "inline",
        }
    }
}

/// How highlights combine with the text's own.
#[derive(PartialEq, Eq, Structural, Clone, Copy)]
pub enum HLMode {
    Replace,
    Combine,
    Blend,
}

impl HLMode {
    /// The name the API knows the mode by.
    pub fn name(&self) -> (r: &'static str)
        ensures
            r@ == match self {
                HLMode::Replace => "replace"@,
                HLMode::Combine => "combine"@,
                HLMode::Blend => "blend"@,
            },
    {
        match self {
            HLMode::Replace => "replace",
            HLMode::Combine => "combine",
            HLMode::Blend => "blend",
        }
    }
}

/// A title or footer: plain text, or pieces of text with highlights.
pub enum TextType {
    String(String),
    Tuples(Vec<HLText>),
}

/// Severity of a notification.
#[derive(PartialEq, Eq, Structural, Clone, Copy)]
pub enum LogLevel {
    Trace,
    Debug,
    Info,
    Warn,
    Error,
    Off,
}

impl LogLevel {
    /// The number the API knows the level by.
    pub fn level(&self) -> (r: usize)
        ensures
            r == match self {
                LogLevel::Trace => 0usize,
                LogLevel::Debug => 1usize,
                LogLevel::Info => 2usize,
                LogLevel::Warn => 3usize,
                LogLevel::Error => 4usize,
                LogLevel::Off => 5usize,
            },
    {
        match self {
            LogLevel::Trace => 0,
            LogLevel::Debug => 1,
            LogLevel::Info => 2,
            LogLevel::Warn => 3,
            LogLevel::Error => 4,
            LogLevel::Off => 5,
        }
    }
}

/// The editor's standard directories.
#[derive(PartialEq, Eq, Structural, Clone, Copy)]
pub enum StdpathType {
    /// Cache directory: arbitrary temporary storage for plugins, etc.
    Cache,
    /// User configuration directory.
    Config,
    /// User data directory.
    Data,
    /// Logs directory (for use by plugins too).
    Log,
    /// Run directory: temporary, local storage for sockets, named pipes, etc.
    Run,
    /// Session state directory: storage for file drafts, swap, undo, shada.
    State,
}

impl StdpathType {
    /// The name the API knows the directory by.
    pub fn name(&self) -> (r: &'static str)
        ensures
            r@ == match self {
                StdpathType::Cache => "cache"@,
                StdpathType::Config => "config"@,
                StdpathType::Data => "data"@,
                StdpathType::Log => "log"@,
                StdpathType::Run => "run"@,
                StdpathType::State => "state"@,
            },
    {
        match self {
            StdpathType::Cache => "cache",
            StdpathType::Config => "config",
            StdpathType::Data => "data",
            StdpathType::Log => "log",
            StdpathType::Run => "run",
            StdpathType::State => "state",
        }
    }
}

/// Where a file is opened.
#[derive(PartialEq, Eq, Structural, Clone, Copy)]
pub enum OpenIn {
    Buffer,
    VSplit,
    HSplit,
    Tab,
}

impl OpenIn {
    /// The editor command that opens a file there.
    pub fn command(&self) -> (r: &'static str)
        ensures
            r@ == match self {
                OpenIn::Buffer => "edit"@,
                OpenIn::Tab => "tabedit"@,
                OpenIn::VSplit => "vsplit"@,
                OpenIn::HSplit => "split"@,
            },
    {
        match self {
            OpenIn::Buffer => "edit",
            OpenIn::Tab => "tabedit",
            OpenIn::VSplit => "vsplit",
            OpenIn::HSplit => "split",
        }
    }
}

/// An editor mode.
#[derive(PartialEq, Eq, Structural, Clone, Copy)]
pub enum Mode {
    Normal,
    Insert,
    Visual,
    Select,
}

/// The letter the API knows a mode by.
pub open spec fn mode_letter(m: Mode) -> char {
    match m {
        Mode::Insert => 'i',
        Mode::Normal => 'n',
        Mode::Visual => 'v',
        Mode::Select => 's',
    }
}

impl Mode {
    /// The letter the API knows the mode by.
    pub fn get_char(&self) -> (r: char)
        ensures
            r == mode_letter(*self),
    {
        match self {
            Mode::Insert => 'i',
            Mode::Normal => 'n',
            Mode::Visual => 'v',
            Mode::Select => 's',
        }
    }

    /// The letter the API knows the mode by, as text.
    pub fn get_str(&self) -> (r: &'static str)
        ensures
            r@ == seq![mode_letter(*self)],
    {
        let r = match self {
            Mode::Insert => "i",
            Mode::Normal => "n",
            Mode::Visual => "v",
            Mode::Select => "s",
        };
        proof {
            reveal_strlit("i");
            reveal_strlit("n");
            reveal_strlit("v");
            reveal_strlit("s");
        }
        r
    }
}

/// A window cursor position: the row counted from 1, the column from 0.
#[derive(Clone, Copy)]
pub struct WinCursor {
    row: u32,
    pub column: u32,
}

impl WinCursor {
    /// The row, counted from 1.
    pub closed spec fn row(&self) -> u32 {
        self.row
    }

    /// The column, counted from 0.
    pub closed spec fn col(&self) -> u32 {
        self.column
    }

    /// A cursor at `row` counted from 0.
    pub fn from_zero_indexed(row: u32, column: u32) -> (r: WinCursor)
        requires
            row < u32::MAX,
        ensures
            r.row() == row + 1,
            r.col() == column,
    {
        WinCursor { row: row + 1, column }
    }

    /// A cursor at `row` counted from 1.
    pub fn from_one_indexed(row: u32, column: u32) -> (r: WinCursor)
        ensures
            r.row() == row,
            r.col() == column,
    {
        WinCursor { row, column }
    }

    /// The row counted from 0.
    pub fn row_zero_indexed(&self) -> (r: u32)
        requires
            self.row() >= 1,
        ensures
            r == self.row() - 1,
    {
        self.row - 1
    }

    /// The row counted from 1.
    pub fn row_one_indexed(&self) -> (r: u32)
        ensures
            r == self.row(),
    {
        self.row
    }
}

/// Counting from 0 and back: a cursor made from a row counted from 0 gives
/// that row back counted from 0, and the same row plus one counted from 1.
pub proof fn law_cursor_rows(row: u32, c: WinCursor)
    requires
        row < u32::MAX,
        c.row() == row + 1,
    ensures
        c.row() >= 1,
        c.row() - 1 == row,
{
}

/// An autocommand, by id.
#[derive(PartialEq, Eq, Structural, Clone, Copy)]
pub struct AutoCmd(u32);

impl View for AutoCmd {
    type V = u32;

    closed spec fn view(&self) -> u32 {
        self.0
    }
}

impl AutoCmd {
    pub fn new(id: u32) -> (r: AutoCmd)
        ensures
            r@ == id,
    {
        AutoCmd(id)
    }

    pub fn id(&self) -> (r: u32)
        ensures
            r == self@,
    {
        self.0
    }
}

/// An autocommand group, by name or by id.
pub enum AutoCmdGroup {
    String(String),
    Integer(u32),
}

/// Options of a key mapping.
#[derive(Clone, Copy)]
pub struct KeymapOpts {
    pub silent: Option<bool>,
    pub buffer: Option<u32>,
}

impl KeymapOpts {
    /// A mapping local to buffer `buf_id`.
    pub fn new(buf_id: u32, silent: bool) -> (r: KeymapOpts)
        ensures
            r.buffer == Some(buf_id),
            r.silent == Some(silent),
    {
        KeymapOpts { buffer: Some(buf_id), silent: Some(silent) }
    }
}

/// Options of deleting a buffer.
#[derive(Clone, Copy)]
pub struct BufferDeleteOpts {
    pub force: bool,
    pub unload: bool,
}

/// A window, by id.
#[derive(PartialEq, Eq, Structural, Clone, Copy)]
pub struct NeoWindow(u32);

impl View for NeoWindow {
    type V = u32;

    closed spec fn view(&self) -> u32 {
        self.0
    }
}

impl NeoWindow {
    /// The current window.
    pub fn current() -> (r: NeoWindow)
        ensures
            r@ == 0,
    {
        NeoWindow(0)
    }

    pub fn new(id: u32) -> (r: NeoWindow)
        ensures
            r@ == id,
    {
        NeoWindow(id)
    }

    pub fn id(&self) -> (r: u32)
        ensures
            r == self@,
    {
        self.0
    }
}

/// A buffer, by id.
#[derive(PartialEq, Eq, Structural, Clone, Copy)]
pub struct NeoBuffer(u32);

impl View for NeoBuffer {
    type V = u32;

    closed spec fn view(&self) -> u32 {
        self.0
    }
}

impl NeoBuffer {
    /// The current buffer.
    pub fn zero() -> (r: NeoBuffer)
        ensures
            r@ == 0,
    {
        NeoBuffer(0)
    }

    pub fn new(id: u32) -> (r: NeoBuffer)
        ensures
            r@ == id,
    {
        NeoBuffer(id)
    }

    pub fn id(&self) -> (r: u32)
        ensures
            r == self@,
    {
        self.0
    }

    /// The buffer the editor answered a request to create one with: none for
    /// id 0, by which the editor says that no buffer was created.
    pub fn created(id: u32) -> (r: Option<NeoBuffer>)
        ensures
            r is None <==> id == 0,
            r matches Some(b) ==> b@ == id,
    {
        if id == 0 {
            None
        } else {
            Some(NeoBuffer(id))
        }
    }

    /// Options of a mapping local to this buffer.
    pub fn keymap_opts(&self, silent: bool) -> (r: KeymapOpts)
        ensures
            r.buffer == Some(self@),
            r.silent == Some(silent),
    {
        KeymapOpts { buffer: Some(self.0), silent: Some(silent) }
    }
}

/// A floating window and the buffer it shows.
#[derive(PartialEq, Eq, Structural, Clone, Copy)]
pub struct NeoPopup {
    pub win: NeoWindow,
    pub buf: NeoBuffer,
}

/// What a floating window is placed relative to.
#[derive(PartialEq, Eq, Structural, Clone, Copy)]
pub enum PopupRelative {
    Win,
    Cursor,
    Editor,
    Mouse,
}

impl PopupRelative {
    pub fn name(&self) -> (r: &'static str)
        ensures
            r@ == match self {
                PopupRelative::Win => "win"@,
                PopupRelative::Cursor => "cursor"@,
                PopupRelative::Mouse => "mouse"@,
                PopupRelative::Editor => "editor"@,
            },
    {
        match self {
            PopupRelative::Win => "win",
            PopupRelative::Cursor => "cursor",
            PopupRelative::Mouse => "mouse",
            PopupRelative::Editor => "editor",
        }
    }
}

/// Which corner of a floating window is placed at its position.
#[derive(PartialEq, Eq, Structural, Clone, Copy)]
pub enum Anchor {
    NorthWest,
    NorthEast,
    SouthWest,
    SouthEast,
}

impl Anchor {
    pub fn name(&self) -> (r: &'static str)
        ensures
            r@ == match self {
                Anchor::NorthWest => "NW"@,
                Anchor::NorthEast => "NE"@,
                Anchor::SouthWest => "SW"@,
                Anchor::SouthEast => "SE"@,
            },
    {
        match self {
            Anchor::NorthWest => "NW",
            Anchor::NorthEast => "NE",
            Anchor::SouthWest => "SW",
            Anchor::SouthEast => "SE",
        }
    }
}

/// Appearance of a floating window.
#[derive(PartialEq, Eq, Structural, Clone, Copy)]
pub enum PopupStyle {
    Minimal,
}

impl PopupStyle {
    pub fn name(&self) -> (r: &'static str)
        ensures
            r@ == "minimal"@,
    {
        "minimal"
    }
}

/// Border of a floating window: a named style or the characters to draw.
pub enum PopupBorder {
    /// No border.
    NoBorder,
    Single,
    Double,
    Rounded,
    Solid,
    Shadow,
    Custom(Vec<String>),
}

impl Default for PopupBorder {
    /// No border.
    fn default() -> (r: PopupBorder)
        ensures
            r is NoBorder,
    {
        PopupBorder::NoBorder
    }
}

/// Texts joined with `,` between them.
pub open spec fn comma_joined(parts: Seq<Seq<char>>) -> Seq<char>
    decreases parts.len(),
{
    if parts.len() == 0 {
        seq![]
    } else if parts.len() == 1 {
        parts[0]
    } else {
        comma_joined(parts.drop_last()) + seq![','] + parts.last()
    }
}

impl PopupBorder {
    /// The name the API knows the border by; custom characters are joined
    /// with `,`.
    pub fn name(&self) -> (r: String)
        ensures
            r@ == match self {
                PopupBorder::NoBorder => "none"@,
                PopupBorder::Single => "single"@,
                PopupBorder::Double => "double"@,
                PopupBorder::Rounded => "rounded"@,
                PopupBorder::Solid => "solid"@,
                PopupBorder::Shadow => "shadow"@,
                PopupBorder::Custom(parts) => comma_joined(crate::text::views(parts@)),
            },
    {
        match self {
            PopupBorder::NoBorder => "none".to_owned(),
            PopupBorder::Single => "single".to_owned(),
            PopupBorder::Double => "double".to_owned(),
            PopupBorder::Rounded => "rounded".to_owned(),
            PopupBorder::Solid => "solid".to_owned(),
            PopupBorder::Shadow => "shadow".to_owned(),
            PopupBorder::Custom(parts) => {
                let mut r = String::new();
                let mut i: usize = 0;
                while i < parts.len()
                    invariant
                        i <= parts@.len(),
                        r@ == comma_joined(crate::text::views(parts@.take(i as int))),
                    decreases parts.len() - i,
                {
                    assert(crate::text::views(parts@.take(i + 1)).drop_last()
                        =~= crate::text::views(parts@.take(i as int)));
                    if i != 0 {
                        push_char(&mut r, ',');
                    }
                    r.append(parts[i].as_str());
                    assert(r@ =~= comma_joined(crate::text::views(parts@.take(i + 1))));
                    i += 1;
                }
                assert(parts@.take(parts@.len() as int) =~= parts@);
                r
            },
        }
    }
}

/// Horizontal placement of a title or footer.
#[derive(PartialEq, Eq, Structural, Clone, Copy)]
pub enum PopupAlign {
    Left,
    Center,
    Right,
}

impl PopupAlign {
    pub fn name(&self) -> (r: &'static str)
        ensures
            r@ == match self {
                PopupAlign::Left => "left"@,
                PopupAlign::Center => "center"@,
                PopupAlign::Right => "right"@,
            },
    {
        match self {
            PopupAlign::Left => "left",
            PopupAlign::Center => "center",
            PopupAlign::Right => "right",
        }
    }
}

/// Direction of a split window.
#[derive(PartialEq, Eq, Structural, Clone, Copy)]
pub enum PopupSplit {
    Left,
    Right,
    Above,
    Below,
}

impl PopupSplit {
    pub fn name(&self) -> (r: &'static str)
        ensures
            r@ == match self {
                PopupSplit::Left => "left"@,
                PopupSplit::Right => "right"@,
                PopupSplit::Above => "above"@,
                PopupSplit::Below => "below"@,
            },
    {
        match self {
            PopupSplit::Left => "left",
            PopupSplit::Right => "right",
            PopupSplit::Above => "above",
            PopupSplit::Below => "below",
        }
    }
}

/// Tone of a notification window.
#[derive(PartialEq, Eq, Structural, Clone, Copy)]
pub enum PopupLevel {
    Succes,
    Error,
    Neutral,
}

impl PopupLevel {
    /// The highlight group of the notification's title.
    pub fn highlight(&self) -> (r: &'static str)
        ensures
            r@ == match self {
                PopupLevel::Error => "DiagnosticSignError"@,
                PopupLevel::Succes => "DiagnosticSignOk"@,
                PopupLevel::Neutral => "Normal"@,
            },
    {
        match self {
            PopupLevel::Error => "DiagnosticSignError",
            PopupLevel::Succes => "DiagnosticSignOk",
            PopupLevel::Neutral => "Normal",
        }
    }
}

/// An editor event an autocommand can run on.
#[derive(PartialEq, Eq, Structural, Clone, Copy)]
pub enum AutoCmdEvent {
    /// After adding a buffer to the buffer list.
    BufAdd,
    /// Deleting a buffer from the buffer list.
    BufDelete,
    /// After entering a buffer.
    BufEnter,
    /// After renaming a buffer.
    BufFilePost,
    /// Before renaming a buffer.
    BufFilePre,
    /// Just after buffer becomes hidden.
    BufHidden,
    /// Before leaving a buffer.
    BufLeave,
    /// After the 'modified' state of a buffer changes.
    BufModifiedSet,
    /// After creating any buffer.
    BufNew,
    /// When creating a buffer for a new file.
    BufNewFile,
    /// Read buffer using command.
    BufReadCmd,
    /// After reading a buffer.
    BufReadPost,
    /// Before reading a buffer.
    BufReadPre,
    /// Just before unloading a buffer.
    BufUnload,
    /// After showing a buffer in a window.
    BufWinEnter,
    /// Just after buffer removed from window.
    BufWinLeave,
    /// Just before really deleting a buffer.
    BufWipeout,
    /// Write buffer using command.
    BufWriteCmd,
    /// After writing a buffer.
    BufWritePost,
    /// Before writing a buffer.
    BufWritePre,
    /// Info was received about channel.
    ChanInfo,
    /// Channel was opened.
    ChanOpen,
    /// Command undefined.
    CmdUndefined,
    /// After entering the cmdline window.
    CmdWinEnter,
    /// Before leaving the cmdline window.
    CmdWinLeave,
    /// Command line was modified.
    CmdlineChanged,
    /// After entering cmdline mode.
    CmdlineEnter,
    /// Before leaving cmdline mode.
    CmdlineLeave,
    /// After loading a colorscheme.
    ColorScheme,
    /// Before loading a colorscheme.
    ColorSchemePre,
    /// After popup menu changed.
    CompleteChanged,
    /// After finishing insert complete.
    CompleteDone,
    /// Idem, before clearing info.
    CompleteDonePre,
    /// Cursor in same position for a while.
    CursorHold,
    /// Idem, in Insert mode.
    CursorHoldI,
    /// Cursor was moved.
    CursorMoved,
    /// Cursor was moved in Insert mode.
    CursorMovedI,
    /// Diagnostics in a buffer were modified.
    DiagnosticChanged,
    /// Diffs have been updated.
    DiffUpdated,
    /// Directory changed.
    DirChanged,
    /// Directory is going to change.
    DirChangedPre,
    /// After changing the 'encoding' option.
    EncodingChanged,
    /// Before exiting.
    ExitPre,
    /// Append to a file using command.
    FileAppendCmd,
    /// After appending to a file.
    FileAppendPost,
    /// Before appending to a file.
    FileAppendPre,
    /// Before first change to read-only file.
    FileChangedRO,
    /// After shell command that changed file.
    FileChangedShell,
    /// After (not) reloading changed file.
    FileChangedShellPost,
    /// Read from a file using command.
    FileReadCmd,
    /// After reading a file.
    FileReadPost,
    /// Before reading a file.
    FileReadPre,
    /// New file type detected (user defined).
    FileType,
    /// Write to a file using command.
    FileWriteCmd,
    /// After writing a file.
    FileWritePost,
    /// Before writing a file.
    FileWritePre,
    /// After reading from a filter.
    FilterReadPost,
    /// Before reading from a filter.
    FilterReadPre,
    /// After writing to a filter.
    FilterWritePost,
    /// Before writing to a filter.
    FilterWritePre,
    /// Got the focus.
    FocusGained,
    /// Lost the focus to another app.
    FocusLost,
    /// If calling a function which doesn't exist.
    FuncUndefined,
    /// After starting the GUI.
    GUIEnter,
    /// After starting the GUI failed.
    GUIFailed,
    /// When changing Insert/Replace mode.
    InsertChange,
    /// Before inserting a char.
    InsertCharPre,
    /// When entering Insert mode.
    InsertEnter,
    /// Just after leaving Insert mode.
    InsertLeave,
    /// Just before leaving Insert mode.
    InsertLeavePre,
    /// After an LSP client attaches to a buffer.
    LspAttach,
    /// After an LSP client detaches from a buffer.
    LspDetach,
    /// After an LSP request is started, canceled, or completed.
    LspRequest,
    /// After an LSP notice has been sent to the server.
    LspNotify,
    /// After a visible LSP token is updated.
    LspTokenUpdate,
    /// After a LSP progress update.
    LspProgress,
    /// Just before popup menu is displayed.
    MenuPopup,
    /// After changing the mode.
    ModeChanged,
    /// After setting any option.
    OptionSet,
    /// After :make, :grep etc.
    QuickFixCmdPost,
    /// Before :make, :grep etc.
    QuickFixCmdPre,
    /// Before :quit.
    QuitPre,
    /// When starting to record a macro.
    RecordingEnter,
    /// Just before a macro stops recording.
    RecordingLeave,
    /// Upon string reception from a remote vim.
    RemoteReply,
    /// Going to wait for a character.
    SafeState,
    /// After the search wrapped around.
    SearchWrapped,
    /// After loading a session file.
    SessionLoadPost,
    /// After writing a session file.
    SessionWritePost,
    /// After ":!cmd".
    ShellCmdPost,
    /// After ":1,2!cmd", ":w !cmd", ":r !cmd".
    ShellFilterPost,
    /// After nvim process received a signal.
    Signal,
    /// Sourcing a Vim script using command.
    SourceCmd,
    /// After sourcing a Vim script.
    SourcePost,
    /// Before sourcing a Vim script.
    SourcePre,
    /// Spell file missing.
    SpellFileMissing,
    /// After reading from stdin.
    StdinReadPost,
    /// Before reading from stdin.
    StdinReadPre,
    /// Found existing swap file.
    SwapExists,
    /// Syntax selected.
    Syntax,
    /// After a tab has closed.
    TabClosed,
    /// After entering a tab page.
    TabEnter,
    /// Before leaving a tab page.
    TabLeave,
    /// When creating a new tab.
    TabNew,
    /// After entering a new tab.
    TabNewEntered,
    /// After changing 'term'.
    TermChanged,
    /// After the process exits.
    TermClose,
    /// After entering Terminal mode.
    TermEnter,
    /// After leaving Terminal mode.
    TermLeave,
    /// After opening a terminal buffer.
    TermOpen,
    /// After an unhandled OSC sequence is emitted.
    TermRequest,
    /// After setting "v:termresponse".
    TermResponse,
    /// Text was modified.
    TextChanged,
    /// Text was modified in Insert mode(no popup).
    TextChangedI,
    /// Text was modified in Insert mode(popup).
    TextChangedP,
    /// Text was modified in Terminal mode.
    TextChangedT,
    /// After a yank or delete was done (y, d, c).
    TextYankPost,
    /// After UI attaches.
    UIEnter,
    /// After UI detaches.
    UILeave,
    /// User defined autocommand.
    User,
    /// After starting Vim.
    VimEnter,
    /// Before exiting Vim.
    VimLeave,
    /// Before exiting Vim and writing ShaDa file.
    VimLeavePre,
    /// After Vim window was resized.
    VimResized,
    /// After Nvim is resumed.
    VimResume,
    /// Before Nvim is suspended.
    VimSuspend,
    /// After closing a window.
    WinClosed,
    /// After entering a window.
    WinEnter,
    /// Before leaving a window.
    WinLeave,
    /// When entering a new window.
    WinNew,
    /// After a window was resized.
    WinResized,
    /// After a window was scrolled or resized.
    WinScrolled,
}

/// The name the editor knows an event by: the variant's name.
pub open spec fn event_name(e: AutoCmdEvent) -> Seq<char> {
    match e {
        AutoCmdEvent::BufAdd => "BufAdd"@,
        AutoCmdEvent::BufDelete => "BufDelete"@,
        AutoCmdEvent::BufEnter => "BufEnter"@,
        AutoCmdEvent::BufFilePost => "BufFilePost"@,
        AutoCmdEvent::BufFilePre => "BufFilePre"@,
        AutoCmdEvent::BufHidden => "BufHidden"@,
        AutoCmdEvent::BufLeave => "BufLeave"@,
        AutoCmdEvent::BufModifiedSet => "BufModifiedSet"@,
        AutoCmdEvent::BufNew => "BufNew"@,
        AutoCmdEvent::BufNewFile => "BufNewFile"@,
        AutoCmdEvent::BufReadCmd => "BufReadCmd"@,
        AutoCmdEvent::BufReadPost => "BufReadPost"@,
        AutoCmdEvent::BufReadPre => "BufReadPre"@,
        AutoCmdEvent::BufUnload => "BufUnload"@,
        AutoCmdEvent::BufWinEnter => "BufWinEnter"@,
        AutoCmdEvent::BufWinLeave => "BufWinLeave"@,
        AutoCmdEvent::BufWipeout => "BufWipeout"@,
        AutoCmdEvent::BufWriteCmd => "BufWriteCmd"@,
        AutoCmdEvent::BufWritePost => "BufWritePost"@,
        AutoCmdEvent::BufWritePre => "BufWritePre"@,
        AutoCmdEvent::ChanInfo => "ChanInfo"@,
        AutoCmdEvent::ChanOpen => "ChanOpen"@,
        AutoCmdEvent::CmdUndefined => "CmdUndefined"@,
        AutoCmdEvent::CmdWinEnter => "CmdWinEnter"@,
        AutoCmdEvent::CmdWinLeave => "CmdWinLeave"@,
        AutoCmdEvent::CmdlineChanged => "CmdlineChanged"@,
        AutoCmdEvent::CmdlineEnter => "CmdlineEnter"@,
        AutoCmdEvent::CmdlineLeave => "CmdlineLeave"@,
        AutoCmdEvent::ColorScheme => "ColorScheme"@,
        AutoCmdEvent::ColorSchemePre => "ColorSchemePre"@,
        AutoCmdEvent::CompleteChanged => "CompleteChanged"@,
        AutoCmdEvent::CompleteDone => "CompleteDone"@,
        AutoCmdEvent::CompleteDonePre => "CompleteDonePre"@,
        AutoCmdEvent::CursorHold => "CursorHold"@,
        AutoCmdEvent::CursorHoldI => "CursorHoldI"@,
        AutoCmdEvent::CursorMoved => "CursorMoved"@,
        AutoCmdEvent::CursorMovedI => "CursorMovedI"@,
        AutoCmdEvent::DiagnosticChanged => "DiagnosticChanged"@,
        AutoCmdEvent::DiffUpdated => "DiffUpdated"@,
        AutoCmdEvent::DirChanged => "DirChanged"@,
        AutoCmdEvent::DirChangedPre => "DirChangedPre"@,
        AutoCmdEvent::EncodingChanged => "EncodingChanged"@,
        AutoCmdEvent::ExitPre => "ExitPre"@,
        AutoCmdEvent::FileAppendCmd => "FileAppendCmd"@,
        AutoCmdEvent::FileAppendPost => "FileAppendPost"@,
        AutoCmdEvent::FileAppendPre => "FileAppendPre"@,
        AutoCmdEvent::FileChangedRO => "FileChangedRO"@,
        AutoCmdEvent::FileChangedShell => "FileChangedShell"@,
        AutoCmdEvent::FileChangedShellPost => "FileChangedShellPost"@,
        AutoCmdEvent::FileReadCmd => "FileReadCmd"@,
        AutoCmdEvent::FileReadPost => "FileReadPost"@,
        AutoCmdEvent::FileReadPre => "FileReadPre"@,
        AutoCmdEvent::FileType => "FileType"@,
        AutoCmdEvent::FileWriteCmd => "FileWriteCmd"@,
        AutoCmdEvent::FileWritePost => "FileWritePost"@,
        AutoCmdEvent::FileWritePre => "FileWritePre"@,
        AutoCmdEvent::FilterReadPost => "FilterReadPost"@,
        AutoCmdEvent::FilterReadPre => "FilterReadPre"@,
        AutoCmdEvent::FilterWritePost => "FilterWritePost"@,
        AutoCmdEvent::FilterWritePre => "FilterWritePre"@,
        AutoCmdEvent::FocusGained => "FocusGained"@,
        AutoCmdEvent::FocusLost => "FocusLost"@,
        AutoCmdEvent::FuncUndefined => "FuncUndefined"@,
        AutoCmdEvent::GUIEnter => "GUIEnter"@,
        AutoCmdEvent::GUIFailed => "GUIFailed"@,
        AutoCmdEvent::InsertChange => "InsertChange"@,
        AutoCmdEvent::InsertCharPre => "InsertCharPre"@,
        AutoCmdEvent::InsertEnter => "InsertEnter"@,
        AutoCmdEvent::InsertLeave => "InsertLeave"@,
        AutoCmdEvent::InsertLeavePre => "InsertLeavePre"@,
        AutoCmdEvent::LspAttach => "LspAttach"@,
        AutoCmdEvent::LspDetach => "LspDetach"@,
        AutoCmdEvent::LspRequest => "LspRequest"@,
        AutoCmdEvent::LspNotify => "LspNotify"@,
        AutoCmdEvent::LspTokenUpdate => "LspTokenUpdate"@,
        AutoCmdEvent::LspProgress => "LspProgress"@,
        AutoCmdEvent::MenuPopup => "MenuPopup"@,
        AutoCmdEvent::ModeChanged => "ModeChanged"@,
        AutoCmdEvent::OptionSet => "OptionSet"@,
        AutoCmdEvent::QuickFixCmdPost => "QuickFixCmdPost"@,
        AutoCmdEvent::QuickFixCmdPre => "QuickFixCmdPre"@,
        AutoCmdEvent::QuitPre => "QuitPre"@,
        AutoCmdEvent::RecordingEnter => "RecordingEnter"@,
        AutoCmdEvent::RecordingLeave => "RecordingLeave"@,
        AutoCmdEvent::RemoteReply => "RemoteReply"@,
        AutoCmdEvent::SafeState => "SafeState"@,
        AutoCmdEvent::SearchWrapped => "SearchWrapped"@,
        AutoCmdEvent::SessionLoadPost => "SessionLoadPost"@,
        AutoCmdEvent::SessionWritePost => "SessionWritePost"@,
        AutoCmdEvent::ShellCmdPost => "ShellCmdPost"@,
        AutoCmdEvent::ShellFilterPost => "ShellFilterPost"@,
        AutoCmdEvent::Signal => "Signal"@,
        AutoCmdEvent::SourceCmd => "SourceCmd"@,
        AutoCmdEvent::SourcePost => "SourcePost"@,
        AutoCmdEvent::SourcePre => "SourcePre"@,
        AutoCmdEvent::SpellFileMissing => "SpellFileMissing"@,
        AutoCmdEvent::StdinReadPost => "StdinReadPost"@,
        AutoCmdEvent::StdinReadPre => "StdinReadPre"@,
        AutoCmdEvent::SwapExists => "SwapExists"@,
        AutoCmdEvent::Syntax => "Syntax"@,
        AutoCmdEvent::TabClosed => "TabClosed"@,
        AutoCmdEvent::TabEnter => "TabEnter"@,
        AutoCmdEvent::TabLeave => "TabLeave"@,
        AutoCmdEvent::TabNew => "TabNew"@,
        AutoCmdEvent::TabNewEntered => "TabNewEntered"@,
        AutoCmdEvent::TermChanged => "TermChanged"@,
        AutoCmdEvent::TermClose => "TermClose"@,
        AutoCmdEvent::TermEnter => "TermEnter"@,
        AutoCmdEvent::TermLeave => "TermLeave"@,
        AutoCmdEvent::TermOpen => "TermOpen"@,
        AutoCmdEvent::TermRequest => "TermRequest"@,
        AutoCmdEvent::TermResponse => "TermResponse"@,
        AutoCmdEvent::TextChanged => "TextChanged"@,
        AutoCmdEvent::TextChangedI => "TextChangedI"@,
        AutoCmdEvent::TextChangedP => "TextChangedP"@,
        AutoCmdEvent::TextChangedT => "TextChangedT"@,
        AutoCmdEvent::TextYankPost => "TextYankPost"@,
        AutoCmdEvent::UIEnter => "UIEnter"@,
        AutoCmdEvent::UILeave => "UILeave"@,
        AutoCmdEvent::User => "User"@,
        AutoCmdEvent::VimEnter => "VimEnter"@,
        AutoCmdEvent::VimLeave => "VimLeave"@,
        AutoCmdEvent::VimLeavePre => "VimLeavePre"@,
        AutoCmdEvent::VimResized => "VimResized"@,
        AutoCmdEvent::VimResume => "VimResume"@,
        AutoCmdEvent::VimSuspend => "VimSuspend"@,
        AutoCmdEvent::WinClosed => "WinClosed"@,
        AutoCmdEvent::WinEnter => "WinEnter"@,
        AutoCmdEvent::WinLeave => "WinLeave"@,
        AutoCmdEvent::WinNew => "WinNew"@,
        AutoCmdEvent::WinResized => "WinResized"@,
        AutoCmdEvent::WinScrolled => "WinScrolled"@,
    }
}

impl AutoCmdEvent {
    /// The name the editor knows the event by.
    pub fn name(&self) -> (r: &'static str)
        ensures
            r@ == event_name(*self),
    {
        match self {
            AutoCmdEvent::BufAdd => "BufAdd",
            AutoCmdEvent::BufDelete => "BufDelete",
            AutoCmdEvent::BufEnter => "BufEnter",
            AutoCmdEvent::BufFilePost => "BufFilePost",
            AutoCmdEvent::BufFilePre => "BufFilePre",
            AutoCmdEvent::BufHidden => "BufHidden",
            AutoCmdEvent::BufLeave => "BufLeave",
            AutoCmdEvent::BufModifiedSet => "BufModifiedSet",
            AutoCmdEvent::BufNew => "BufNew",
            AutoCmdEvent::BufNewFile => "BufNewFile",
            AutoCmdEvent::BufReadCmd => "BufReadCmd",
            AutoCmdEvent::BufReadPost => "BufReadPost",
            AutoCmdEvent::BufReadPre => "BufReadPre",
            AutoCmdEvent::BufUnload => "BufUnload",
            AutoCmdEvent::BufWinEnter => "BufWinEnter",
            AutoCmdEvent::BufWinLeave => "BufWinLeave",
            AutoCmdEvent::BufWipeout => "BufWipeout",
            AutoCmdEvent::BufWriteCmd => "BufWriteCmd",
            AutoCmdEvent::BufWritePost => "BufWritePost",
            AutoCmdEvent::BufWritePre => "BufWritePre",
            AutoCmdEvent::ChanInfo => "ChanInfo",
            AutoCmdEvent::ChanOpen => "ChanOpen",
            AutoCmdEvent::CmdUndefined => "CmdUndefined",
            AutoCmdEvent::CmdWinEnter => "CmdWinEnter",
            AutoCmdEvent::CmdWinLeave => "CmdWinLeave",
            AutoCmdEvent::CmdlineChanged => "CmdlineChanged",
            AutoCmdEvent::CmdlineEnter => "CmdlineEnter",
            AutoCmdEvent::CmdlineLeave => "CmdlineLeave",
            AutoCmdEvent::ColorScheme => "ColorScheme",
            AutoCmdEvent::ColorSchemePre => "ColorSchemePre",
            AutoCmdEvent::CompleteChanged => "CompleteChanged",
            AutoCmdEvent::CompleteDone => "CompleteDone",
            AutoCmdEvent::CompleteDonePre => "CompleteDonePre",
            AutoCmdEvent::CursorHold => "CursorHold",
            AutoCmdEvent::CursorHoldI => "CursorHoldI",
            AutoCmdEvent::CursorMoved => "CursorMoved",
            AutoCmdEvent::CursorMovedI => "CursorMovedI",
            AutoCmdEvent::DiagnosticChanged => "DiagnosticChanged",
            AutoCmdEvent::DiffUpdated => "DiffUpdated",
            AutoCmdEvent::DirChanged => "DirChanged",
            AutoCmdEvent::DirChangedPre => "DirChangedPre",
            AutoCmdEvent::EncodingChanged => "EncodingChanged",
            AutoCmdEvent::ExitPre => "ExitPre",
            AutoCmdEvent::FileAppendCmd => "FileAppendCmd",
            AutoCmdEvent::FileAppendPost => "FileAppendPost",
            AutoCmdEvent::FileAppendPre => "FileAppendPre",
            AutoCmdEvent::FileChangedRO => "FileChangedRO",
            AutoCmdEvent::FileChangedShell => "FileChangedShell",
            AutoCmdEvent::FileChangedShellPost => "FileChangedShellPost",
            AutoCmdEvent::FileReadCmd => "FileReadCmd",
            AutoCmdEvent::FileReadPost => "FileReadPost",
            AutoCmdEvent::FileReadPre => "FileReadPre",
            AutoCmdEvent::FileType => "FileType",
            AutoCmdEvent::FileWriteCmd => "FileWriteCmd",
            AutoCmdEvent::FileWritePost => "FileWritePost",
            AutoCmdEvent::FileWritePre => "FileWritePre",
            AutoCmdEvent::FilterReadPost => "FilterReadPost",
            AutoCmdEvent::FilterReadPre => "FilterReadPre",
            AutoCmdEvent::FilterWritePost => "FilterWritePost",
            AutoCmdEvent::FilterWritePre => "FilterWritePre",
            AutoCmdEvent::FocusGained => "FocusGained",
            AutoCmdEvent::FocusLost => "FocusLost",
            AutoCmdEvent::FuncUndefined => "FuncUndefined",
            AutoCmdEvent::GUIEnter => "GUIEnter",
            AutoCmdEvent::GUIFailed => "GUIFailed",
            AutoCmdEvent::InsertChange => "InsertChange",
            AutoCmdEvent::InsertCharPre => "InsertCharPre",
            AutoCmdEvent::InsertEnter => "InsertEnter",
            AutoCmdEvent::InsertLeave => "InsertLeave",
            AutoCmdEvent::InsertLeavePre => "InsertLeavePre",
            AutoCmdEvent::LspAttach => "LspAttach",
            AutoCmdEvent::LspDetach => "LspDetach",
            AutoCmdEvent::LspRequest => "LspRequest",
            AutoCmdEvent::LspNotify => "LspNotify",
            AutoCmdEvent::LspTokenUpdate => "LspTokenUpdate",
            AutoCmdEvent::LspProgress => "LspProgress",
            AutoCmdEvent::MenuPopup => "MenuPopup",
            AutoCmdEvent::ModeChanged => "ModeChanged",
            AutoCmdEvent::OptionSet => "OptionSet",
            AutoCmdEvent::QuickFixCmdPost => "QuickFixCmdPost",
            AutoCmdEvent::QuickFixCmdPre => "QuickFixCmdPre",
            AutoCmdEvent::QuitPre => "QuitPre",
            AutoCmdEvent::RecordingEnter => "RecordingEnter",
            AutoCmdEvent::RecordingLeave => "RecordingLeave",
            AutoCmdEvent::RemoteReply => "RemoteReply",
            AutoCmdEvent::SafeState => "SafeState",
            AutoCmdEvent::SearchWrapped => "SearchWrapped",
            AutoCmdEvent::SessionLoadPost => "SessionLoadPost",
            AutoCmdEvent::SessionWritePost => "SessionWritePost",
            AutoCmdEvent::ShellCmdPost => "ShellCmdPost",
            AutoCmdEvent::ShellFilterPost => "ShellFilterPost",
            AutoCmdEvent::Signal => "Signal",
            AutoCmdEvent::SourceCmd => "SourceCmd",
            AutoCmdEvent::SourcePost => "SourcePost",
            AutoCmdEvent::SourcePre => "SourcePre",
            AutoCmdEvent::SpellFileMissing => "SpellFileMissing",
            AutoCmdEvent::StdinReadPost => "StdinReadPost",
            AutoCmdEvent::StdinReadPre => "StdinReadPre",
            AutoCmdEvent::SwapExists => "SwapExists",
            AutoCmdEvent::Syntax => "Syntax",
            AutoCmdEvent::TabClosed => "TabClosed",
            AutoCmdEvent::TabEnter => "TabEnter",
            AutoCmdEvent::TabLeave => "TabLeave",
            AutoCmdEvent::TabNew => "TabNew",
            AutoCmdEvent::TabNewEntered => "TabNewEntered",
            AutoCmdEvent::TermChanged => "TermChanged",
            AutoCmdEvent::TermClose => "TermClose",
            AutoCmdEvent::TermEnter => "TermEnter",
            AutoCmdEvent::TermLeave => "TermLeave",
            AutoCmdEvent::TermOpen => "TermOpen",
            AutoCmdEvent::TermRequest => "TermRequest",
            AutoCmdEvent::TermResponse => "TermResponse",
            AutoCmdEvent::TextChanged => "TextChanged",
            AutoCmdEvent::TextChangedI => "TextChangedI",
            AutoCmdEvent::TextChangedP => "TextChangedP",
            AutoCmdEvent::TextChangedT => "TextChangedT",
            AutoCmdEvent::TextYankPost => "TextYankPost",
            AutoCmdEvent::UIEnter => "UIEnter",
            AutoCmdEvent::UILeave => "UILeave",
            AutoCmdEvent::User => "User",
            AutoCmdEvent::VimEnter => "VimEnter",
            AutoCmdEvent::VimLeave => "VimLeave",
            AutoCmdEvent::VimLeavePre => "VimLeavePre",
            AutoCmdEvent::VimResized => "VimResized",
            AutoCmdEvent::VimResume => "VimResume",
            AutoCmdEvent::VimSuspend => "VimSuspend",
            AutoCmdEvent::WinClosed => "WinClosed",
            AutoCmdEvent::WinEnter => "WinEnter",
            AutoCmdEvent::WinLeave => "WinLeave",
            AutoCmdEvent::WinNew => "WinNew",
            AutoCmdEvent::WinResized => "WinResized",
            AutoCmdEvent::WinScrolled => "WinScrolled",
        }
    }
}

/// A command run through the editor: its name, arguments and whether it is
/// forced.
pub struct CmdOpts<'a> {
    pub cmd: &'a str,
    pub args: &'a [&'a str],
    pub bang: bool,
}

impl<'a> CmdOpts<'a> {
    /// A command without arguments, not forced.
    pub fn simple(cmd: &'a str) -> (r: CmdOpts<'a>)
        ensures
            r.cmd == cmd,
            r.args@.len() == 0,
            !r.bang,
    {
        CmdOpts { cmd, args: &[], bang: false }
    }
}

/// The event with a given name, if any: found by the name's length and
/// first character, then among the few events that share them.
pub open spec fn event_of_name(name: Seq<char>) -> Option<AutoCmdEvent> {
    if name.len() == 6 && name[0] == 'B' {
        if name == "BufAdd"@ {
            Some(AutoCmdEvent::BufAdd)
        } else if name == "BufNew"@ {
            Some(AutoCmdEvent::BufNew)
        } else {
            None
        }
    } else if name.len() == 9 && name[0] == 'B' {
        if name == "BufDelete"@ {
            Some(AutoCmdEvent::BufDelete)
        } else if name == "BufHidden"@ {
            Some(AutoCmdEvent::BufHidden)
        } else if name == "BufUnload"@ {
            Some(AutoCmdEvent::BufUnload)
        } else {
            None
        }
    } else if name.len() == 8 && name[0] == 'B' {
        if name == "BufEnter"@ {
            Some(AutoCmdEvent::BufEnter)
        } else if name == "BufLeave"@ {
            Some(AutoCmdEvent::BufLeave)
        } else {
            None
        }
    } else if name.len() == 11 && name[0] == 'B' {
        if name == "BufFilePost"@ {
            Some(AutoCmdEvent::BufFilePost)
        } else if name == "BufReadPost"@ {
            Some(AutoCmdEvent::BufReadPost)
        } else if name == "BufWinEnter"@ {
            Some(AutoCmdEvent::BufWinEnter)
        } else if name == "BufWinLeave"@ {
            Some(AutoCmdEvent::BufWinLeave)
        } else if name == "BufWriteCmd"@ {
            Some(AutoCmdEvent::BufWriteCmd)
        } else if name == "BufWritePre"@ {
            Some(AutoCmdEvent::BufWritePre)
        } else {
            None
        }
    } else if name.len() == 10 && name[0] == 'B' {
        if name == "BufFilePre"@ {
            Some(AutoCmdEvent::BufFilePre)
        } else if name == "BufNewFile"@ {
            Some(AutoCmdEvent::BufNewFile)
        } else if name == "BufReadCmd"@ {
            Some(AutoCmdEvent::BufReadCmd)
        } else if name == "BufReadPre"@ {
            Some(AutoCmdEvent::BufReadPre)
        } else if name == "BufWipeout"@ {
            Some(AutoCmdEvent::BufWipeout)
        } else {
            None
        }
    } else if name.len() == 14 && name[0] == 'B' {
        if name == "BufModifiedSet"@ {
            Some(AutoCmdEvent::BufModifiedSet)
        } else {
            None
        }
    } else if name.len() == 12 && name[0] == 'B' {
        if name == "BufWritePost"@ {
            Some(AutoCmdEvent::BufWritePost)
        } else {
            None
        }
    } else if name.len() == 8 && name[0] == 'C' {
        if name == "ChanInfo"@ {
            Some(AutoCmdEvent::ChanInfo)
        } else if name == "ChanOpen"@ {
            Some(AutoCmdEvent::ChanOpen)
        } else {
            None
        }
    } else if name.len() == 12 && name[0] == 'C' {
        if name == "CmdUndefined"@ {
            Some(AutoCmdEvent::CmdUndefined)
        } else if name == "CmdlineEnter"@ {
            Some(AutoCmdEvent::CmdlineEnter)
        } else if name == "CmdlineLeave"@ {
            Some(AutoCmdEvent::CmdlineLeave)
        } else if name == "CompleteDone"@ {
            Some(AutoCmdEvent::CompleteDone)
        } else if name == "CursorMovedI"@ {
            Some(AutoCmdEvent::CursorMovedI)
        } else {
            None
        }
    } else if name.len() == 11 && name[0] == 'C' {
        if name == "CmdWinEnter"@ {
            Some(AutoCmdEvent::CmdWinEnter)
        } else if name == "CmdWinLeave"@ {
            Some(AutoCmdEvent::CmdWinLeave)
        } else if name == "ColorScheme"@ {
            Some(AutoCmdEvent::ColorScheme)
        } else if name == "CursorHoldI"@ {
            Some(AutoCmdEvent::CursorHoldI)
        } else if name == "CursorMoved"@ {
            Some(AutoCmdEvent::CursorMoved)
        } else {
            None
        }
    } else if name.len() == 14 && name[0] == 'C' {
        if name == "CmdlineChanged"@ {
            Some(AutoCmdEvent::CmdlineChanged)
        } else if name == "ColorSchemePre"@ {
            Some(AutoCmdEvent::ColorSchemePre)
        } else {
            None
        }
    } else if name.len() == 15 && name[0] == 'C' {
        if name == "CompleteChanged"@ {
            Some(AutoCmdEvent::CompleteChanged)
        } else if name == "CompleteDonePre"@ {
            Some(AutoCmdEvent::CompleteDonePre)
        } else {
            None
        }
    } else if name.len() == 10 && name[0] == 'C' {
        if name == "CursorHold"@ {
            Some(AutoCmdEvent::CursorHold)
        } else {
            None
        }
    } else if name.len() == 17 && name[0] == 'D' {
        if name == "DiagnosticChanged"@ {
            Some(AutoCmdEvent::DiagnosticChanged)
        } else {
            None
        }
    } else if name.len() == 11 && name[0] == 'D' {
        if name == "DiffUpdated"@ {
            Some(AutoCmdEvent::DiffUpdated)
        } else {
            None
        }
    } else if name.len() == 10 && name[0] == 'D' {
        if name == "DirChanged"@ {
            Some(AutoCmdEvent::DirChanged)
        } else {
            None
        }
    } else if name.len() == 13 && name[0] == 'D' {
        if name == "DirChangedPre"@ {
            Some(AutoCmdEvent::DirChangedPre)
        } else {
            None
        }
    } else if name.len() == 15 && name[0] == 'E' {
        if name == "EncodingChanged"@ {
            Some(AutoCmdEvent::EncodingChanged)
        } else {
            None
        }
    } else if name.len() == 7 && name[0] == 'E' {
        if name == "ExitPre"@ {
            Some(AutoCmdEvent::ExitPre)
        } else {
            None
        }
    } else if name.len() == 13 && name[0] == 'F' {
        if name == "FileAppendCmd"@ {
            Some(AutoCmdEvent::FileAppendCmd)
        } else if name == "FileAppendPre"@ {
            Some(AutoCmdEvent::FileAppendPre)
        } else if name == "FileChangedRO"@ {
            Some(AutoCmdEvent::FileChangedRO)
        } else if name == "FileWritePost"@ {
            Some(AutoCmdEvent::FileWritePost)
        } else if name == "FilterReadPre"@ {
            Some(AutoCmdEvent::FilterReadPre)
        } else if name == "FuncUndefined"@ {
            Some(AutoCmdEvent::FuncUndefined)
        } else {
            None
        }
    } else if name.len() == 14 && name[0] == 'F' {
        if name == "FileAppendPost"@ {
            Some(AutoCmdEvent::FileAppendPost)
        } else if name == "FilterReadPost"@ {
            Some(AutoCmdEvent::FilterReadPost)
        } else if name == "FilterWritePre"@ {
            Some(AutoCmdEvent::FilterWritePre)
        } else {
            None
        }
    } else if name.len() == 16 && name[0] == 'F' {
        if name == "FileChangedShell"@ {
            Some(AutoCmdEvent::FileChangedShell)
        } else {
            None
        }
    } else if name.len() == 20 && name[0] == 'F' {
        if name == "FileChangedShellPost"@ {
            Some(AutoCmdEvent::FileChangedShellPost)
        } else {
            None
        }
    } else if name.len() == 11 && name[0] == 'F' {
        if name == "FileReadCmd"@ {
            Some(AutoCmdEvent::FileReadCmd)
        } else if name == "FileReadPre"@ {
            Some(AutoCmdEvent::FileReadPre)
        } else if name == "FocusGained"@ {
            Some(AutoCmdEvent::FocusGained)
        } else {
            None
        }
    } else if name.len() == 12 && name[0] == 'F' {
        if name == "FileReadPost"@ {
            Some(AutoCmdEvent::FileReadPost)
        } else if name == "FileWriteCmd"@ {
            Some(AutoCmdEvent::FileWriteCmd)
        } else if name == "FileWritePre"@ {
            Some(AutoCmdEvent::FileWritePre)
        } else {
            None
        }
    } else if name.len() == 8 && name[0] == 'F' {
        if name == "FileType"@ {
            Some(AutoCmdEvent::FileType)
        } else {
            None
        }
    } else if name.len() == 15 && name[0] == 'F' {
        if name == "FilterWritePost"@ {
            Some(AutoCmdEvent::FilterWritePost)
        } else {
            None
        }
    } else if name.len() == 9 && name[0] == 'F' {
        if name == "FocusLost"@ {
            Some(AutoCmdEvent::FocusLost)
        } else {
            None
        }
    } else if name.len() == 8 && name[0] == 'G' {
        if name == "GUIEnter"@ {
            Some(AutoCmdEvent::GUIEnter)
        } else {
            None
        }
    } else if name.len() == 9 && name[0] == 'G' {
        if name == "GUIFailed"@ {
            Some(AutoCmdEvent::GUIFailed)
        } else {
            None
        }
    } else if name.len() == 12 && name[0] == 'I' {
        if name == "InsertChange"@ {
            Some(AutoCmdEvent::InsertChange)
        } else {
            None
        }
    } else if name.len() == 13 && name[0] == 'I' {
        if name == "InsertCharPre"@ {
            Some(AutoCmdEvent::InsertCharPre)
        } else {
            None
        }
    } else if name.len() == 11 && name[0] == 'I' {
        if name == "InsertEnter"@ {
            Some(AutoCmdEvent::InsertEnter)
        } else if name == "InsertLeave"@ {
            Some(AutoCmdEvent::InsertLeave)
        } else {
            None
        }
    } else if name.len() == 14 && name[0] == 'I' {
        if name == "InsertLeavePre"@ {
            Some(AutoCmdEvent::InsertLeavePre)
        } else {
            None
        }
    } else if name.len() == 9 && name[0] == 'L' {
        if name == "LspAttach"@ {
            Some(AutoCmdEvent::LspAttach)
        } else if name == "LspDetach"@ {
            Some(AutoCmdEvent::LspDetach)
        } else if name == "LspNotify"@ {
            Some(AutoCmdEvent::LspNotify)
        } else {
            None
        }
    } else if name.len() == 10 && name[0] == 'L' {
        if name == "LspRequest"@ {
            Some(AutoCmdEvent::LspRequest)
        } else {
            None
        }
    } else if name.len() == 14 && name[0] == 'L' {
        if name == "LspTokenUpdate"@ {
            Some(AutoCmdEvent::LspTokenUpdate)
        } else {
            None
        }
    } else if name.len() == 11 && name[0] == 'L' {
        if name == "LspProgress"@ {
            Some(AutoCmdEvent::LspProgress)
        } else {
            None
        }
    } else if name.len() == 9 && name[0] == 'M' {
        if name == "MenuPopup"@ {
            Some(AutoCmdEvent::MenuPopup)
        } else {
            None
        }
    } else if name.len() == 11 && name[0] == 'M' {
        if name == "ModeChanged"@ {
            Some(AutoCmdEvent::ModeChanged)
        } else {
            None
        }
    } else if name.len() == 9 && name[0] == 'O' {
        if name == "OptionSet"@ {
            Some(AutoCmdEvent::OptionSet)
        } else {
            None
        }
    } else if name.len() == 15 && name[0] == 'Q' {
        if name == "QuickFixCmdPost"@ {
            Some(AutoCmdEvent::QuickFixCmdPost)
        } else {
            None
        }
    } else if name.len() == 14 && name[0] == 'Q' {
        if name == "QuickFixCmdPre"@ {
            Some(AutoCmdEvent::QuickFixCmdPre)
        } else {
            None
        }
    } else if name.len() == 7 && name[0] == 'Q' {
        if name == "QuitPre"@ {
            Some(AutoCmdEvent::QuitPre)
        } else {
            None
        }
    } else if name.len() == 14 && name[0] == 'R' {
        if name == "RecordingEnter"@ {
            Some(AutoCmdEvent::RecordingEnter)
        } else if name == "RecordingLeave"@ {
            Some(AutoCmdEvent::RecordingLeave)
        } else {
            None
        }
    } else if name.len() == 11 && name[0] == 'R' {
        if name == "RemoteReply"@ {
            Some(AutoCmdEvent::RemoteReply)
        } else {
            None
        }
    } else if name.len() == 9 && name[0] == 'S' {
        if name == "SafeState"@ {
            Some(AutoCmdEvent::SafeState)
        } else if name == "SourceCmd"@ {
            Some(AutoCmdEvent::SourceCmd)
        } else if name == "SourcePre"@ {
            Some(AutoCmdEvent::SourcePre)
        } else {
            None
        }
    } else if name.len() == 13 && name[0] == 'S' {
        if name == "SearchWrapped"@ {
            Some(AutoCmdEvent::SearchWrapped)
        } else if name == "StdinReadPost"@ {
            Some(AutoCmdEvent::StdinReadPost)
        } else {
            None
        }
    } else if name.len() == 15 && name[0] == 'S' {
        if name == "SessionLoadPost"@ {
            Some(AutoCmdEvent::SessionLoadPost)
        } else if name == "ShellFilterPost"@ {
            Some(AutoCmdEvent::ShellFilterPost)
        } else {
            None
        }
    } else if name.len() == 16 && name[0] == 'S' {
        if name == "SessionWritePost"@ {
            Some(AutoCmdEvent::SessionWritePost)
        } else if name == "SpellFileMissing"@ {
            Some(AutoCmdEvent::SpellFileMissing)
        } else {
            None
        }
    } else if name.len() == 12 && name[0] == 'S' {
        if name == "ShellCmdPost"@ {
            Some(AutoCmdEvent::ShellCmdPost)
        } else if name == "StdinReadPre"@ {
            Some(AutoCmdEvent::StdinReadPre)
        } else {
            None
        }
    } else if name.len() == 6 && name[0] == 'S' {
        if name == "Signal"@ {
            Some(AutoCmdEvent::Signal)
        } else if name == "Syntax"@ {
            Some(AutoCmdEvent::Syntax)
        } else {
            None
        }
    } else if name.len() == 10 && name[0] == 'S' {
        if name == "SourcePost"@ {
            Some(AutoCmdEvent::SourcePost)
        } else if name == "SwapExists"@ {
            Some(AutoCmdEvent::SwapExists)
        } else {
            None
        }
    } else if name.len() == 9 && name[0] == 'T' {
        if name == "TabClosed"@ {
            Some(AutoCmdEvent::TabClosed)
        } else if name == "TermClose"@ {
            Some(AutoCmdEvent::TermClose)
        } else if name == "TermEnter"@ {
            Some(AutoCmdEvent::TermEnter)
        } else if name == "TermLeave"@ {
            Some(AutoCmdEvent::TermLeave)
        } else {
            None
        }
    } else if name.len() == 8 && name[0] == 'T' {
        if name == "TabEnter"@ {
            Some(AutoCmdEvent::TabEnter)
        } else if name == "TabLeave"@ {
            Some(AutoCmdEvent::TabLeave)
        } else if name == "TermOpen"@ {
            Some(AutoCmdEvent::TermOpen)
        } else {
            None
        }
    } else if name.len() == 6 && name[0] == 'T' {
        if name == "TabNew"@ {
            Some(AutoCmdEvent::TabNew)
        } else {
            None
        }
    } else if name.len() == 13 && name[0] == 'T' {
        if name == "TabNewEntered"@ {
            Some(AutoCmdEvent::TabNewEntered)
        } else {
            None
        }
    } else if name.len() == 11 && name[0] == 'T' {
        if name == "TermChanged"@ {
            Some(AutoCmdEvent::TermChanged)
        } else if name == "TermRequest"@ {
            Some(AutoCmdEvent::TermRequest)
        } else if name == "TextChanged"@ {
            Some(AutoCmdEvent::TextChanged)
        } else {
            None
        }
    } else if name.len() == 12 && name[0] == 'T' {
        if name == "TermResponse"@ {
            Some(AutoCmdEvent::TermResponse)
        } else if name == "TextChangedI"@ {
            Some(AutoCmdEvent::TextChangedI)
        } else if name == "TextChangedP"@ {
            Some(AutoCmdEvent::TextChangedP)
        } else if name == "TextChangedT"@ {
            Some(AutoCmdEvent::TextChangedT)
        } else if name == "TextYankPost"@ {
            Some(AutoCmdEvent::TextYankPost)
        } else {
            None
        }
    } else if name.len() == 7 && name[0] == 'U' {
        if name == "UIEnter"@ {
            Some(AutoCmdEvent::UIEnter)
        } else if name == "UILeave"@ {
            Some(AutoCmdEvent::UILeave)
        } else {
            None
        }
    } else if name.len() == 4 && name[0] == 'U' {
        if name == "User"@ {
            Some(AutoCmdEvent::User)
        } else {
            None
        }
    } else if name.len() == 8 && name[0] == 'V' {
        if name == "VimEnter"@ {
            Some(AutoCmdEvent::VimEnter)
        } else if name == "VimLeave"@ {
            Some(AutoCmdEvent::VimLeave)
        } else {
            None
        }
    } else if name.len() == 11 && name[0] == 'V' {
        if name == "VimLeavePre"@ {
            Some(AutoCmdEvent::VimLeavePre)
        } else {
            None
        }
    } else if name.len() == 10 && name[0] == 'V' {
        if name == "VimResized"@ {
            Some(AutoCmdEvent::VimResized)
        } else if name == "VimSuspend"@ {
            Some(AutoCmdEvent::VimSuspend)
        } else {
            None
        }
    } else if name.len() == 9 && name[0] == 'V' {
        if name == "VimResume"@ {
            Some(AutoCmdEvent::VimResume)
        } else {
            None
        }
    } else if name.len() == 9 && name[0] == 'W' {
        if name == "WinClosed"@ {
            Some(AutoCmdEvent::WinClosed)
        } else {
            None
        }
    } else if name.len() == 8 && name[0] == 'W' {
        if name == "WinEnter"@ {
            Some(AutoCmdEvent::WinEnter)
        } else if name == "WinLeave"@ {
            Some(AutoCmdEvent::WinLeave)
        } else {
            None
        }
    } else if name.len() == 6 && name[0] == 'W' {
        if name == "WinNew"@ {
            Some(AutoCmdEvent::WinNew)
        } else {
            None
        }
    } else if name.len() == 10 && name[0] == 'W' {
        if name == "WinResized"@ {
            Some(AutoCmdEvent::WinResized)
        } else {
            None
        }
    } else if name.len() == 11 && name[0] == 'W' {
        if name == "WinScrolled"@ {
            Some(AutoCmdEvent::WinScrolled)
        } else {
            None
        }
    } else {
        None
    }
}

/// An event's name leads back to the event.
proof fn lemma_event_of_name(e: AutoCmdEvent)
    ensures
        event_of_name(event_name(e)) == Some(e),
{
    match e {
        AutoCmdEvent::BufAdd => {
            reveal_strlit("BufAdd");
            assert(event_of_name(event_name(e)) == Some(e));
        },
        AutoCmdEvent::BufDelete => {
            reveal_strlit("BufDelete");
            assert(event_of_name(event_name(e)) == Some(e));
        },
        AutoCmdEvent::BufEnter => {
            reveal_strlit("BufEnter");
            assert(event_of_name(event_name(e)) == Some(e));
        },
        AutoCmdEvent::BufFilePost => {
            reveal_strlit("BufFilePost");
            assert(event_of_name(event_name(e)) == Some(e));
        },
        AutoCmdEvent::BufFilePre => {
            reveal_strlit("BufFilePre");
            assert(event_of_name(event_name(e)) == Some(e));
        },
        AutoCmdEvent::BufHidden => {
            reveal_strlit("BufHidden");
            reveal_strlit("BufDelete");
            assert("BufHidden"@[3] != "BufDelete"@[3]);
            assert(event_of_name(event_name(e)) == Some(e));
        },
        AutoCmdEvent::BufLeave => {
            reveal_strlit("BufLeave");
            reveal_strlit("BufEnter");
            assert("BufLeave"@[3] != "BufEnter"@[3]);
            assert(event_of_name(event_name(e)) == Some(e));
        },
        AutoCmdEvent::BufModifiedSet => {
            reveal_strlit("BufModifiedSet");
            assert(event_of_name(event_name(e)) == Some(e));
        },
        AutoCmdEvent::BufNew => {
            reveal_strlit("BufNew");
            reveal_strlit("BufAdd");
            assert("BufNew"@[3] != "BufAdd"@[3]);
            assert(event_of_name(event_name(e)) == Some(e));
        },
        AutoCmdEvent::BufNewFile => {
            reveal_strlit("BufNewFile");
            reveal_strlit("BufFilePre");
            assert("BufNewFile"@[3] != "BufFilePre"@[3]);
            assert(event_of_name(event_name(e)) == Some(e));
        },
        AutoCmdEvent::BufReadCmd => {
            reveal_strlit("BufReadCmd");
            reveal_strlit("BufFilePre");
            assert("BufReadCmd"@[3] != "BufFilePre"@[3]);
            reveal_strlit("BufNewFile");
            assert("BufReadCmd"@[3] != "BufNewFile"@[3]);
            assert(event_of_name(event_name(e)) == Some(e));
        },
        AutoCmdEvent::BufReadPost => {
            reveal_strlit("BufReadPost");
            reveal_strlit("BufFilePost");
            assert("BufReadPost"@[3] != "BufFilePost"@[3]);
            assert(event_of_name(event_name(e)) == Some(e));
        },
        AutoCmdEvent::BufReadPre => {
            reveal_strlit("BufReadPre");
            reveal_strlit("BufFilePre");
            assert("BufReadPre"@[3] != "BufFilePre"@[3]);
            reveal_strlit("BufNewFile");
            assert("BufReadPre"@[3] != "BufNewFile"@[3]);
            reveal_strlit("BufReadCmd");
            assert("BufReadPre"@[7] != "BufReadCmd"@[7]);
            assert(event_of_name(event_name(e)) == Some(e));
        },
        AutoCmdEvent::BufUnload => {
            reveal_strlit("BufUnload");
            reveal_strlit("BufDelete");
            assert("BufUnload"@[3] != "BufDelete"@[3]);
            reveal_strlit("BufHidden");
            assert("BufUnload"@[3] != "BufHidden"@[3]);
            assert(event_of_name(event_name(e)) == Some(e));
        },
        AutoCmdEvent::BufWinEnter => {
            reveal_strlit("BufWinEnter");
            reveal_strlit("BufFilePost");
            assert("BufWinEnter"@[3] != "BufFilePost"@[3]);
            reveal_strlit("BufReadPost");
            assert("BufWinEnter"@[3] != "BufReadPost"@[3]);
            assert(event_of_name(event_name(e)) == Some(e));
        },
        AutoCmdEvent::BufWinLeave => {
            reveal_strlit("BufWinLeave");
            reveal_strlit("BufFilePost");
            assert("BufWinLeave"@[3] != "BufFilePost"@[3]);
            reveal_strlit("BufReadPost");
            assert("BufWinLeave"@[3] != "BufReadPost"@[3]);
            reveal_strlit("BufWinEnter");
            assert("BufWinLeave"@[6] != "BufWinEnter"@[6]);
            assert(event_of_name(event_name(e)) == Some(e));
        },
        AutoCmdEvent::BufWipeout => {
            reveal_strlit("BufWipeout");
            reveal_strlit("BufFilePre");
            assert("BufWipeout"@[3] != "BufFilePre"@[3]);
            reveal_strlit("BufNewFile");
            assert("BufWipeout"@[3] != "BufNewFile"@[3]);
            reveal_strlit("BufReadCmd");
            assert("BufWipeout"@[3] != "BufReadCmd"@[3]);
            reveal_strlit("BufReadPre");
            assert("BufWipeout"@[3] != "BufReadPre"@[3]);
            assert(event_of_name(event_name(e)) == Some(e));
        },
        AutoCmdEvent::BufWriteCmd => {
            reveal_strlit("BufWriteCmd");
            reveal_strlit("BufFilePost");
            assert("BufWriteCmd"@[3] != "BufFilePost"@[3]);
            reveal_strlit("BufReadPost");
            assert("BufWriteCmd"@[3] != "BufReadPost"@[3]);
            reveal_strlit("BufWinEnter");
            assert("BufWriteCmd"@[4] != "BufWinEnter"@[4]);
            reveal_strlit("BufWinLeave");
            assert("BufWriteCmd"@[4] != "BufWinLeave"@[4]);
            assert(event_of_name(event_name(e)) == Some(e));
        },
        AutoCmdEvent::BufWritePost => {
            reveal_strlit("BufWritePost");
            assert(event_of_name(event_name(e)) == Some(e));
        },
        AutoCmdEvent::BufWritePre => {
            reveal_strlit("BufWritePre");
            reveal_strlit("BufFilePost");
            assert("BufWritePre"@[3] != "BufFilePost"@[3]);
            reveal_strlit("BufReadPost");
            assert("BufWritePre"@[3] != "BufReadPost"@[3]);
            reveal_strlit("BufWinEnter");
            assert("BufWritePre"@[4] != "BufWinEnter"@[4]);
            reveal_strlit("BufWinLeave");
            assert("BufWritePre"@[4] != "BufWinLeave"@[4]);
            reveal_strlit("BufWriteCmd");
            assert("BufWritePre"@[8] != "BufWriteCmd"@[8]);
            assert(event_of_name(event_name(e)) == Some(e));
        },
        AutoCmdEvent::ChanInfo => {
            reveal_strlit("ChanInfo");
            assert(event_of_name(event_name(e)) == Some(e));
        },
        AutoCmdEvent::ChanOpen => {
            reveal_strlit("ChanOpen");
            reveal_strlit("ChanInfo");
            assert("ChanOpen"@[4] != "ChanInfo"@[4]);
            assert(event_of_name(event_name(e)) == Some(e));
        },
        AutoCmdEvent::CmdUndefined => {
            reveal_strlit("CmdUndefined");
            assert(event_of_name(event_name(e)) == Some(e));
        },
        AutoCmdEvent::CmdWinEnter => {
            reveal_strlit("CmdWinEnter");
            assert(event_of_name(event_name(e)) == Some(e));
        },
        AutoCmdEvent::CmdWinLeave => {
            reveal_strlit("CmdWinLeave");
            reveal_strlit("CmdWinEnter");
            assert("CmdWinLeave"@[6] != "CmdWinEnter"@[6]);
            assert(event_of_name(event_name(e)) == Some(e));
        },
        AutoCmdEvent::CmdlineChanged => {
            reveal_strlit("CmdlineChanged");
            assert(event_of_name(event_name(e)) == Some(e));
        },
        AutoCmdEvent::CmdlineEnter => {
            reveal_strlit("CmdlineEnter");
            reveal_strlit("CmdUndefined");
            assert("CmdlineEnter"@[3] != "CmdUndefined"@[3]);
            assert(event_of_name(event_name(e)) == Some(e));
        },
        AutoCmdEvent::CmdlineLeave => {
            reveal_strlit("CmdlineLeave");
            reveal_strlit("CmdUndefined");
            assert("CmdlineLeave"@[3] != "CmdUndefined"@[3]);
            reveal_strlit("CmdlineEnter");
            assert("CmdlineLeave"@[7] != "CmdlineEnter"@[7]);
            assert(event_of_name(event_name(e)) == Some(e));
        },
        AutoCmdEvent::ColorScheme => {
            reveal_strlit("ColorScheme");
            reveal_strlit("CmdWinEnter");
            assert("ColorScheme"@[1] != "CmdWinEnter"@[1]);
            reveal_strlit("CmdWinLeave");
            assert("ColorScheme"@[1] != "CmdWinLeave"@[1]);
            assert(event_of_name(event_name(e)) == Some(e));
        },
        AutoCmdEvent::ColorSchemePre => {
            reveal_strlit("ColorSchemePre");
            reveal_strlit("CmdlineChanged");
            assert("ColorSchemePre"@[1] != "CmdlineChanged"@[1]);
            assert(event_of_name(event_name(e)) == Some(e));
        },
        AutoCmdEvent::CompleteChanged => {
            reveal_strlit("CompleteChanged");
            assert(event_of_name(event_name(e)) == Some(e));
        },
        AutoCmdEvent::CompleteDone => {
            reveal_strlit("CompleteDone");
            reveal_strlit("CmdUndefined");
            assert("CompleteDone"@[1] != "CmdUndefined"@[1]);
            reveal_strlit("CmdlineEnter");
            assert("CompleteDone"@[1] != "CmdlineEnter"@[1]);
            reveal_strlit("CmdlineLeave");
            assert("CompleteDone"@[1] != "CmdlineLeave"@[1]);
            assert(event_of_name(event_name(e)) == Some(e));
        },
        AutoCmdEvent::CompleteDonePre => {
            reveal_strlit("CompleteDonePre");
            reveal_strlit("CompleteChanged");
            assert("CompleteDonePre"@[8] != "CompleteChanged"@[8]);
            assert(event_of_name(event_name(e)) == Some(e));
        },
        AutoCmdEvent::CursorHold => {
            reveal_strlit("CursorHold");
            assert(event_of_name(event_name(e)) == Some(e));
        },
        AutoCmdEvent::CursorHoldI => {
            reveal_strlit("CursorHoldI");
            reveal_strlit("CmdWinEnter");
            assert("CursorHoldI"@[1] != "CmdWinEnter"@[1]);
            reveal_strlit("CmdWinLeave");
            assert("CursorHoldI"@[1] != "CmdWinLeave"@[1]);
            reveal_strlit("ColorScheme");
            assert("CursorHoldI"@[1] != "ColorScheme"@[1]);
            assert(event_of_name(event_name(e)) == Some(e));
        },
        AutoCmdEvent::CursorMoved => {
            reveal_strlit("CursorMoved");
            reveal_strlit("CmdWinEnter");
            assert("CursorMoved"@[1] != "CmdWinEnter"@[1]);
            reveal_strlit("CmdWinLeave");
            assert("CursorMoved"@[1] != "CmdWinLeave"@[1]);
            reveal_strlit("ColorScheme");
            assert("CursorMoved"@[1] != "ColorScheme"@[1]);
            reveal_strlit("CursorHoldI");
            assert("CursorMoved"@[6] != "CursorHoldI"@[6]);
            assert(event_of_name(event_name(e)) == Some(e));
        },
        AutoCmdEvent::CursorMovedI => {
            reveal_strlit("CursorMovedI");
            reveal_strlit("CmdUndefined");
            assert("CursorMovedI"@[1] != "CmdUndefined"@[1]);
            reveal_strlit("CmdlineEnter");
            assert("CursorMovedI"@[1] != "CmdlineEnter"@[1]);
            reveal_strlit("CmdlineLeave");
            assert("CursorMovedI"@[1] != "CmdlineLeave"@[1]);
            reveal_strlit("CompleteDone");
            assert("CursorMovedI"@[1] != "CompleteDone"@[1]);
            assert(event_of_name(event_name(e)) == Some(e));
        },
        AutoCmdEvent::DiagnosticChanged => {
            reveal_strlit("DiagnosticChanged");
            assert(event_of_name(event_name(e)) == Some(e));
        },
        AutoCmdEvent::DiffUpdated => {
            reveal_strlit("DiffUpdated");
            assert(event_of_name(event_name(e)) == Some(e));
        },
        AutoCmdEvent::DirChanged => {
            reveal_strlit("DirChanged");
            assert(event_of_name(event_name(e)) == Some(e));
        },
        AutoCmdEvent::DirChangedPre => {
            reveal_strlit("DirChangedPre");
            assert(event_of_name(event_name(e)) == Some(e));
        },
        AutoCmdEvent::EncodingChanged => {
            reveal_strlit("EncodingChanged");
            assert(event_of_name(event_name(e)) == Some(e));
        },
        AutoCmdEvent::ExitPre => {
            reveal_strlit("ExitPre");
            assert(event_of_name(event_name(e)) == Some(e));
        },
        AutoCmdEvent::FileAppendCmd => {
            reveal_strlit("FileAppendCmd");
            assert(event_of_name(event_name(e)) == Some(e));
        },
        AutoCmdEvent::FileAppendPost => {
            reveal_strlit("FileAppendPost");
            assert(event_of_name(event_name(e)) == Some(e));
        },
        AutoCmdEvent::FileAppendPre => {
            reveal_strlit("FileAppendPre");
            reveal_strlit("FileAppendCmd");
            assert("FileAppendPre"@[10] != "FileAppendCmd"@[10]);
            assert(event_of_name(event_name(e)) == Some(e));
        },
        AutoCmdEvent::FileChangedRO => {
            reveal_strlit("FileChangedRO");
            reveal_strlit("FileAppendCmd");
            assert("FileChangedRO"@[4] != "FileAppendCmd"@[4]);
            reveal_strlit("FileAppendPre");
            assert("FileChangedRO"@[4] != "FileAppendPre"@[4]);
            assert(event_of_name(event_name(e)) == Some(e));
        },
        AutoCmdEvent::FileChangedShell => {
            reveal_strlit("FileChangedShell");
            assert(event_of_name(event_name(e)) == Some(e));
        },
        AutoCmdEvent::FileChangedShellPost => {
            reveal_strlit("FileChangedShellPost");
            assert(event_of_name(event_name(e)) == Some(e));
        },
        AutoCmdEvent::FileReadCmd => {
            reveal_strlit("FileReadCmd");
            assert(event_of_name(event_name(e)) == Some(e));
        },
        AutoCmdEvent::FileReadPost => {
            reveal_strlit("FileReadPost");
            assert(event_of_name(event_name(e)) == Some(e));
        },
        AutoCmdEvent::FileReadPre => {
            reveal_strlit("FileReadPre");
            reveal_strlit("FileReadCmd");
            assert("FileReadPre"@[8] != "FileReadCmd"@[8]);
            assert(event_of_name(event_name(e)) == Some(e));
        },
        AutoCmdEvent::FileType => {
            reveal_strlit("FileType");
            assert(event_of_name(event_name(e)) == Some(e));
        },
        AutoCmdEvent::FileWriteCmd => {
            reveal_strlit("FileWriteCmd");
            reveal_strlit("FileReadPost");
            assert("FileWriteCmd"@[4] != "FileReadPost"@[4]);
            assert(event_of_name(event_name(e)) == Some(e));
        },
        AutoCmdEvent::FileWritePost => {
            reveal_strlit("FileWritePost");
            reveal_strlit("FileAppendCmd");
            assert("FileWritePost"@[4] != "FileAppendCmd"@[4]);
            reveal_strlit("FileAppendPre");
            assert("FileWritePost"@[4] != "FileAppendPre"@[4]);
            reveal_strlit("FileChangedRO");
            assert("FileWritePost"@[4] != "FileChangedRO"@[4]);
            assert(event_of_name(event_name(e)) == Some(e));
        },
        AutoCmdEvent::FileWritePre => {
            reveal_strlit("FileWritePre");
            reveal_strlit("FileReadPost");
            assert("FileWritePre"@[4] != "FileReadPost"@[4]);
            reveal_strlit("FileWriteCmd");
            assert("FileWritePre"@[9] != "FileWriteCmd"@[9]);
            assert(event_of_name(event_name(e)) == Some(e));
        },
        AutoCmdEvent::FilterReadPost => {
            reveal_strlit("FilterReadPost");
            reveal_strlit("FileAppendPost");
            assert("FilterReadPost"@[3] != "FileAppendPost"@[3]);
            assert(event_of_name(event_name(e)) == Some(e));
        },
        AutoCmdEvent::FilterReadPre => {
            reveal_strlit("FilterReadPre");
            reveal_strlit("FileAppendCmd");
            assert("FilterReadPre"@[3] != "FileAppendCmd"@[3]);
            reveal_strlit("FileAppendPre");
            assert("FilterReadPre"@[3] != "FileAppendPre"@[3]);
            reveal_strlit("FileChangedRO");
            assert("FilterReadPre"@[3] != "FileChangedRO"@[3]);
            reveal_strlit("FileWritePost");
            assert("FilterReadPre"@[3] != "FileWritePost"@[3]);
            assert(event_of_name(event_name(e)) == Some(e));
        },
        AutoCmdEvent::FilterWritePost => {
            reveal_strlit("FilterWritePost");
            assert(event_of_name(event_name(e)) == Some(e));
        },
        AutoCmdEvent::FilterWritePre => {
            reveal_strlit("FilterWritePre");
            reveal_strlit("FileAppendPost");
            assert("FilterWritePre"@[3] != "FileAppendPost"@[3]);
            reveal_strlit("FilterReadPost");
            assert("FilterWritePre"@[6] != "FilterReadPost"@[6]);
            assert(event_of_name(event_name(e)) == Some(e));
        },
        AutoCmdEvent::FocusGained => {
            reveal_strlit("FocusGained");
            reveal_strlit("FileReadCmd");
            assert("FocusGained"@[1] != "FileReadCmd"@[1]);
            reveal_strlit("FileReadPre");
            assert("FocusGained"@[1] != "FileReadPre"@[1]);
            assert(event_of_name(event_name(e)) == Some(e));
        },
        AutoCmdEvent::FocusLost => {
            reveal_strlit("FocusLost");
            assert(event_of_name(event_name(e)) == Some(e));
        },
        AutoCmdEvent::FuncUndefined => {
            reveal_strlit("FuncUndefined");
            reveal_strlit("FileAppendCmd");
            assert("FuncUndefined"@[1] != "FileAppendCmd"@[1]);
            reveal_strlit("FileAppendPre");
            assert("FuncUndefined"@[1] != "FileAppendPre"@[1]);
            reveal_strlit("FileChangedRO");
            assert("FuncUndefined"@[1] != "FileChangedRO"@[1]);
            reveal_strlit("FileWritePost");
            assert("FuncUndefined"@[1] != "FileWritePost"@[1]);
            reveal_strlit("FilterReadPre");
            assert("FuncUndefined"@[1] != "FilterReadPre"@[1]);
            assert(event_of_name(event_name(e)) == Some(e));
        },
        AutoCmdEvent::GUIEnter => {
            reveal_strlit("GUIEnter");
            assert(event_of_name(event_name(e)) == Some(e));
        },
        AutoCmdEvent::GUIFailed => {
            reveal_strlit("GUIFailed");
            assert(event_of_name(event_name(e)) == Some(e));
        },
        AutoCmdEvent::InsertChange => {
            reveal_strlit("InsertChange");
            assert(event_of_name(event_name(e)) == Some(e));
        },
        AutoCmdEvent::InsertCharPre => {
            reveal_strlit("InsertCharPre");
            assert(event_of_name(event_name(e)) == Some(e));
        },
        AutoCmdEvent::InsertEnter => {
            reveal_strlit("InsertEnter");
            assert(event_of_name(event_name(e)) == Some(e));
        },
        AutoCmdEvent::InsertLeave => {
            reveal_strlit("InsertLeave");
            reveal_strlit("InsertEnter");
            assert("InsertLeave"@[6] != "InsertEnter"@[6]);
            assert(event_of_name(event_name(e)) == Some(e));
        },
        AutoCmdEvent::InsertLeavePre => {
            reveal_strlit("InsertLeavePre");
            assert(event_of_name(event_name(e)) == Some(e));
        },
        AutoCmdEvent::LspAttach => {
            reveal_strlit("LspAttach");
            assert(event_of_name(event_name(e)) == Some(e));
        },
        AutoCmdEvent::LspDetach => {
            reveal_strlit("LspDetach");
            reveal_strlit("LspAttach");
            assert("LspDetach"@[3] != "LspAttach"@[3]);
            assert(event_of_name(event_name(e)) == Some(e));
        },
        AutoCmdEvent::LspRequest => {
            reveal_strlit("LspRequest");
            assert(event_of_name(event_name(e)) == Some(e));
        },
        AutoCmdEvent::LspNotify => {
            reveal_strlit("LspNotify");
            reveal_strlit("LspAttach");
            assert("LspNotify"@[3] != "LspAttach"@[3]);
            reveal_strlit("LspDetach");
            assert("LspNotify"@[3] != "LspDetach"@[3]);
            assert(event_of_name(event_name(e)) == Some(e));
        },
        AutoCmdEvent::LspTokenUpdate => {
            reveal_strlit("LspTokenUpdate");
            assert(event_of_name(event_name(e)) == Some(e));
        },
        AutoCmdEvent::LspProgress => {
            reveal_strlit("LspProgress");
            assert(event_of_name(event_name(e)) == Some(e));
        },
        AutoCmdEvent::MenuPopup => {
            reveal_strlit("MenuPopup");
            assert(event_of_name(event_name(e)) == Some(e));
        },
        AutoCmdEvent::ModeChanged => {
            reveal_strlit("ModeChanged");
            assert(event_of_name(event_name(e)) == Some(e));
        },
        AutoCmdEvent::OptionSet => {
            reveal_strlit("OptionSet");
            assert(event_of_name(event_name(e)) == Some(e));
        },
        AutoCmdEvent::QuickFixCmdPost => {
            reveal_strlit("QuickFixCmdPost");
            assert(event_of_name(event_name(e)) == Some(e));
        },
        AutoCmdEvent::QuickFixCmdPre => {
            reveal_strlit("QuickFixCmdPre");
            assert(event_of_name(event_name(e)) == Some(e));
        },
        AutoCmdEvent::QuitPre => {
            reveal_strlit("QuitPre");
            assert(event_of_name(event_name(e)) == Some(e));
        },
        AutoCmdEvent::RecordingEnter => {
            reveal_strlit("RecordingEnter");
            assert(event_of_name(event_name(e)) == Some(e));
        },
        AutoCmdEvent::RecordingLeave => {
            reveal_strlit("RecordingLeave");
            reveal_strlit("RecordingEnter");
            assert("RecordingLeave"@[9] != "RecordingEnter"@[9]);
            assert(event_of_name(event_name(e)) == Some(e));
        },
        AutoCmdEvent::RemoteReply => {
            reveal_strlit("RemoteReply");
            assert(event_of_name(event_name(e)) == Some(e));
        },
        AutoCmdEvent::SafeState => {
            reveal_strlit("SafeState");
            assert(event_of_name(event_name(e)) == Some(e));
        },
        AutoCmdEvent::SearchWrapped => {
            reveal_strlit("SearchWrapped");
            assert(event_of_name(event_name(e)) == Some(e));
        },
        AutoCmdEvent::SessionLoadPost => {
            reveal_strlit("SessionLoadPost");
            assert(event_of_name(event_name(e)) == Some(e));
        },
        AutoCmdEvent::SessionWritePost => {
            reveal_strlit("SessionWritePost");
            assert(event_of_name(event_name(e)) == Some(e));
        },
        AutoCmdEvent::ShellCmdPost => {
            reveal_strlit("ShellCmdPost");
            assert(event_of_name(event_name(e)) == Some(e));
        },
        AutoCmdEvent::ShellFilterPost => {
            reveal_strlit("ShellFilterPost");
            reveal_strlit("SessionLoadPost");
            assert("ShellFilterPost"@[1] != "SessionLoadPost"@[1]);
            assert(event_of_name(event_name(e)) == Some(e));
        },
        AutoCmdEvent::Signal => {
            reveal_strlit("Signal");
            assert(event_of_name(event_name(e)) == Some(e));
        },
        AutoCmdEvent::SourceCmd => {
            reveal_strlit("SourceCmd");
            reveal_strlit("SafeState");
            assert("SourceCmd"@[1] != "SafeState"@[1]);
            assert(event_of_name(event_name(e)) == Some(e));
        },
        AutoCmdEvent::SourcePost => {
            reveal_strlit("SourcePost");
            assert(event_of_name(event_name(e)) == Some(e));
        },
        AutoCmdEvent::SourcePre => {
            reveal_strlit("SourcePre");
            reveal_strlit("SafeState");
            assert("SourcePre"@[1] != "SafeState"@[1]);
            reveal_strlit("SourceCmd");
            assert("SourcePre"@[6] != "SourceCmd"@[6]);
            assert(event_of_name(event_name(e)) == Some(e));
        },
        AutoCmdEvent::SpellFileMissing => {
            reveal_strlit("SpellFileMissing");
            reveal_strlit("SessionWritePost");
            assert("SpellFileMissing"@[1] != "SessionWritePost"@[1]);
            assert(event_of_name(event_name(e)) == Some(e));
        },
        AutoCmdEvent::StdinReadPost => {
            reveal_strlit("StdinReadPost");
            reveal_strlit("SearchWrapped");
            assert("StdinReadPost"@[1] != "SearchWrapped"@[1]);
            assert(event_of_name(event_name(e)) == Some(e));
        },
        AutoCmdEvent::StdinReadPre => {
            reveal_strlit("StdinReadPre");
            reveal_strlit("ShellCmdPost");
            assert("StdinReadPre"@[1] != "ShellCmdPost"@[1]);
            assert(event_of_name(event_name(e)) == Some(e));
        },
        AutoCmdEvent::SwapExists => {
            reveal_strlit("SwapExists");
            reveal_strlit("SourcePost");
            assert("SwapExists"@[1] != "SourcePost"@[1]);
            assert(event_of_name(event_name(e)) == Some(e));
        },
        AutoCmdEvent::Syntax => {
            reveal_strlit("Syntax");
            reveal_strlit("Signal");
            assert("Syntax"@[1] != "Signal"@[1]);
            assert(event_of_name(event_name(e)) == Some(e));
        },
        AutoCmdEvent::TabClosed => {
            reveal_strlit("TabClosed");
            assert(event_of_name(event_name(e)) == Some(e));
        },
        AutoCmdEvent::TabEnter => {
            reveal_strlit("TabEnter");
            assert(event_of_name(event_name(e)) == Some(e));
        },
        AutoCmdEvent::TabLeave => {
            reveal_strlit("TabLeave");
            reveal_strlit("TabEnter");
            assert("TabLeave"@[3] != "TabEnter"@[3]);
            assert(event_of_name(event_name(e)) == Some(e));
        },
        AutoCmdEvent::TabNew => {
            reveal_strlit("TabNew");
            assert(event_of_name(event_name(e)) == Some(e));
        },
        AutoCmdEvent::TabNewEntered => {
            reveal_strlit("TabNewEntered");
            assert(event_of_name(event_name(e)) == Some(e));
        },
        AutoCmdEvent::TermChanged => {
            reveal_strlit("TermChanged");
            assert(event_of_name(event_name(e)) == Some(e));
        },
        AutoCmdEvent::TermClose => {
            reveal_strlit("TermClose");
            reveal_strlit("TabClosed");
            assert("TermClose"@[1] != "TabClosed"@[1]);
            assert(event_of_name(event_name(e)) == Some(e));
        },
        AutoCmdEvent::TermEnter => {
            reveal_strlit("TermEnter");
            reveal_strlit("TabClosed");
            assert("TermEnter"@[1] != "TabClosed"@[1]);
            reveal_strlit("TermClose");
            assert("TermEnter"@[4] != "TermClose"@[4]);
            assert(event_of_name(event_name(e)) == Some(e));
        },
        AutoCmdEvent::TermLeave => {
            reveal_strlit("TermLeave");
            reveal_strlit("TabClosed");
            assert("TermLeave"@[1] != "TabClosed"@[1]);
            reveal_strlit("TermClose");
            assert("TermLeave"@[4] != "TermClose"@[4]);
            reveal_strlit("TermEnter");
            assert("TermLeave"@[4] != "TermEnter"@[4]);
            assert(event_of_name(event_name(e)) == Some(e));
        },
        AutoCmdEvent::TermOpen => {
            reveal_strlit("TermOpen");
            reveal_strlit("TabEnter");
            assert("TermOpen"@[1] != "TabEnter"@[1]);
            reveal_strlit("TabLeave");
            assert("TermOpen"@[1] != "TabLeave"@[1]);
            assert(event_of_name(event_name(e)) == Some(e));
        },
        AutoCmdEvent::TermRequest => {
            reveal_strlit("TermRequest");
            reveal_strlit("TermChanged");
            assert("TermRequest"@[4] != "TermChanged"@[4]);
            assert(event_of_name(event_name(e)) == Some(e));
        },
        AutoCmdEvent::TermResponse => {
            reveal_strlit("TermResponse");
            assert(event_of_name(event_name(e)) == Some(e));
        },
        AutoCmdEvent::TextChanged => {
            reveal_strlit("TextChanged");
            reveal_strlit("TermChanged");
            assert("TextChanged"@[2] != "TermChanged"@[2]);
            reveal_strlit("TermRequest");
            assert("TextChanged"@[2] != "TermRequest"@[2]);
            assert(event_of_name(event_name(e)) == Some(e));
        },
        AutoCmdEvent::TextChangedI => {
            reveal_strlit("TextChangedI");
            reveal_strlit("TermResponse");
            assert("TextChangedI"@[2] != "TermResponse"@[2]);
            assert(event_of_name(event_name(e)) == Some(e));
        },
        AutoCmdEvent::TextChangedP => {
            reveal_strlit("TextChangedP");
            reveal_strlit("TermResponse");
            assert("TextChangedP"@[2] != "TermResponse"@[2]);
            reveal_strlit("TextChangedI");
            assert("TextChangedP"@[11] != "TextChangedI"@[11]);
            assert(event_of_name(event_name(e)) == Some(e));
        },
        AutoCmdEvent::TextChangedT => {
            reveal_strlit("TextChangedT");
            reveal_strlit("TermResponse");
            assert("TextChangedT"@[2] != "TermResponse"@[2]);
            reveal_strlit("TextChangedI");
            assert("TextChangedT"@[11] != "TextChangedI"@[11]);
            reveal_strlit("TextChangedP");
            assert("TextChangedT"@[11] != "TextChangedP"@[11]);
            assert(event_of_name(event_name(e)) == Some(e));
        },
        AutoCmdEvent::TextYankPost => {
            reveal_strlit("TextYankPost");
            reveal_strlit("TermResponse");
            assert("TextYankPost"@[2] != "TermResponse"@[2]);
            reveal_strlit("TextChangedI");
            assert("TextYankPost"@[4] != "TextChangedI"@[4]);
            reveal_strlit("TextChangedP");
            assert("TextYankPost"@[4] != "TextChangedP"@[4]);
            reveal_strlit("TextChangedT");
            assert("TextYankPost"@[4] != "TextChangedT"@[4]);
            assert(event_of_name(event_name(e)) == Some(e));
        },
        AutoCmdEvent::UIEnter => {
            reveal_strlit("UIEnter");
            assert(event_of_name(event_name(e)) == Some(e));
        },
        AutoCmdEvent::UILeave => {
            reveal_strlit("UILeave");
            reveal_strlit("UIEnter");
            assert("UILeave"@[2] != "UIEnter"@[2]);
            assert(event_of_name(event_name(e)) == Some(e));
        },
        AutoCmdEvent::User => {
            reveal_strlit("User");
            assert(event_of_name(event_name(e)) == Some(e));
        },
        AutoCmdEvent::VimEnter => {
            reveal_strlit("VimEnter");
            assert(event_of_name(event_name(e)) == Some(e));
        },
        AutoCmdEvent::VimLeave => {
            reveal_strlit("VimLeave");
            reveal_strlit("VimEnter");
            assert("VimLeave"@[3] != "VimEnter"@[3]);
            assert(event_of_name(event_name(e)) == Some(e));
        },
        AutoCmdEvent::VimLeavePre => {
            reveal_strlit("VimLeavePre");
            assert(event_of_name(event_name(e)) == Some(e));
        },
        AutoCmdEvent::VimResized => {
            reveal_strlit("VimResized");
            assert(event_of_name(event_name(e)) == Some(e));
        },
        AutoCmdEvent::VimResume => {
            reveal_strlit("VimResume");
            assert(event_of_name(event_name(e)) == Some(e));
        },
        AutoCmdEvent::VimSuspend => {
            reveal_strlit("VimSuspend");
            reveal_strlit("VimResized");
            assert("VimSuspend"@[3] != "VimResized"@[3]);
            assert(event_of_name(event_name(e)) == Some(e));
        },
        AutoCmdEvent::WinClosed => {
            reveal_strlit("WinClosed");
            assert(event_of_name(event_name(e)) == Some(e));
        },
        AutoCmdEvent::WinEnter => {
            reveal_strlit("WinEnter");
            assert(event_of_name(event_name(e)) == Some(e));
        },
        AutoCmdEvent::WinLeave => {
            reveal_strlit("WinLeave");
            reveal_strlit("WinEnter");
            assert("WinLeave"@[3] != "WinEnter"@[3]);
            assert(event_of_name(event_name(e)) == Some(e));
        },
        AutoCmdEvent::WinNew => {
            reveal_strlit("WinNew");
            assert(event_of_name(event_name(e)) == Some(e));
        },
        AutoCmdEvent::WinResized => {
            reveal_strlit("WinResized");
            assert(event_of_name(event_name(e)) == Some(e));
        },
        AutoCmdEvent::WinScrolled => {
            reveal_strlit("WinScrolled");
            assert(event_of_name(event_name(e)) == Some(e));
        },
    }
}

/// Different events have different names: the name of an event leads back
/// to it.
pub proof fn law_event_names_distinct(e1: AutoCmdEvent, e2: AutoCmdEvent)
    ensures
        event_of_name(event_name(e1)) == Some(e1),
        event_name(e1) == event_name(e2) ==> e1 == e2,
{
    lemma_event_of_name(e1);
    lemma_event_of_name(e2);
}

} // verus!
