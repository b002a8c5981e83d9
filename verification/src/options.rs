//! Option tables handed to the editor's API: which keys an options value
//! sets and with what, and the defaults of the option types.

use vstd::prelude::*;
use crate::api_types::{
    Anchor, AutoCmdGroup, BufferDeleteOpts, HLMode, KeymapOpts, PopupAlign, PopupBorder,
    PopupRelative, PopupStyle, TextType, VirtTextPos, comma_joined,
};
use crate::text::views;
use crate::fuzzy::HLText;

verus! {

/// A value stored under a key of an options table.
pub enum OptionValue {
    Bool(bool),
    Integer(i64),
    Text(String),
    /// A list of `[text, highlight]` pairs.
    Chunks(Vec<HLText>),
    /// A list of texts.
    Texts(Vec<String>),
}

/// What an option value stands for.
pub enum ValueView {
    Bool(bool),
    Integer(int),
    Text(Seq<char>),
    Chunks(Seq<(Seq<char>, Seq<char>)>),
    Texts(Seq<Seq<char>>),
}

/// The text and highlight of each chunk.
pub open spec fn chunks_view(chunks: Seq<HLText>) -> Seq<(Seq<char>, Seq<char>)> {
    chunks.map_values(|c: HLText| (c.text@, c.highlight@))
}

/// What a value stands for.
pub open spec fn value_view(v: OptionValue) -> ValueView {
    match v {
        OptionValue::Bool(b) => ValueView::Bool(b),
        OptionValue::Integer(i) => ValueView::Integer(i as int),
        OptionValue::Text(t) => ValueView::Text(t@),
        OptionValue::Chunks(c) => ValueView::Chunks(chunks_view(c@)),
        OptionValue::Texts(t) => ValueView::Texts(crate::text::views(t@)),
    }
}

/// What a table's entries stand for, in order.
pub open spec fn entries_view(entries: Seq<(&'static str, OptionValue)>) -> Seq<(Seq<char>, ValueView)> {
    entries.map_values(|e: (&'static str, OptionValue)| (e.0@, value_view(e.1)))
}

/// The entry for `key` when the value is present, none otherwise.
pub open spec fn entry_if(key: Seq<char>, value: Option<ValueView>) -> Seq<(Seq<char>, ValueView)> {
    match value {
        Some(v) => seq![(key, v)],
        None => seq![],
    }
}

/// Options of an extmark.
pub struct ExtmarkOpts {
    pub id: Option<u32>,
    pub end_row: Option<i32>,
    pub end_col: Option<i32>,
    pub hl_eol: Option<bool>,
    pub hl_group: Option<String>,
    pub hl_mode: Option<HLMode>,
    pub virt_text: Option<Vec<HLText>>,
    pub virt_text_pos: Option<VirtTextPos>,
    pub virt_text_win_col: Option<u32>,
    pub virt_text_repeat_linebreak: Option<bool>,
    pub virt_lines_above: Option<bool>,
}

impl Default for ExtmarkOpts {
    /// No option set.
    fn default() -> (r: ExtmarkOpts)
        ensures
            r.id is None,
            r.end_row is None,
            r.end_col is None,
            r.hl_eol is None,
            r.hl_group is None,
            r.hl_mode is None,
            r.virt_text is None,
            r.virt_text_pos is None,
            r.virt_text_win_col is None,
            r.virt_text_repeat_linebreak is None,
            r.virt_lines_above is None,
    {
        ExtmarkOpts {
            id: None,
            end_row: None,
            end_col: None,
            hl_eol: None,
            hl_group: None,
            hl_mode: None,
            virt_text: None,
            virt_text_pos: None,
            virt_text_win_col: None,
            virt_text_repeat_linebreak: None,
            virt_lines_above: None,
        }
    }
}

/// The name of a highlight mode, as the API knows it.
pub open spec fn hl_mode_name(m: HLMode) -> Seq<char> {
    match m {
        HLMode::Replace => "replace"@,
        HLMode::Combine => "combine"@,
        HLMode::Blend => "blend"@,
    }
}

/// The name of a virtual text position, as the API knows it.
pub open spec fn virt_text_pos_name(p: VirtTextPos) -> Seq<char> {
    match p {
        VirtTextPos::Eol => "eol"@,
        VirtTextPos::Overlay => "overlay"@,
        VirtTextPos::RightAlign => "right_align"@,
        VirtTextPos::Inline => "inline"@,
    }
}

/// The entries of an extmark's options table for its position and
/// highlight: each such option that is set, in the order of the fields.
pub open spec fn extmark_head(
    id: Option<u32>,
    end_row: Option<i32>,
    end_col: Option<i32>,
    hl_eol: Option<bool>,
    hl_group: Option<String>,
    hl_mode: Option<HLMode>,
) -> Seq<(Seq<char>, ValueView)> {
    entry_if("id"@, match id { Some(v) => Some(ValueView::Integer(v as int)), None => None })
        + entry_if("end_row"@, match end_row { Some(v) => Some(ValueView::Integer(v as int)), None => None })
        + entry_if("end_col"@, match end_col { Some(v) => Some(ValueView::Integer(v as int)), None => None })
        + entry_if("hl_eol"@, match hl_eol { Some(v) => Some(ValueView::Bool(v)), None => None })
        + entry_if("hl_group"@, match hl_group { Some(v) => Some(ValueView::Text(v@)), None => None })
        + entry_if("hl_mode"@, match hl_mode { Some(v) => Some(ValueView::Text(hl_mode_name(v))), None => None })
}

/// The entries of an extmark's options table for its virtual text: each
/// such option that is set, in the order of the fields.
pub open spec fn extmark_tail(
    virt_text: Option<Vec<HLText>>,
    virt_text_pos: Option<VirtTextPos>,
    virt_text_win_col: Option<u32>,
    virt_text_repeat_linebreak: Option<bool>,
    virt_lines_above: Option<bool>,
) -> Seq<(Seq<char>, ValueView)> {
    entry_if("virt_text"@, match virt_text { Some(v) => Some(ValueView::Chunks(chunks_view(v@))), None => None })
        + entry_if("virt_text_pos"@, match virt_text_pos { Some(v) => Some(ValueView::Text(virt_text_pos_name(v))), None => None })
        + entry_if("virt_text_win_col"@, match virt_text_win_col { Some(v) => Some(ValueView::Integer(v as int)), None => None })
        + entry_if("virt_text_repeat_linebreak"@, match virt_text_repeat_linebreak { Some(v) => Some(ValueView::Bool(v)), None => None })
        + entry_if("virt_lines_above"@, match virt_lines_above { Some(v) => Some(ValueView::Bool(v)), None => None })
}

/// The entries of an extmark's options table: each option that is set,
/// under its own name, in the order of the fields.
pub open spec fn extmark_entries(o: ExtmarkOpts) -> Seq<(Seq<char>, ValueView)> {
    extmark_head(o.id, o.end_row, o.end_col, o.hl_eol, o.hl_group, o.hl_mode) + extmark_tail(
        o.virt_text,
        o.virt_text_pos,
        o.virt_text_win_col,
        o.virt_text_repeat_linebreak,
        o.virt_lines_above,
    )
}

/// Appends `(key, value)` to `entries`.
fn push_entry(entries: &mut Vec<(&'static str, OptionValue)>, key: &'static str, value: OptionValue)
    ensures
        entries_view(final(entries)@) == entries_view(old(entries)@) + seq![(key@, value_view(value))],
{
    let ghost before = entries@;
    entries.push((key, value));
    assert(entries_view(entries@) =~= entries_view(before) + seq![(key@, value_view(value))]);
}

impl ExtmarkOpts {
    /// The entries of the options table (see `extmark_entries`).
    pub fn entries(self) -> (r: Vec<(&'static str, OptionValue)>)
        ensures
            entries_view(r@) == extmark_entries(self),
    {
        let mut r = Self::head_entries(self.id, self.end_row, self.end_col, self.hl_eol, self.hl_group, self.hl_mode);
        let mut tail = Self::tail_entries(
            self.virt_text,
            self.virt_text_pos,
            self.virt_text_win_col,
            self.virt_text_repeat_linebreak,
            self.virt_lines_above,
        );
        let ghost head = r@;
        let ghost rest = tail@;
        r.append(&mut tail);
        assert(entries_view(r@) =~= entries_view(head) + entries_view(rest));
        r
    }

    fn head_entries(
        id: Option<u32>,
        end_row: Option<i32>,
        end_col: Option<i32>,
        hl_eol: Option<bool>,
        hl_group: Option<String>,
        hl_mode: Option<HLMode>,
    ) -> (r: Vec<(&'static str, OptionValue)>)
        ensures
            entries_view(r@) == extmark_head(id, end_row, end_col, hl_eol, hl_group, hl_mode),
    {
        let mut r: Vec<(&'static str, OptionValue)> = Vec::new();
        assert(entries_view(r@) =~= seq![]);
        if let Some(v) = id {
            push_entry(&mut r, "id", OptionValue::Integer(v as i64));
        }
        if let Some(v) = end_row {
            push_entry(&mut r, "end_row", OptionValue::Integer(v as i64));
        }
        if let Some(v) = end_col {
            push_entry(&mut r, "end_col", OptionValue::Integer(v as i64));
        }
        if let Some(v) = hl_eol {
            push_entry(&mut r, "hl_eol", OptionValue::Bool(v));
        }
        if let Some(v) = hl_group {
            push_entry(&mut r, "hl_group", OptionValue::Text(v));
        }
        if let Some(v) = hl_mode {
            push_entry(&mut r, "hl_mode", OptionValue::Text(v.name().to_owned()));
        }
        r
    }

    fn tail_entries(
        virt_text: Option<Vec<HLText>>,
        virt_text_pos: Option<VirtTextPos>,
        virt_text_win_col: Option<u32>,
        virt_text_repeat_linebreak: Option<bool>,
        virt_lines_above: Option<bool>,
    ) -> (r: Vec<(&'static str, OptionValue)>)
        ensures
            entries_view(r@) == extmark_tail(
                virt_text,
                virt_text_pos,
                virt_text_win_col,
                virt_text_repeat_linebreak,
                virt_lines_above,
            ),
    {
        let mut r: Vec<(&'static str, OptionValue)> = Vec::new();
        assert(entries_view(r@) =~= seq![]);
        if let Some(v) = virt_text {
            push_entry(&mut r, "virt_text", OptionValue::Chunks(v));
        }
        if let Some(v) = virt_text_pos {
            push_entry(&mut r, "virt_text_pos", OptionValue::Text(v.name().to_owned()));
        }
        if let Some(v) = virt_text_win_col {
            push_entry(&mut r, "virt_text_win_col", OptionValue::Integer(v as i64));
        }
        if let Some(v) = virt_text_repeat_linebreak {
            push_entry(&mut r, "virt_text_repeat_linebreak", OptionValue::Bool(v));
        }
        if let Some(v) = virt_lines_above {
            push_entry(&mut r, "virt_lines_above", OptionValue::Bool(v));
        }
        r
    }
}

impl KeymapOpts {
    /// The entries of the options table: `silent` and `buffer`, each when
    /// set.
    pub fn entries(&self) -> (r: Vec<(&'static str, OptionValue)>)
        ensures
            entries_view(r@) == entry_if(
                "silent"@,
                match self.silent { Some(v) => Some(ValueView::Bool(v)), None => None },
            ) + entry_if(
                "buffer"@,
                match self.buffer { Some(v) => Some(ValueView::Integer(v as int)), None => None },
            ),
    {
        let mut r: Vec<(&'static str, OptionValue)> = Vec::new();
        assert(entries_view(r@) =~= seq![]);
        if let Some(v) = self.silent {
            push_entry(&mut r, "silent", OptionValue::Bool(v));
        }
        if let Some(v) = self.buffer {
            push_entry(&mut r, "buffer", OptionValue::Integer(v as i64));
        }
        assert(entries_view(r@) =~= entry_if(
            "silent"@,
            match self.silent { Some(v) => Some(ValueView::Bool(v)), None => None },
        ) + entry_if(
            "buffer"@,
            match self.buffer { Some(v) => Some(ValueView::Integer(v as int)), None => None },
        ));
        r
    }
}

impl BufferDeleteOpts {
    /// The entries of the options table: `force` and `unload`.
    pub fn entries(&self) -> (r: Vec<(&'static str, OptionValue)>)
        ensures
            entries_view(r@) == seq![
                ("force"@, ValueView::Bool(self.force)),
                ("unload"@, ValueView::Bool(self.unload)),
            ],
    {
        let mut r: Vec<(&'static str, OptionValue)> = Vec::new();
        assert(entries_view(r@) =~= seq![]);
        push_entry(&mut r, "force", OptionValue::Bool(self.force));
        push_entry(&mut r, "unload", OptionValue::Bool(self.unload));
        assert(entries_view(r@) =~= seq![
            ("force"@, ValueView::Bool(self.force)),
            ("unload"@, ValueView::Bool(self.unload)),
        ]);
        r
    }
}

/// What filetype detection is asked about: a buffer, a file name, or
/// contents.
pub struct FileTypeMatch {
    pub buf: Option<u32>,
    pub filename: Option<String>,
    pub contents: Option<Vec<String>>,
}

impl FileTypeMatch {
    /// The entries of the options table: `buf`, `filename` and `contents`,
    /// each when given.
    pub fn entries(self) -> (r: Vec<(&'static str, OptionValue)>)
        ensures
            entries_view(r@) == entry_if(
                "buf"@,
                match self.buf { Some(v) => Some(ValueView::Integer(v as int)), None => None },
            ) + entry_if(
                "filename"@,
                match self.filename { Some(v) => Some(ValueView::Text(v@)), None => None },
            ) + entry_if(
                "contents"@,
                match self.contents { Some(v) => Some(ValueView::Texts(crate::text::views(v@))), None => None },
            ),
    {
        let ghost o = self;
        let mut r: Vec<(&'static str, OptionValue)> = Vec::new();
        assert(entries_view(r@) =~= seq![]);
        if let Some(v) = self.buf {
            push_entry(&mut r, "buf", OptionValue::Integer(v as i64));
        }
        if let Some(v) = self.filename {
            push_entry(&mut r, "filename", OptionValue::Text(v));
        }
        if let Some(v) = self.contents {
            push_entry(&mut r, "contents", OptionValue::Texts(v));
        }
        assert(entries_view(r@) =~= entry_if(
            "buf"@,
            match o.buf { Some(v) => Some(ValueView::Integer(v as int)), None => None },
        ) + entry_if(
            "filename"@,
            match o.filename { Some(v) => Some(ValueView::Text(v@)), None => None },
        ) + entry_if(
            "contents"@,
            match o.contents { Some(v) => Some(ValueView::Texts(crate::text::views(v@))), None => None },
        ));
        r
    }
}

/// A highlight definition.
pub struct HLOpts {
    pub fg: Option<String>,
    pub bg: Option<String>,
    pub sp: Option<String>,
    pub blend: Option<u32>,
    pub bold: bool,
    pub standout: bool,
    pub underline: bool,
    pub undercurl: bool,
    pub underdouble: bool,
    pub underdotted: bool,
    pub underdashed: bool,
    pub strikethrough: bool,
    pub italic: bool,
    pub reverse: bool,
    pub nocombine: bool,
    pub link: Option<String>,
    pub default: bool,
    pub ctermfg: Option<String>,
    pub ctermbg: Option<String>,
    pub force: bool,
}

impl HLOpts {
    /// A definition that sets only the foreground color.
    pub fn with_fg(fg: String) -> (r: HLOpts)
        ensures
            r.fg == Some(fg),
            r == (HLOpts { fg: Some(fg), ..r }),
            r.bg is None && r.sp is None && r.blend is None && r.link is None,
            r.ctermfg is None && r.ctermbg is None,
            !r.bold && !r.standout && !r.underline && !r.undercurl && !r.underdouble,
            !r.underdotted && !r.underdashed && !r.strikethrough && !r.italic && !r.reverse,
            !r.nocombine && !r.default && !r.force,
    {
        let mut r = HLOpts::default();
        r.fg = Some(fg);
        r
    }
}

impl Default for HLOpts {
    /// No color, no attribute.
    fn default() -> (r: HLOpts)
        ensures
            r.fg is None && r.bg is None && r.sp is None && r.blend is None && r.link is None,
            r.ctermfg is None && r.ctermbg is None,
            !r.bold && !r.standout && !r.underline && !r.undercurl && !r.underdouble,
            !r.underdotted && !r.underdashed && !r.strikethrough && !r.italic && !r.reverse,
            !r.nocombine && !r.default && !r.force,
    {
        HLOpts {
            fg: None,
            bg: None,
            sp: None,
            blend: None,
            bold: false,
            standout: false,
            underline: false,
            undercurl: false,
            underdouble: false,
            underdotted: false,
            underdashed: false,
            strikethrough: false,
            italic: false,
            reverse: false,
            nocombine: false,
            link: None,
            default: false,
            ctermfg: None,
            ctermbg: None,
            force: false,
        }
    }
}

/// Command modifiers that take a pattern filter.
#[derive(Clone, Copy)]
pub struct CmdOptsModsFilter<'a> {
    pub force: bool,
    pub pattern: &'a str,
}

/// Magic characters a command interprets.
#[derive(Clone, Copy)]
pub struct CmdOptsMagic {
    pub bar: bool,
    pub file: bool,
}

impl Default for CmdOptsMagic {
    /// Neither interpreted.
    fn default() -> (r: CmdOptsMagic)
        ensures
            !r.bar && !r.file,
    {
        CmdOptsMagic { bar: false, file: false }
    }
}

/// Command modifiers.
#[derive(Clone, Copy)]
pub struct CmdOptsMods<'a> {
    pub browse: bool,
    pub confirm: bool,
    pub emsg_silent: bool,
    pub filter: CmdOptsModsFilter<'a>,
    pub hide: bool,
    pub horizontal: bool,
    pub keepalt: bool,
    pub keepjumps: bool,
    pub keepmarks: bool,
    pub keeppatterns: bool,
    pub lockmarks: bool,
    pub noautocmd: bool,
    pub noswapfile: bool,
    pub sandbox: bool,
    pub silent: bool,
    pub split: &'a str,
    pub tab: i32,
    pub unsilent: bool,
    pub verbose: i32,
    pub vertical: bool,
}

impl<'a> Default for CmdOptsMods<'a> {
    /// No modifier: every flag off, no filter pattern or split, and tab and
    /// verbosity -1 (unset).
    fn default() -> (r: CmdOptsMods<'a>)
        ensures
            !r.browse && !r.confirm && !r.emsg_silent && !r.hide && !r.horizontal,
            !r.keepalt && !r.keepjumps && !r.keepmarks && !r.keeppatterns && !r.lockmarks,
            !r.noautocmd && !r.noswapfile && !r.sandbox && !r.silent && !r.unsilent,
            !r.vertical,
            !r.filter.force && r.filter.pattern@.len() == 0,
            r.split@.len() == 0,
            r.tab == -1,
            r.verbose == -1,
    {
        let none = "";
        proof {
            reveal_strlit("");
        }
        CmdOptsMods {
            browse: false,
            confirm: false,
            emsg_silent: false,
            filter: CmdOptsModsFilter { force: false, pattern: none },
            hide: false,
            horizontal: false,
            keepalt: false,
            keepjumps: false,
            keepmarks: false,
            keeppatterns: false,
            lockmarks: false,
            noautocmd: false,
            noswapfile: false,
            sandbox: false,
            silent: false,
            split: none,
            tab: -1,
            unsilent: false,
            verbose: -1,
            vertical: false,
        }
    }
}

/// A user interface attached to the editor, as the API lists it.
pub struct Ui {
    pub chan: u32,
    pub ext_cmdline: bool,
    pub ext_hlstate: bool,
    pub ext_linegrid: bool,
    pub ext_messages: bool,
    pub ext_multigrid: bool,
    pub ext_popupmenu: bool,
    pub ext_tabline: bool,
    pub ext_termcolors: bool,
    pub ext_wildmenu: bool,
    pub height: u32,
    pub override_: bool,
    pub rgb: bool,
    pub stdin_tty: bool,
    pub stdout_tty: bool,
    pub term_background: String,
    pub term_colors: u32,
    pub term_name: String,
    pub width: u32,
}

/// What an autocommand callback is told about the event.
pub struct AutoCmdCbEvent {
    pub id: u32,
    pub event: String,
    pub group: Option<u32>,
    pub match_: String,
    pub buf: Option<u32>,
    pub file: String,
    pub data: Option<usize>,
}

/// The name of a placement reference, as the API knows it.
pub open spec fn relative_name(r: PopupRelative) -> Seq<char> {
    match r {
        PopupRelative::Win => "win"@,
        PopupRelative::Cursor => "cursor"@,
        PopupRelative::Mouse => "mouse"@,
        PopupRelative::Editor => "editor"@,
    }
}

/// The name of an anchor corner, as the API knows it.
pub open spec fn anchor_name(a: Anchor) -> Seq<char> {
    match a {
        Anchor::NorthWest => "NW"@,
        Anchor::NorthEast => "NE"@,
        Anchor::SouthWest => "SW"@,
        Anchor::SouthEast => "SE"@,
    }
}

/// The name of a border, as the API knows it; custom characters are joined
/// with `,`.
pub open spec fn border_name(b: PopupBorder) -> Seq<char> {
    match b {
        PopupBorder::NoBorder => "none"@,
        PopupBorder::Single => "single"@,
        PopupBorder::Double => "double"@,
        PopupBorder::Rounded => "rounded"@,
        PopupBorder::Solid => "solid"@,
        PopupBorder::Shadow => "shadow"@,
        PopupBorder::Custom(parts) => comma_joined(views(parts@)),
    }
}

/// The name of a title or footer placement, as the API knows it.
pub open spec fn align_name(a: PopupAlign) -> Seq<char> {
    match a {
        PopupAlign::Left => "left"@,
        PopupAlign::Center => "center"@,
        PopupAlign::Right => "right"@,
    }
}

/// What a title or footer stands for: a text, or `[text, highlight]` pairs.
pub open spec fn text_type_view(t: TextType) -> ValueView {
    match t {
        TextType::String(s) => ValueView::Text(s@),
        TextType::Tuples(pairs) => ValueView::Chunks(chunks_view(pairs@)),
    }
}

/// A title or footer as an option value.
pub fn text_type_value(t: TextType) -> (r: OptionValue)
    ensures
        value_view(r) == text_type_view(t),
{
    match t {
        TextType::String(s) => OptionValue::Text(s),
        TextType::Tuples(pairs) => OptionValue::Chunks(pairs),
    }
}

/// The configuration of a floating window, with its sizes and position
/// already in cells.
pub struct WinConfig {
    pub width: Option<u32>,
    pub height: Option<u32>,
    pub row: Option<u32>,
    pub col: Option<u32>,
    pub relative: PopupRelative,
    pub anchor: Anchor,
    pub border: PopupBorder,
    pub noautocmd: bool,
    pub style: Option<PopupStyle>,
    pub focusable: Option<bool>,
    pub title: Option<TextType>,
    pub title_pos: PopupAlign,
    pub footer: Option<TextType>,
    pub footer_pos: PopupAlign,
}

/// A size in cells, or its default.
pub open spec fn cells_or(v: Option<u32>, default: int) -> ValueView {
    match v {
        Some(n) => ValueView::Integer(n as int),
        None => ValueView::Integer(default),
    }
}

/// The entries every floating window's configuration table has: the
/// placement reference, the width and height (40 cells unless given), the
/// row and column (0 unless given), the anchor, the border and `noautocmd`.
pub open spec fn win_fixed_spec(c: WinConfig) -> Seq<(Seq<char>, ValueView)> {
    seq![
        ("relative"@, ValueView::Text(relative_name(c.relative))),
        ("width"@, cells_or(c.width, 40)),
        ("height"@, cells_or(c.height, 40)),
        ("row"@, cells_or(c.row, 0)),
        ("col"@, cells_or(c.col, 0)),
        ("anchor"@, ValueView::Text(anchor_name(c.anchor))),
        ("border"@, ValueView::Text(border_name(c.border))),
        ("noautocmd"@, ValueView::Bool(c.noautocmd)),
    ]
}

/// The style and `focusable` entries, each when given.
pub open spec fn win_optional_spec(style: Option<PopupStyle>, focusable: Option<bool>) -> Seq<
    (Seq<char>, ValueView),
> {
    entry_if("style"@, match style { Some(_) => Some(ValueView::Text("minimal"@)), None => None })
        + entry_if("focusable"@, match focusable { Some(f) => Some(ValueView::Bool(f)), None => None })
}

/// A title (or footer) entry followed by its placement, both only when there
/// is a text.
pub open spec fn win_titled_spec(
    key: Seq<char>,
    pos_key: Seq<char>,
    text: Option<TextType>,
    pos: PopupAlign,
) -> Seq<(Seq<char>, ValueView)> {
    match text {
        Some(t) => seq![(key, text_type_view(t)), (pos_key, ValueView::Text(align_name(pos)))],
        None => seq![],
    }
}

/// The entries of a floating window's configuration table: those every
/// table has, then the style and `focusable` when given, then the title
/// with its placement and the footer with its placement, each only when
/// there is one (a placement is set only together with its text).
pub open spec fn win_entries_spec(c: WinConfig) -> Seq<(Seq<char>, ValueView)> {
    win_fixed_spec(c) + win_optional_spec(c.style, c.focusable) + win_titled_spec(
        "title"@,
        "title_pos"@,
        c.title,
        c.title_pos,
    ) + win_titled_spec("footer"@, "footer_pos"@, c.footer, c.footer_pos)
}

fn win_fixed(
    relative: PopupRelative,
    width: Option<u32>,
    height: Option<u32>,
    row: Option<u32>,
    col: Option<u32>,
    anchor: Anchor,
    border: &PopupBorder,
    noautocmd: bool,
) -> (r: Vec<(&'static str, OptionValue)>)
    ensures
        entries_view(r@) == seq![
            ("relative"@, ValueView::Text(relative_name(relative))),
            ("width"@, cells_or(width, 40)),
            ("height"@, cells_or(height, 40)),
            ("row"@, cells_or(row, 0)),
            ("col"@, cells_or(col, 0)),
            ("anchor"@, ValueView::Text(anchor_name(anchor))),
            ("border"@, ValueView::Text(border_name(*border))),
            ("noautocmd"@, ValueView::Bool(noautocmd)),
        ],
{
    let mut r: Vec<(&'static str, OptionValue)> = Vec::new();
    assert(entries_view(r@) =~= seq![]);
    push_entry(&mut r, "relative", OptionValue::Text(relative.name().to_owned()));
    let w: u32 = match width { Some(v) => v, None => 40 };
    let h: u32 = match height { Some(v) => v, None => 40 };
    let y: u32 = match row { Some(v) => v, None => 0 };
    let x: u32 = match col { Some(v) => v, None => 0 };
    push_entry(&mut r, "width", OptionValue::Integer(w as i64));
    push_entry(&mut r, "height", OptionValue::Integer(h as i64));
    push_entry(&mut r, "row", OptionValue::Integer(y as i64));
    push_entry(&mut r, "col", OptionValue::Integer(x as i64));
    push_entry(&mut r, "anchor", OptionValue::Text(anchor.name().to_owned()));
    push_entry(&mut r, "border", OptionValue::Text(border.name()));
    push_entry(&mut r, "noautocmd", OptionValue::Bool(noautocmd));
    r
}

fn win_optional(style: Option<PopupStyle>, focusable: Option<bool>) -> (r: Vec<
    (&'static str, OptionValue),
>)
    ensures
        entries_view(r@) == win_optional_spec(style, focusable),
{
    let mut r: Vec<(&'static str, OptionValue)> = Vec::new();
    assert(entries_view(r@) =~= seq![]);
    if let Some(s) = style {
        push_entry(&mut r, "style", OptionValue::Text(s.name().to_owned()));
    }
    if let Some(f) = focusable {
        push_entry(&mut r, "focusable", OptionValue::Bool(f));
    }
    r
}

fn win_titled(key: &'static str, pos_key: &'static str, text: Option<TextType>, pos: PopupAlign) -> (r:
    Vec<(&'static str, OptionValue)>)
    ensures
        entries_view(r@) == win_titled_spec(key@, pos_key@, text, pos),
{
    let mut r: Vec<(&'static str, OptionValue)> = Vec::new();
    assert(entries_view(r@) =~= seq![]);
    if let Some(t) = text {
        push_entry(&mut r, key, text_type_value(t));
        push_entry(&mut r, pos_key, OptionValue::Text(pos.name().to_owned()));
    }
    r
}

/// The entries of a floating window's configuration table (see
/// `win_entries_spec`).
pub fn win_entries(c: WinConfig) -> (r: Vec<(&'static str, OptionValue)>)
    ensures
        entries_view(r@) == win_entries_spec(c),
{
    let ghost c0 = c;
    let mut r = win_fixed(c.relative, c.width, c.height, c.row, c.col, c.anchor, &c.border, c.noautocmd);
    let mut optional = win_optional(c.style, c.focusable);
    let mut title = win_titled("title", "title_pos", c.title, c.title_pos);
    let mut footer = win_titled("footer", "footer_pos", c.footer, c.footer_pos);
    let ghost r0 = r@;
    let ghost o0 = optional@;
    let ghost t0 = title@;
    let ghost f0 = footer@;
    r.append(&mut optional);
    r.append(&mut title);
    r.append(&mut footer);
    assert(entries_view(r@) =~= entries_view(r0) + entries_view(o0) + entries_view(t0) + entries_view(f0));
    assert(entries_view(r0) == win_fixed_spec(c0));
    r
}

/// Options of an autocommand other than its callback.
pub struct AutoCmdConfig {
    /// Autocommand group name or id to match against.
    pub group: Option<AutoCmdGroup>,
    /// Patterns to match literally.
    pub pattern: Vec<String>,
    /// Buffer for buffer-local autocommands.
    pub buffer: Option<u32>,
    /// Description.
    pub desc: Option<String>,
    /// Run only once.
    pub once: bool,
}

/// The entries of an autocommand's options table, the callback aside: the
/// group (by name or id) when given, the patterns when there are any, the
/// buffer and the description when given, and `once`.
pub open spec fn autocmd_entries_spec(c: AutoCmdConfig) -> Seq<(Seq<char>, ValueView)> {
    entry_if("group"@, match c.group {
        Some(AutoCmdGroup::String(name)) => Some(ValueView::Text(name@)),
        Some(AutoCmdGroup::Integer(id)) => Some(ValueView::Integer(id as int)),
        None => None,
    }) + entry_if("pattern"@, if c.pattern@.len() > 0 {
        Some(ValueView::Texts(views(c.pattern@)))
    } else {
        None
    }) + entry_if("buffer"@, match c.buffer { Some(b) => Some(ValueView::Integer(b as int)), None => None })
        + entry_if("desc"@, match c.desc { Some(d) => Some(ValueView::Text(d@)), None => None })
        + seq![("once"@, ValueView::Bool(c.once))]
}

impl AutoCmdConfig {
    /// The entries of the options table (see `autocmd_entries_spec`).
    pub fn entries(self) -> (r: Vec<(&'static str, OptionValue)>)
        ensures
            entries_view(r@) == autocmd_entries_spec(self),
    {
        let ghost c0 = self;
        let mut r: Vec<(&'static str, OptionValue)> = Vec::new();
        assert(entries_view(r@) =~= seq![]);
        match self.group {
            Some(AutoCmdGroup::String(name)) => push_entry(&mut r, "group", OptionValue::Text(name)),
            Some(AutoCmdGroup::Integer(id)) => push_entry(&mut r, "group", OptionValue::Integer(id as i64)),
            None => {},
        }
        if self.pattern.len() > 0 {
            push_entry(&mut r, "pattern", OptionValue::Texts(self.pattern));
        }
        if let Some(b) = self.buffer {
            push_entry(&mut r, "buffer", OptionValue::Integer(b as i64));
        }
        if let Some(d) = self.desc {
            push_entry(&mut r, "desc", OptionValue::Text(d));
        }
        push_entry(&mut r, "once", OptionValue::Bool(self.once));
        assert(entries_view(r@) =~= autocmd_entries_spec(c0));
        r
    }
}

} // verus!
