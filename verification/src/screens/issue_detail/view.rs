//! What the issue detail pane shows: the issue's fields, its description and
//! comments as styled lines, and the lines of the transition picker.

use vstd::prelude::*;
use vstd::string::*;
use vstd::utf8::encode_utf8;

use crate::model::{IssueComment, IssueSummary, TransitionChoice};
use crate::screens::issue_detail::IssueDetailState;
use crate::text::{chars_of, index_of_from, lemma_index_of_from_bounds, string_of, trim, trimmed};

verus! {

/// How a piece of text is shown.
#[derive(Clone, Copy, Debug, PartialEq, Eq, Structural)]
pub enum SegmentStyle {
    Plain,
    /// A field name, in bold.
    Label,
    /// A section title, bold and underlined.
    Heading,
    /// A line opening or closing a code block.
    CodeFence,
    /// A line inside a code block.
    Code,
    /// A "# " heading of a description.
    Heading1,
    /// A "## " heading of a description.
    Heading2,
    /// A "* " or "- " list item of a description.
    ListItem,
    /// A highlighted text, in the accent colour.
    Accent,
    /// A secondary text, in the border colour.
    Muted,
    /// A comment's author, in the colour of the palette entry it carries
    /// (see `author_color`).
    Author(u8),
}

/// A piece of a line with one style.
#[derive(Clone, Debug, PartialEq, Eq)]
pub struct Segment {
    pub style: SegmentStyle,
    pub text: String,
}

impl View for Segment {
    type V = (SegmentStyle, Seq<char>);

    open spec fn view(&self) -> Self::V {
        (self.style, self.text@)
    }
}

/// One line of the detail pane; a line without segments is blank.
#[derive(Clone, Debug, PartialEq, Eq)]
pub struct ContentLine {
    pub segments: Vec<Segment>,
}

impl View for ContentLine {
    type V = Seq<(SegmentStyle, Seq<char>)>;

    open spec fn view(&self) -> Self::V {
        self.segments@.map_values(|s: Segment| s@)
    }
}

/// The views of a list of lines.
pub open spec fn lines_view(ls: Seq<ContentLine>) -> Seq<Seq<(SegmentStyle, Seq<char>)>> {
    ls.map_values(|l: ContentLine| l@)
}

/// A line with one segment.
pub open spec fn one(style: SegmentStyle, text: Seq<char>) -> Seq<(SegmentStyle, Seq<char>)> {
    seq![(style, text)]
}

/// A line "<label><value>" with the label in bold.
pub open spec fn field_line(label: Seq<char>, value: Seq<char>) -> Seq<(SegmentStyle, Seq<char>)> {
    seq![(SegmentStyle::Label, label), (SegmentStyle::Plain, value)]
}

/// `s` without one trailing carriage return.
pub open spec fn strip_cr(s: Seq<char>) -> Seq<char> {
    if s.len() > 0 && s.last() == '\r' {
        s.drop_last()
    } else {
        s
    }
}

/// The lines of `s` from position `pos` on, as `str::lines` splits them: at each
/// newline, dropping a carriage return before it; a final newline ends the last
/// line rather than starting an empty one.
pub open spec fn lines_from(s: Seq<char>, pos: nat) -> Seq<Seq<char>>
    decreases s.len() - pos,
{
    if pos >= s.len() {
        seq![]
    } else {
        let k = index_of_from(s, '\n', pos);
        proof {
            lemma_index_of_from_bounds(s, '\n', pos);
        }
        if k >= s.len() {
            seq![s.subrange(pos as int, s.len() as int)]
        } else {
            seq![strip_cr(s.subrange(pos as int, k as int))] + lines_from(s, k + 1)
        }
    }
}

/// Whether `s` begins with `p`.
pub open spec fn begins_with(s: Seq<char>, p: Seq<char>) -> bool {
    s.len() >= p.len() && s.take(p.len() as int) == p
}

/// The description's lines from line `i`, given whether a code block is open: a
/// fence toggles the block, code is indented, and headings and list items are
/// marked.
pub open spec fn description_lines(ls: Seq<Seq<char>>, i: nat, in_code: bool) -> Seq<Seq<(SegmentStyle, Seq<char>)>>
    decreases ls.len() - i,
{
    if i >= ls.len() {
        seq![]
    } else {
        let l = ls[i as int];
        let t = trimmed(l);
        if begins_with(t, "```"@) {
            seq![one(SegmentStyle::CodeFence, l)] + description_lines(ls, i + 1, !in_code)
        } else {
            let line = if in_code {
                one(SegmentStyle::Code, "  "@ + l)
            } else if begins_with(t, "# "@) {
                one(SegmentStyle::Heading1, l)
            } else if begins_with(t, "## "@) {
                one(SegmentStyle::Heading2, l)
            } else if begins_with(t, "* "@) || begins_with(t, "- "@) {
                one(SegmentStyle::ListItem, l)
            } else {
                one(SegmentStyle::Plain, l)
            };
            seq![line] + description_lines(ls, i + 1, in_code)
        }
    }
}

/// A comment body's lines from line `i`: indented, code indented further.
pub open spec fn body_lines(ls: Seq<Seq<char>>, i: nat, in_code: bool) -> Seq<Seq<(SegmentStyle, Seq<char>)>>
    decreases ls.len() - i,
{
    if i >= ls.len() {
        seq![]
    } else {
        let l = ls[i as int];
        if begins_with(trimmed(l), "```"@) {
            seq![one(SegmentStyle::CodeFence, "  "@ + l)] + body_lines(ls, i + 1, !in_code)
        } else if in_code {
            seq![one(SegmentStyle::Code, "    "@ + l)] + body_lines(ls, i + 1, in_code)
        } else {
            seq![one(SegmentStyle::Plain, "  "@ + l)] + body_lines(ls, i + 1, in_code)
        }
    }
}

/// The sum of a sequence of bytes.
pub open spec fn byte_sum(bs: Seq<u8>) -> nat
    decreases bs.len(),
{
    if bs.len() == 0 {
        0
    } else {
        byte_sum(bs.drop_last()) + bs.last() as nat
    }
}

/// The number of author colours.
pub const AUTHOR_COLORS: u8 = 10;

/// The palette entry of an author's name: the sum of the name's UTF-8 bytes,
/// taken as a 32-bit unsigned sum, modulo the number of colours. The same name
/// always gets the same colour.
pub open spec fn author_palette_index(name: Seq<char>) -> nat {
    (byte_sum(encode_utf8(name)) % 0x1_0000_0000) % (AUTHOR_COLORS as nat)
}

/// Picks an author's colour from the palette (see `author_palette_index`).
pub fn author_color(author: &str) -> (r: u8)
    ensures
        r as nat == author_palette_index(author@),
        r < AUTHOR_COLORS,
{
    let bytes = author.as_bytes();
    let mut acc: u32 = 0;
    let mut i: usize = 0;
    while i < bytes.len()
        invariant
            i <= bytes@.len(),
            bytes@ == encode_utf8(author@),
            acc as nat == byte_sum(bytes@.take(i as int)) % 0x1_0000_0000,
        decreases bytes@.len() - i,
    {
        let b = bytes[i];
        proof {
            let prefix = bytes@.take(i as int);
            assert(bytes@.take(i + 1).drop_last() =~= prefix);
            assert(bytes@.take(i + 1).last() == b);
            vstd::arithmetic::div_mod::lemma_small_mod(b as nat, 0x1_0000_0000nat);
            vstd::arithmetic::div_mod::lemma_add_mod_noop(byte_sum(prefix) as int, b as int, 0x1_0000_0000int);
            vstd::arithmetic::div_mod::lemma_mod_bound((acc as int + b as int), 0x1_0000_0000int);
        }
        acc = ((acc as u64 + b as u64) % 0x1_0000_0000u64) as u32;
        i += 1;
    }
    proof {
        assert(bytes@.take(bytes@.len() as int) =~= bytes@);
    }
    (acc % (AUTHOR_COLORS as u32)) as u8
}

/// The colours the detail texts use; `Accent` and `Border` are the theme's.
#[derive(Clone, Copy, Debug, PartialEq, Eq, Structural)]
pub enum TextColor {
    Default,
    DarkGray,
    Green,
    Cyan,
    White,
    Yellow,
    Magenta,
    Blue,
    LightYellow,
    LightCyan,
    LightMagenta,
    LightBlue,
    LightGreen,
    Accent,
    Border,
}

/// How a segment is drawn: its colour, and whether it is bold or underlined.
#[derive(Clone, Copy, Debug, PartialEq, Eq, Structural)]
pub struct TextLook {
    pub color: TextColor,
    pub bold: bool,
    pub underlined: bool,
}

/// The author colours, in palette order.
pub open spec fn palette_color(i: nat) -> TextColor {
    let k = i % (AUTHOR_COLORS as nat);
    if k == 0 {
        TextColor::Yellow
    } else if k == 1 {
        TextColor::Cyan
    } else if k == 2 {
        TextColor::Magenta
    } else if k == 3 {
        TextColor::Blue
    } else if k == 4 {
        TextColor::Green
    } else if k == 5 {
        TextColor::LightYellow
    } else if k == 6 {
        TextColor::LightCyan
    } else if k == 7 {
        TextColor::LightMagenta
    } else if k == 8 {
        TextColor::LightBlue
    } else {
        TextColor::LightGreen
    }
}

/// The look of each style: labels bold, section titles bold and underlined,
/// fences dark grey, code green, "# " headings cyan and bold, "## " headings
/// cyan, list items white, accents and muted texts in the theme's accent and
/// border colours, and authors in their palette colour.
pub open spec fn look_spec(style: SegmentStyle) -> TextLook {
    match style {
        SegmentStyle::Plain => TextLook { color: TextColor::Default, bold: false, underlined: false },
        SegmentStyle::Label => TextLook { color: TextColor::Default, bold: true, underlined: false },
        SegmentStyle::Heading => TextLook { color: TextColor::Default, bold: true, underlined: true },
        SegmentStyle::CodeFence => TextLook { color: TextColor::DarkGray, bold: false, underlined: false },
        SegmentStyle::Code => TextLook { color: TextColor::Green, bold: false, underlined: false },
        SegmentStyle::Heading1 => TextLook { color: TextColor::Cyan, bold: true, underlined: false },
        SegmentStyle::Heading2 => TextLook { color: TextColor::Cyan, bold: false, underlined: false },
        SegmentStyle::ListItem => TextLook { color: TextColor::White, bold: false, underlined: false },
        SegmentStyle::Accent => TextLook { color: TextColor::Accent, bold: false, underlined: false },
        SegmentStyle::Muted => TextLook { color: TextColor::Border, bold: false, underlined: false },
        SegmentStyle::Author(i) => TextLook { color: palette_color(i as nat), bold: false, underlined: false },
    }
}

fn palette(i: u8) -> (r: TextColor)
    ensures
        r == palette_color(i as nat),
{
    match i % AUTHOR_COLORS {
        0 => TextColor::Yellow,
        1 => TextColor::Cyan,
        2 => TextColor::Magenta,
        3 => TextColor::Blue,
        4 => TextColor::Green,
        5 => TextColor::LightYellow,
        6 => TextColor::LightCyan,
        7 => TextColor::LightMagenta,
        8 => TextColor::LightBlue,
        _ => TextColor::LightGreen,
    }
}

/// How a segment of the given style is drawn (see `look_spec`).
pub fn look_of(style: SegmentStyle) -> (r: TextLook)
    ensures
        r == look_spec(style),
{
    match style {
        SegmentStyle::Plain => TextLook { color: TextColor::Default, bold: false, underlined: false },
        SegmentStyle::Label => TextLook { color: TextColor::Default, bold: true, underlined: false },
        SegmentStyle::Heading => TextLook { color: TextColor::Default, bold: true, underlined: true },
        SegmentStyle::CodeFence => TextLook { color: TextColor::DarkGray, bold: false, underlined: false },
        SegmentStyle::Code => TextLook { color: TextColor::Green, bold: false, underlined: false },
        SegmentStyle::Heading1 => TextLook { color: TextColor::Cyan, bold: true, underlined: false },
        SegmentStyle::Heading2 => TextLook { color: TextColor::Cyan, bold: false, underlined: false },
        SegmentStyle::ListItem => TextLook { color: TextColor::White, bold: false, underlined: false },
        SegmentStyle::Accent => TextLook { color: TextColor::Accent, bold: false, underlined: false },
        SegmentStyle::Muted => TextLook { color: TextColor::Border, bold: false, underlined: false },
        SegmentStyle::Author(i) => TextLook { color: palette(i), bold: false, underlined: false },
    }
}

/// When a comment was written, or "Unknown".
pub open spec fn created_text(c: IssueComment) -> Seq<char> {
    match c.created_at {
        Some(d) => d@,
        None => "Unknown"@,
    }
}

/// The lines of one comment: "<author> - <date>", the body, and a blank line.
pub open spec fn comment_block(c: IssueComment) -> Seq<Seq<(SegmentStyle, Seq<char>)>> {
    seq![
        seq![
            (SegmentStyle::Author(author_palette_index(c.author@) as u8), c.author@),
            (SegmentStyle::Plain, " - "@),
            (SegmentStyle::Plain, created_text(c)),
        ],
    ] + body_lines(lines_from(c.body@, 0), 0, false) + seq![seq![]]
}

/// The lines of a list of comments, in order.
pub open spec fn comments_lines(cs: Seq<IssueComment>) -> Seq<Seq<(SegmentStyle, Seq<char>)>>
    decreases cs.len(),
{
    if cs.len() == 0 {
        seq![]
    } else {
        comments_lines(cs.drop_last()) + comment_block(cs.last())
    }
}

/// The texts joined with `sep` between them.
pub open spec fn joined(items: Seq<Seq<char>>, sep: Seq<char>) -> Seq<char>
    decreases items.len(),
{
    if items.len() == 0 {
        Seq::empty()
    } else if items.len() == 1 {
        items[0]
    } else {
        joined(items.drop_last(), sep) + sep + items.last()
    }
}

/// The texts of a list of strings.
pub open spec fn strings_text(items: Seq<String>) -> Seq<Seq<char>> {
    items.map_values(|s: String| s@)
}

/// A list of lines.
pub type Lines = Seq<Seq<(SegmentStyle, Seq<char>)>>;

/// Status, type and priority on one line, then a blank line.
pub open spec fn header_part(issue: IssueSummary) -> Lines {
    seq![
        seq![
            (SegmentStyle::Label, "Status: "@),
            (SegmentStyle::Plain, issue.status@),
            (SegmentStyle::Plain, "  "@),
            (SegmentStyle::Label, "Type: "@),
            (SegmentStyle::Plain, issue.issue_type@),
            (SegmentStyle::Plain, "  "@),
            (SegmentStyle::Label, "Priority: "@),
            (SegmentStyle::Plain, issue.priority@),
        ],
        seq![],
    ]
}

/// The assignee line, when there is an assignee.
pub open spec fn assignee_part(issue: IssueSummary) -> Lines {
    if issue.assignee@.len() > 0 {
        seq![field_line("Assignee: "@, issue.assignee@)]
    } else {
        seq![]
    }
}

/// The epic line, when the issue has an epic.
pub open spec fn epic_part(issue: IssueSummary) -> Lines {
    match issue.epic {
        Some(e) => seq![field_line("Epic: "@, e@)],
        None => seq![],
    }
}

/// The parent line, when the issue has a parent.
pub open spec fn parent_part(issue: IssueSummary) -> Lines {
    match issue.parent_key {
        Some(p) => seq![field_line("Parent: "@, p@)],
        None => seq![],
    }
}

/// The story points line, when the issue is estimated.
pub open spec fn story_points_part(issue: IssueSummary) -> Lines {
    match issue.story_points {
        Some(p) => seq![field_line("Story Points: "@, p@)],
        None => seq![],
    }
}

/// The assignee, story points, epic and parent lines for those that are set,
/// then a blank line.
pub open spec fn fields_part(issue: IssueSummary) -> Lines {
    assignee_part(issue) + story_points_part(issue) + epic_part(issue) + parent_part(issue) + seq![seq![]]
}

/// The description under its heading, followed by a blank line, when there is
/// one.
pub open spec fn description_part(issue: IssueSummary) -> Lines {
    match issue.description {
        Some(d) => seq![one(SegmentStyle::Heading, "Description:"@), seq![]] + description_lines(
            lines_from(d@, 0),
            0,
            false,
        ) + seq![seq![]],
        None => seq![],
    }
}

/// The labels, comma separated, when there are any.
pub open spec fn labels_part(issue: IssueSummary) -> Lines {
    if issue.labels@.len() > 0 {
        seq![field_line("Labels: "@, joined(strings_text(issue.labels@), ", "@))]
    } else {
        seq![]
    }
}

/// The comments under their heading, when there are any.
pub open spec fn comments_part(issue: IssueSummary) -> Lines {
    if issue.comments@.len() > 0 {
        seq![seq![], one(SegmentStyle::Heading, "Comments:"@), seq![]] + comments_lines(issue.comments@)
    } else {
        seq![]
    }
}

/// The lines of the detail pane for an issue: status, type and priority; the
/// assignee, story points, epic and parent when set; the description; the labels; and the
/// comments.
pub open spec fn content_of(issue: IssueSummary) -> Lines {
    header_part(issue) + fields_part(issue) + description_part(issue) + labels_part(issue) + comments_part(
        issue,
    )
}

/// 1 when `b` holds, else 0.
pub open spec fn count_if(b: bool) -> int {
    if b {
        1
    } else {
        0
    }
}

/// The field lines of the detail pane: after the status line and a blank line
/// come, in this order and each only when set, "Assignee: <assignee>",
/// "Story Points: <points>", "Epic: <epic>" and "Parent: <parent key>", then a
/// blank line. In particular an issue with a parent always shows its parent.
pub proof fn lemma_detail_field_lines(issue: IssueSummary)
    ensures
        ({
            let lines = content_of(issue);
            let a = count_if(issue.assignee@.len() > 0);
            let s = count_if(issue.story_points is Some);
            let e = count_if(issue.epic is Some);
            let p = count_if(issue.parent_key is Some);
            &&& lines.len() > 2 + a + s + e + p
            &&& lines[1] == Seq::<(SegmentStyle, Seq<char>)>::empty()
            &&& issue.assignee@.len() > 0 ==> lines[2] == field_line("Assignee: "@, issue.assignee@)
            &&& issue.story_points matches Some(sp) ==> lines[2 + a] == field_line("Story Points: "@, sp@)
            &&& issue.epic matches Some(ep) ==> lines[2 + a + s] == field_line("Epic: "@, ep@)
            &&& issue.parent_key matches Some(pk) ==> lines[2 + a + s + e] == field_line("Parent: "@, pk@)
            &&& lines[2 + a + s + e + p] == Seq::<(SegmentStyle, Seq<char>)>::empty()
        }),
        issue.parent_key matches Some(pk) ==> exists|i: int|
            0 <= i < content_of(issue).len() && content_of(issue)[i] == field_line("Parent: "@, pk@),
{
    let lines = content_of(issue);
    let a = count_if(issue.assignee@.len() > 0);
    let s = count_if(issue.story_points is Some);
    let e = count_if(issue.epic is Some);
    let p = count_if(issue.parent_key is Some);
    let hp = header_part(issue);
    let fp = fields_part(issue);
    let rest = description_part(issue) + labels_part(issue) + comments_part(issue);
    assert(lines =~= hp + fp + rest);
    assert(hp.len() == 2);
    assert(fp.len() == a + s + e + p + 1);
    assert forall|k: int| 0 <= k < fp.len() implies lines[2 + k] == #[trigger] fp[k] by {
        assert((hp + fp + rest)[2 + k] == fp[k]);
    }
    assert(lines[1] == hp[1]);
    if issue.parent_key is Some {
        assert(lines[2 + a + s + e] == fp[a + s + e]);
    }
}

/// Lays out the issue detail pane; drawing belongs to the terminal front end.
pub struct IssueDetailView;

impl IssueDetailView {
    /// The lines of the detail pane for `issue` (see `content_of`).
    pub fn build_content_lines(issue: &IssueSummary) -> (r: Vec<ContentLine>)
        ensures
            lines_view(r@) == content_of(*issue),
    {
        let mut out: Vec<ContentLine> = Vec::new();
        push_header(&mut out, issue);
        push_fields(&mut out, issue);
        push_description_part(&mut out, issue);
        push_labels(&mut out, issue);
        push_comments_part(&mut out, issue);
        assert(lines_view(out@) =~= content_of(*issue));
        out
    }

    /// The lines of the transition picker: the error loading transitions, a note
    /// that there are none, or one line per transition, "> " marking the
    /// highlighted one.
    pub fn transition_lines(state: &IssueDetailState) -> (r: Vec<String>)
        ensures
            strings_text(r@) == match state.model().transition_error {
                Some(e) => seq![e],
                None => if state.model().transitions.len() == 0 {
                    seq!["No transitions are available"@]
                } else {
                    Seq::new(
                        state.model().transitions.len(),
                        |i: int|
                            (if i == state.model().transition_selected {
                                "> "@
                            } else {
                                "  "@
                            }) + state.model().transitions[i].name@ + " → "@
                                + state.model().transitions[i].to_status@,
                    )
                },
            },
    {
        match state.transition_error() {
            Some(e) => {
                let r = vec![String::from_str(e)];
                assert(strings_text(r@) =~= seq![state.model().transition_error->0]);
                r
            },
            None => {
                let ts = state.transitions();
                if ts.len() == 0 {
                    let r = vec![String::from_str("No transitions are available")];
                    assert(strings_text(r@) =~= seq!["No transitions are available"@]);
                    return r;
                }
                let selected = state.transition_selected();
                let mut out: Vec<String> = Vec::new();
                let mut i: usize = 0;
                while i < ts.len()
                    invariant
                        i <= ts@.len(),
                        out@.len() == i,
                        forall|j: int|
                            0 <= j < i ==> (#[trigger] out@[j])@ == (if j == selected {
                                "> "@
                            } else {
                                "  "@
                            }) + ts@[j].name@ + " → "@ + ts@[j].to_status@,
                    decreases ts@.len() - i,
                {
                    let mut line = if i == selected { String::from_str("> ") } else { String::from_str("  ") };
                    line.append(ts[i].name.as_str());
                    line.append(" → ");
                    line.append(ts[i].to_status.as_str());
                    out.push(line);
                    i += 1;
                }
                assert(strings_text(out@) =~= Seq::new(
                    ts@.len(),
                    |i: int|
                        (if i == selected {
                            "> "@
                        } else {
                            "  "@
                        }) + ts@[i].name@ + " → "@ + ts@[i].to_status@,
                ));
                out
            },
        }
    }
}

/// Appends `header_part`.
fn push_header(out: &mut Vec<ContentLine>, issue: &IssueSummary)
    ensures
        lines_view(final(out)@) == lines_view(old(out)@) + header_part(*issue),
{
    let ghost start = lines_view(out@);
    let header = vec![
        seg(SegmentStyle::Label, String::from_str("Status: ")),
        seg(SegmentStyle::Plain, issue.status.clone()),
        seg(SegmentStyle::Plain, String::from_str("  ")),
        seg(SegmentStyle::Label, String::from_str("Type: ")),
        seg(SegmentStyle::Plain, issue.issue_type.clone()),
        seg(SegmentStyle::Plain, String::from_str("  ")),
        seg(SegmentStyle::Label, String::from_str("Priority: ")),
        seg(SegmentStyle::Plain, issue.priority.clone()),
    ];
    assert(header@.map_values(|s: Segment| s@) =~= header_part(*issue)[0]);
    push_line(out, header);
    push_blank(out);
    assert(lines_view(out@) =~= start + header_part(*issue));
}

/// Appends `fields_part`.
fn push_fields(out: &mut Vec<ContentLine>, issue: &IssueSummary)
    ensures
        lines_view(final(out)@) == lines_view(old(out)@) + fields_part(*issue),
{
    let ghost start = lines_view(out@);
    if !issue.assignee.as_str().is_empty() {
        push_field(out, "Assignee: ", issue.assignee.clone());
    }
    let ghost a0 = lines_view(out@);
    match &issue.story_points {
        Some(p) => push_field(out, "Story Points: ", p.clone()),
        None => {},
    }
    let ghost a = lines_view(out@);
    match &issue.epic {
        Some(e) => push_field(out, "Epic: ", e.clone()),
        None => {},
    }
    let ghost b = lines_view(out@);
    match &issue.parent_key {
        Some(p) => push_field(out, "Parent: ", p.clone()),
        None => {},
    }
    let ghost c = lines_view(out@);
    push_blank(out);
    proof {
        let pa = assignee_part(*issue);
        let ps = story_points_part(*issue);
        let pe = epic_part(*issue);
        let pp = parent_part(*issue);
        assert(a0 =~= start + pa);
        assert(a =~= start + pa + ps);
        assert(b =~= start + pa + ps + pe);
        assert(c =~= start + pa + ps + pe + pp);
        assert(lines_view(out@) =~= start + (pa + ps + pe + pp + seq![seq![]]));
    }
}

/// Appends `description_part`.
fn push_description_part(out: &mut Vec<ContentLine>, issue: &IssueSummary)
    ensures
        lines_view(final(out)@) == lines_view(old(out)@) + description_part(*issue),
{
    let ghost start = lines_view(out@);
    match &issue.description {
        Some(d) => {
            let heading = vec![seg(SegmentStyle::Heading, String::from_str("Description:"))];
            assert(heading@.map_values(|s: Segment| s@) =~= one(SegmentStyle::Heading, "Description:"@));
            push_line(out, heading);
            push_blank(out);
            let ghost mid = lines_view(out@);
            let ls = split_lines(d.as_str());
            push_description(out, ls.as_slice());
            let ghost body = lines_view(out@);
            push_blank(out);
            proof {
                let dl = description_lines(lines_from(d@, 0), 0, false);
                assert(mid =~= start + seq![one(SegmentStyle::Heading, "Description:"@), seq![]]);
                assert(body =~= mid + dl);
                assert(lines_view(out@) =~= start + (seq![one(SegmentStyle::Heading, "Description:"@), seq![]] + dl
                    + seq![seq![]]));
            }
        },
        None => {
            assert(lines_view(out@) =~= start + description_part(*issue));
        },
    }
}

/// Appends `labels_part`.
fn push_labels(out: &mut Vec<ContentLine>, issue: &IssueSummary)
    ensures
        lines_view(final(out)@) == lines_view(old(out)@) + labels_part(*issue),
{
    let ghost start = lines_view(out@);
    if issue.labels.len() > 0 {
        let text = join_strings(issue.labels.as_slice(), ", ");
        push_field(out, "Labels: ", text);
    }
    assert(lines_view(out@) =~= start + labels_part(*issue));
}

/// Appends `comments_part`.
fn push_comments_part(out: &mut Vec<ContentLine>, issue: &IssueSummary)
    ensures
        lines_view(final(out)@) == lines_view(old(out)@) + comments_part(*issue),
{
    let ghost start = lines_view(out@);
    if issue.comments.len() > 0 {
        push_blank(out);
        let heading = vec![seg(SegmentStyle::Heading, String::from_str("Comments:"))];
        assert(heading@.map_values(|s: Segment| s@) =~= one(SegmentStyle::Heading, "Comments:"@));
        push_line(out, heading);
        push_blank(out);
        let ghost mid = lines_view(out@);
        push_comments(out, issue.comments.as_slice());
        proof {
            assert(mid =~= start + seq![seq![], one(SegmentStyle::Heading, "Comments:"@), seq![]]);
            assert(lines_view(out@) =~= start + (seq![seq![], one(SegmentStyle::Heading, "Comments:"@), seq![]]
                + comments_lines(issue.comments@)));
        }
    } else {
        assert(lines_view(out@) =~= start + comments_part(*issue));
    }
}

/// Appends a blank line.
pub(crate) fn push_blank(out: &mut Vec<ContentLine>)
    ensures
        lines_view(final(out)@) == lines_view(old(out)@).push(seq![]),
{
    let blank: Vec<Segment> = Vec::new();
    assert(blank@.map_values(|s: Segment| s@) =~= seq![]);
    push_line(out, blank);
}

/// A segment.
pub(crate) fn seg(style: SegmentStyle, text: String) -> (r: Segment)
    ensures
        r@ == (style, text@),
{
    Segment { style, text }
}

/// Appends a line made of `segments`.
pub(crate) fn push_line(out: &mut Vec<ContentLine>, segments: Vec<Segment>)
    ensures
        lines_view(final(out)@) == lines_view(old(out)@).push(segments@.map_values(|s: Segment| s@)),
{
    let ghost before = out@;
    out.push(ContentLine { segments });
    assert(lines_view(out@) =~= lines_view(before).push(segments@.map_values(|s: Segment| s@)));
}

/// Appends a line "<label><value>".
fn push_field(out: &mut Vec<ContentLine>, label: &str, value: String)
    ensures
        lines_view(final(out)@) == lines_view(old(out)@).push(field_line(label@, value@)),
{
    let segments = vec![seg(SegmentStyle::Label, String::from_str(label)), seg(SegmentStyle::Plain, value)];
    assert(segments@.map_values(|s: Segment| s@) =~= field_line(label@, value@));
    push_line(out, segments);
}

/// Whether `s` begins with `p`.
fn begins_with_text(s: &str, p: &str) -> (r: bool)
    ensures
        r == begins_with(s@, p@),
{
    let cs = chars_of(s);
    let ps = chars_of(p);
    if cs.len() < ps.len() {
        return false;
    }
    let mut i: usize = 0;
    while i < ps.len()
        invariant
            i <= ps@.len() <= cs@.len(),
            cs@ == s@,
            ps@ == p@,
            forall|j: int| 0 <= j < i ==> cs@[j] == ps@[j],
        decreases ps@.len() - i,
    {
        if cs[i] != ps[i] {
            assert(cs@.take(ps@.len() as int)[i as int] != ps@[i as int]);
            return false;
        }
        i += 1;
    }
    assert(cs@.take(ps@.len() as int) =~= ps@);
    true
}

/// The lines of `s`, as `str::lines` splits them (see `lines_from`).
pub fn split_lines(s: &str) -> (r: Vec<String>)
    ensures
        strings_text(r@) == lines_from(s@, 0),
{
    let cs = chars_of(s);
    let n = cs.len();
    let mut out: Vec<String> = Vec::new();
    let mut pos: usize = 0;
    while pos < n
        invariant
            pos <= n,
            n == cs@.len(),
            cs@ == s@,
            strings_text(out@) + lines_from(cs@, pos as nat) == lines_from(cs@, 0),
        decreases n - pos,
    {
        let mut k: usize = pos;
        while k < n && cs[k] != '\n'
            invariant
                pos <= k <= n,
                n == cs@.len(),
                index_of_from(cs@, '\n', pos as nat) == index_of_from(cs@, '\n', k as nat),
            decreases n - k,
        {
            k += 1;
        }
        let ghost before = out@;
        if k >= n {
            out.push(string_of(vstd::slice::slice_subrange(cs.as_slice(), pos, n)));
            proof {
                assert(strings_text(out@) =~= strings_text(before) + lines_from(cs@, pos as nat));
                assert(lines_from(cs@, n as nat) =~= seq![]);
            }
            pos = n;
        } else {
            let end = if k > pos && cs[k - 1] == '\r' { k - 1 } else { k };
            out.push(string_of(vstd::slice::slice_subrange(cs.as_slice(), pos, end)));
            proof {
                let line = cs@.subrange(pos as int, k as int);
                assert(strip_cr(line) =~= cs@.subrange(pos as int, end as int));
                assert(strings_text(out@) =~= strings_text(before).push(strip_cr(line)));
                assert(lines_from(cs@, pos as nat) =~= seq![strip_cr(line)] + lines_from(cs@, (k + 1) as nat));
            }
            pos = k + 1;
        }
    }
    proof {
        assert(strings_text(out@) =~= strings_text(out@) + lines_from(cs@, pos as nat));
    }
    out
}

/// The description line `l`, given whether a code block is open, and whether
/// it is a fence.
fn description_line(l: &str, in_code: bool) -> (r: (ContentLine, bool))
    ensures
        r.1 == begins_with(trimmed(l@), "```"@),
        seq![r.0@] + description_lines(seq![l@], 1, if r.1 { !in_code } else { in_code }) == description_lines(
            seq![l@],
            0,
            in_code,
        ),
{
    let t = trim(l);
    let fence = begins_with_text(t.as_str(), "```");
    let line = if fence {
        ContentLine { segments: vec![seg(SegmentStyle::CodeFence, String::from_str(l))] }
    } else if in_code {
        let mut text = String::from_str("  ");
        text.append(l);
        ContentLine { segments: vec![seg(SegmentStyle::Code, text)] }
    } else if begins_with_text(t.as_str(), "# ") {
        ContentLine { segments: vec![seg(SegmentStyle::Heading1, String::from_str(l))] }
    } else if begins_with_text(t.as_str(), "## ") {
        ContentLine { segments: vec![seg(SegmentStyle::Heading2, String::from_str(l))] }
    } else if begins_with_text(t.as_str(), "* ") || begins_with_text(t.as_str(), "- ") {
        ContentLine { segments: vec![seg(SegmentStyle::ListItem, String::from_str(l))] }
    } else {
        ContentLine { segments: vec![seg(SegmentStyle::Plain, String::from_str(l))] }
    };
    proof {
        let ls = seq![l@];
        assert(description_lines(ls, 1, true) =~= seq![]);
        assert(description_lines(ls, 1, false) =~= seq![]);
        assert(line@ =~= description_lines(ls, 0, in_code)[0]);
    }
    (line, fence)
}

/// Appends the description's lines (see `description_lines`).
fn push_description(out: &mut Vec<ContentLine>, ls: &[String])
    ensures
        lines_view(final(out)@) == lines_view(old(out)@) + description_lines(strings_text(ls@), 0, false),
{
    let ghost texts = strings_text(ls@);
    let ghost start = lines_view(out@);
    let mut in_code = false;
    let mut i: usize = 0;
    assert(start + description_lines(texts, 0, false) =~= lines_view(out@) + description_lines(texts, 0, false));
    while i < ls.len()
        invariant
            i <= ls@.len(),
            texts == strings_text(ls@),
            lines_view(out@) + description_lines(texts, i as nat, in_code) == start + description_lines(
                texts,
                0,
                false,
            ),
        decreases ls@.len() - i,
    {
        let ghost before = lines_view(out@);
        let (line, fence) = description_line(ls[i].as_str(), in_code);
        proof {
            lemma_description_step(texts, i as nat, in_code, line@, fence);
        }
        out.push(line);
        if fence {
            in_code = !in_code;
        }
        proof {
            assert(lines_view(out@) =~= before.push(line@));
            assert(before.push(line@) + description_lines(texts, (i + 1) as nat, in_code) =~= before + (seq![line@]
                + description_lines(texts, (i + 1) as nat, in_code)));
        }
        i += 1;
    }
    proof {
        assert(lines_view(out@) + description_lines(texts, i as nat, in_code) =~= lines_view(out@));
    }
}

/// One step of `description_lines`, as computed on a single line.
proof fn lemma_description_step(
    ls: Seq<Seq<char>>,
    i: nat,
    in_code: bool,
    line: Seq<(SegmentStyle, Seq<char>)>,
    fence: bool,
)
    requires
        i < ls.len(),
        fence == begins_with(trimmed(ls[i as int]), "```"@),
        seq![line] + description_lines(seq![ls[i as int]], 1, if fence { !in_code } else { in_code })
            == description_lines(seq![ls[i as int]], 0, in_code),
    ensures
        description_lines(ls, i, in_code) == seq![line] + description_lines(
            ls,
            i + 1,
            if fence {
                !in_code
            } else {
                in_code
            },
        ),
{
    let single = seq![ls[i as int]];
    assert(description_lines(single, 1, true) =~= seq![]);
    assert(description_lines(single, 1, false) =~= seq![]);
    assert(description_lines(single, 0, in_code)[0] == line);
}

/// The comment body line `l`, given whether a code block is open, and whether
/// it is a fence.
fn body_line(l: &str, in_code: bool) -> (r: (ContentLine, bool))
    ensures
        r.1 == begins_with(trimmed(l@), "```"@),
        r.0@ == body_lines(seq![l@], 0, in_code)[0],
{
    let t = trim(l);
    let fence = begins_with_text(t.as_str(), "```");
    let line = if fence {
        let mut text = String::from_str("  ");
        text.append(l);
        ContentLine { segments: vec![seg(SegmentStyle::CodeFence, text)] }
    } else if in_code {
        let mut text = String::from_str("    ");
        text.append(l);
        ContentLine { segments: vec![seg(SegmentStyle::Code, text)] }
    } else {
        let mut text = String::from_str("  ");
        text.append(l);
        ContentLine { segments: vec![seg(SegmentStyle::Plain, text)] }
    };
    proof {
        assert(line@ =~= body_lines(seq![l@], 0, in_code)[0]);
    }
    (line, fence)
}

/// Appends a comment body's lines (see `body_lines`).
fn push_body(out: &mut Vec<ContentLine>, ls: &[String])
    ensures
        lines_view(final(out)@) == lines_view(old(out)@) + body_lines(strings_text(ls@), 0, false),
{
    let ghost texts = strings_text(ls@);
    let ghost start = lines_view(out@);
    let mut in_code = false;
    let mut i: usize = 0;
    while i < ls.len()
        invariant
            i <= ls@.len(),
            texts == strings_text(ls@),
            lines_view(out@) + body_lines(texts, i as nat, in_code) == start + body_lines(texts, 0, false),
        decreases ls@.len() - i,
    {
        let ghost before = lines_view(out@);
        let (line, fence) = body_line(ls[i].as_str(), in_code);
        proof {
            let single = seq![texts[i as int]];
            assert(single =~= seq![ls@[i as int]@]);
            assert(body_lines(texts, i as nat, in_code)[0] == body_lines(single, 0, in_code)[0]);
            assert(body_lines(texts, i as nat, in_code) =~= seq![line@] + body_lines(
                texts,
                (i + 1) as nat,
                if fence {
                    !in_code
                } else {
                    in_code
                },
            ));
        }
        out.push(line);
        if fence {
            in_code = !in_code;
        }
        proof {
            assert(lines_view(out@) =~= before.push(line@));
            assert(before.push(line@) + body_lines(texts, (i + 1) as nat, in_code) =~= before + (seq![line@]
                + body_lines(texts, (i + 1) as nat, in_code)));
        }
        i += 1;
    }
    proof {
        assert(lines_view(out@) + body_lines(texts, i as nat, in_code) =~= lines_view(out@));
    }
}

/// Appends the lines of each comment, in order (see `comments_lines`).
fn push_comments(out: &mut Vec<ContentLine>, cs: &[IssueComment])
    ensures
        lines_view(final(out)@) == lines_view(old(out)@) + comments_lines(cs@),
{
    let ghost start = lines_view(out@);
    let mut i: usize = 0;
    assert(comments_lines(cs@.take(0)) =~= seq![]);
    assert(start =~= start + comments_lines(cs@.take(0)));
    while i < cs.len()
        invariant
            i <= cs@.len(),
            lines_view(out@) == start + comments_lines(cs@.take(i as int)),
        decreases cs@.len() - i,
    {
        let c = &cs[i];
        let ghost before = lines_view(out@);
        let date = match &c.created_at {
            Some(d) => d.clone(),
            None => String::from_str("Unknown"),
        };
        let author = vec![
            seg(SegmentStyle::Author(author_color(c.author.as_str())), c.author.clone()),
            seg(SegmentStyle::Plain, String::from_str(" - ")),
            seg(SegmentStyle::Plain, date),
        ];
        let ghost author_v = seq![
            (SegmentStyle::Author(author_palette_index(c.author@) as u8), c.author@),
            (SegmentStyle::Plain, " - "@),
            (SegmentStyle::Plain, created_text(*c)),
        ];
        assert(author@.map_values(|s: Segment| s@) =~= author_v);
        push_line(out, author);
        let ghost after_author = lines_view(out@);
        let ls = split_lines(c.body.as_str());
        push_body(out, ls.as_slice());
        let ghost after_body = lines_view(out@);
        let blank: Vec<Segment> = Vec::new();
        assert(blank@.map_values(|s: Segment| s@) =~= seq![]);
        push_line(out, blank);
        proof {
            assert(after_author =~= before.push(author_v));
            assert(after_body =~= before.push(author_v) + body_lines(lines_from(c.body@, 0), 0, false));
            assert(comment_block(*c) =~= seq![author_v] + body_lines(lines_from(c.body@, 0), 0, false) + seq![seq![]]);
            assert(cs@.take(i + 1).drop_last() =~= cs@.take(i as int));
            assert(cs@.take(i + 1).last() == *c);
            assert(lines_view(out@) =~= before + comment_block(*c));
            assert(start + comments_lines(cs@.take(i + 1)) =~= start + comments_lines(cs@.take(i as int))
                + comment_block(*c));
        }
        i += 1;
    }
    assert(cs@.take(cs@.len() as int) =~= cs@);
}

/// The strings joined with `sep` between them.
pub(crate) fn join_strings(items: &[String], sep: &str) -> (r: String)
    ensures
        r@ == joined(strings_text(items@), sep@),
{
    let mut out = String::new();
    let mut i: usize = 0;
    while i < items.len()
        invariant
            i <= items@.len(),
            out@ == joined(strings_text(items@.take(i as int)), sep@),
        decreases items@.len() - i,
    {
        proof {
            let t = strings_text(items@.take(i + 1));
            assert(t.drop_last() =~= strings_text(items@.take(i as int)));
            assert(t.last() == items@[i as int]@);
        }
        if i > 0 {
            out.append(sep);
        }
        out.append(items[i].as_str());
        proof {
            if i == 0 {
                assert(strings_text(items@.take(1)) =~= seq![items@[0]@]);
            }
        }
        i += 1;
    }
    assert(items@.take(items@.len() as int) =~= items@);
    out
}

} // verus!
