//! The rows of the dashboard: what one row says, and the ordered rows that a
//! pull request's record is shown as.

use vstd::prelude::*;
use vstd::string::*;
use crate::models::{CheckView, File, FileView, PrInfo};
use crate::palette::{Palette, PaletteView};
use crate::prinfo::{PrView, file_views};
use crate::text::{decimal, decimal_string};

verus! {

/// What one row of the dashboard is to say: the key that names the row from
/// frame to frame, its label and value, the template that lays them out, the
/// characters of its spinner and its indentation.
#[derive(Debug, Clone, PartialEq, Eq)]
pub struct Pb {
    pub key: String,
    pub prefix: String,
    pub message: String,
    pub template: String,
    pub tick_chars: String,
    pub indent: usize,
}

/// A row description as sequences of characters.
pub ghost struct PbView {
    pub key: Seq<char>,
    pub prefix: Seq<char>,
    pub message: Seq<char>,
    pub template: Seq<char>,
    pub tick_chars: Seq<char>,
    pub indent: nat,
}

impl View for Pb {
    type V = PbView;

    open spec fn view(&self) -> PbView {
        PbView {
            key: self.key@,
            prefix: self.prefix@,
            message: self.message@,
            template: self.template@,
            tick_chars: self.tick_chars@,
            indent: self.indent as nat,
        }
    }
}

/// What each row description of a list holds.
pub open spec fn views(rows: Seq<Pb>) -> Seq<PbView> {
    rows.map_values(|row: Pb| row@)
}

/// The template of a row that opens with `mark` and shows label and value in
/// bold.
pub open spec fn titled_template(mark: Seq<char>) -> Seq<char> {
    mark + " {prefix:.white.bold}{msg:.white.bold}"@
}

/// The template of a file's row: the path in a column `width` wide, then the
/// counts.
pub open spec fn file_template(palette: PaletteView, width: nat) -> Seq<char> {
    "  "@ + palette.arrow + " {prefix:"@ + decimal(width) + "} "@ + palette.bar + " {msg}"@
}

/// The template of a check's row: the label, a spinner while the outcome is
/// open, and the name.
pub open spec fn check_template(terminal: bool) -> Seq<char> {
    "{msg}"@ + (if terminal {
        " "@
    } else {
        " {spinner} "@
    }) + "{prefix:.bold.dim}"@
}

/// The length of `text` in bytes of UTF-8.
pub open spec fn byte_len(text: Seq<char>) -> nat {
    vstd::utf8::encode_utf8(text).len()
}

/// The length in bytes of the longest path among `files`, zero where there is
/// no file.
pub open spec fn longest_path(files: Seq<FileView>) -> nat
    decreases files.len(),
{
    if files.len() == 0 {
        0
    } else {
        let rest = longest_path(files.drop_last());
        if byte_len(files.last().path) > rest {
            byte_len(files.last().path)
        } else {
            rest
        }
    }
}

impl PbView {
    /// The row named `key` that says nothing yet.
    pub open spec fn blank(key: Seq<char>) -> PbView {
        PbView {
            key,
            prefix: Seq::empty(),
            message: Seq::empty(),
            template: Seq::empty(),
            tick_chars: Seq::empty(),
            indent: 0,
        }
    }

    /// The row named `key` and labelled with its key, showing `message`.
    pub open spec fn labeled(key: Seq<char>, message: Seq<char>) -> PbView {
        PbView { prefix: key, message, ..PbView::blank(key) }
    }

    /// The row that opens the dashboard, named `key` and labelled with it.
    pub open spec fn header(key: Seq<char>, palette: PaletteView) -> PbView {
        PbView { template: titled_template(palette.header_mark), ..PbView::labeled(key, Seq::empty()) }
    }

    /// The row that opens a section, named `key` and labelled with it.
    pub open spec fn section(key: Seq<char>, palette: PaletteView) -> PbView {
        PbView {
            template: titled_template(palette.section_mark),
            ..PbView::labeled(key, Seq::empty())
        }
    }
}

/// The row of the title: `#`, the number, ` - ` and the title.
pub open spec fn title_row(pr: PrView, palette: PaletteView) -> PbView {
    PbView { prefix: "#"@ + decimal(pr.number) + " - "@ + pr.title, ..PbView::header("header"@, palette) }
}

/// The row of the address, indented.
pub open spec fn address_row(pr: PrView) -> PbView {
    PbView { template: "> {msg}"@, indent: 4, ..PbView::labeled("url"@, pr.url) }
}

/// The row of the body text, which has no label.
pub open spec fn body_row(pr: PrView) -> PbView {
    PbView { message: pr.body, ..PbView::blank("_body"@) }
}

/// The row of one file: named and labelled by its path, showing the added and
/// the deleted lines.
pub open spec fn file_row(file: FileView, width: nat, palette: PaletteView) -> PbView {
    PbView {
        template: file_template(palette, width),
        ..PbView::labeled(
            file.path,
            decimal(file.additions) + palette.plus + decimal(file.deletions) + palette.minus,
        )
    }
}

/// The row of one check: named and labelled by its name, showing its short
/// label in square brackets.
pub open spec fn check_row(check: CheckView, palette: PaletteView) -> PbView {
    PbView {
        template: check_template(check.terminal),
        ..PbView::labeled(check.name, "["@ + palette.label(check.label) + "]"@)
    }
}

/// The rows that open every frame: title, address, and the body under its
/// heading.
pub open spec fn head_rows(pr: PrView, palette: PaletteView) -> Seq<PbView> {
    seq![
        title_row(pr, palette),
        address_row(pr),
        PbView::section("body"@, palette),
        body_row(pr),
    ]
}

/// The files under their heading, one row each in the record's order, all
/// with a path column as wide as the longest path; nothing where the record
/// has no files.
pub open spec fn file_rows(pr: PrView, palette: PaletteView) -> Seq<PbView> {
    if pr.files.len() == 0 {
        Seq::empty()
    } else {
        seq![PbView::section("files"@, palette)] + Seq::new(
            pr.files.len(),
            |i: int| file_row(pr.files[i], longest_path(pr.files), palette),
        )
    }
}

/// The details under their heading: state, author, the two dates, the head
/// commit and the address.
pub open spec fn detail_rows(pr: PrView, palette: PaletteView) -> Seq<PbView> {
    seq![
        PbView::section("details"@, palette),
        PbView::labeled("state"@, pr.state),
        PbView::labeled("author"@, pr.author),
        PbView::labeled("createdAt"@, pr.created_at),
        PbView::labeled("updatedAt"@, pr.updated_at),
        PbView::labeled("sha"@, pr.sha),
        PbView::labeled("url"@, pr.url),
    ]
}

/// The checks under their heading, one row each in the record's order;
/// nothing where the record has no checks.
pub open spec fn check_rows(pr: PrView, palette: PaletteView) -> Seq<PbView> {
    if pr.checks.len() == 0 {
        Seq::empty()
    } else {
        seq![PbView::section("checks"@, palette)] + Seq::new(
            pr.checks.len(),
            |i: int| check_row(pr.checks[i], palette),
        )
    }
}

/// The rows that a record is shown as, in their fixed order.
pub open spec fn rows_of(pr: PrView, palette: PaletteView) -> Seq<PbView> {
    head_rows(pr, palette) + file_rows(pr, palette) + detail_rows(pr, palette) + check_rows(
        pr,
        palette,
    )
}

impl Pb {
    /// A copy of the row description.
    fn copy(&self) -> (out: Pb)
        ensures
            out@ == self@,
    {
        Pb {
            key: self.key.clone(),
            prefix: self.prefix.clone(),
            message: self.message.clone(),
            template: self.template.clone(),
            tick_chars: self.tick_chars.clone(),
            indent: self.indent,
        }
    }

    /// The row named `key` that says nothing yet.
    pub fn new(key: &str) -> (out: Pb)
        ensures
            out@ == PbView::blank(key@),
    {
        Pb {
            key: String::from_str(key),
            prefix: String::new(),
            message: String::new(),
            template: String::new(),
            tick_chars: String::new(),
            indent: 0,
        }
    }

    /// The row named `key` and labelled with its key.
    pub fn new_with_pkey(key: &str) -> (out: Pb)
        ensures
            out@ == PbView::labeled(key@, Seq::empty()),
    {
        Pb::new(key).with_prefix(key)
    }

    /// The row named `key` and labelled with its key, showing `message`.
    pub fn new_with_pkey_and_message(key: &str, message: &str) -> (out: Pb)
        ensures
            out@ == PbView::labeled(key@, message@),
    {
        Pb::new(key).with_prefix(key).with_message(message)
    }

    /// The row that opens the dashboard, named `key` and labelled with it.
    pub fn new_header(key: &str, palette: &Palette) -> (out: Pb)
        ensures
            out@ == PbView::header(key@, palette@),
    {
        Pb::new_with_pkey(key).as_header(palette)
    }

    /// The row that opens a section, named `key` and labelled with it.
    pub fn new_section(key: &str, palette: &Palette) -> (out: Pb)
        ensures
            out@ == PbView::section(key@, palette@),
    {
        Pb::new_with_pkey(key).as_section(palette)
    }

    /// Sets the label, and hands the row out.
    pub fn with_prefix(&mut self, prefix: &str) -> (out: Pb)
        ensures
            final(self)@ == (PbView { prefix: prefix@, ..old(self)@ }),
            out@ == final(self)@,
    {
        self.prefix = String::from_str(prefix);
        self.copy()
    }

    /// Sets the value, and hands the row out.
    pub fn with_message(&mut self, message: &str) -> (out: Pb)
        ensures
            final(self)@ == (PbView { message: message@, ..old(self)@ }),
            out@ == final(self)@,
    {
        self.message = String::from_str(message);
        self.copy()
    }

    /// Sets the template, and hands the row out.
    pub fn with_template(&mut self, template: &str) -> (out: Pb)
        ensures
            final(self)@ == (PbView { template: template@, ..old(self)@ }),
            out@ == final(self)@,
    {
        self.template = String::from_str(template);
        self.copy()
    }

    /// Sets the characters of the spinner, and hands the row out.
    pub fn with_tick_chars(&mut self, tick_chars: &str) -> (out: Pb)
        ensures
            final(self)@ == (PbView { tick_chars: tick_chars@, ..old(self)@ }),
            out@ == final(self)@,
    {
        self.tick_chars = String::from_str(tick_chars);
        self.copy()
    }

    /// Sets the indentation, and hands the row out.
    pub fn with_indent(&mut self, indent: usize) -> (out: Pb)
        ensures
            final(self)@ == (PbView { indent: indent as nat, ..old(self)@ }),
            out@ == final(self)@,
    {
        self.indent = indent;
        self.copy()
    }

    /// Gives the row the template of the header, and hands it out.
    pub fn as_header(&mut self, palette: &Palette) -> (out: Pb)
        ensures
            final(self)@ == (PbView {
                template: titled_template(palette@.header_mark),
                ..old(self)@
            }),
            out@ == final(self)@,
    {
        let mut template = palette.header_mark.clone();
        template.append(" {prefix:.white.bold}{msg:.white.bold}");
        self.with_template(template.as_str())
    }

    /// Gives the row the template of a section's heading, and hands it out.
    pub fn as_section(&mut self, palette: &Palette) -> (out: Pb)
        ensures
            final(self)@ == (PbView {
                template: titled_template(palette@.section_mark),
                ..old(self)@
            }),
            out@ == final(self)@,
    {
        let mut template = palette.section_mark.clone();
        template.append(" {prefix:.white.bold}{msg:.white.bold}");
        self.with_template(template.as_str())
    }
}

/// The longest path is at least as long as every path, and where there is a
/// file, one of the paths has exactly that length.
pub proof fn lemma_longest_path_is_max(files: Seq<FileView>)
    ensures
        forall|i: int| 0 <= i < files.len() ==> byte_len(#[trigger] files[i].path) <= longest_path(files),
        files.len() > 0 ==> exists|i: int|
            0 <= i < files.len() && byte_len(#[trigger] files[i].path) == longest_path(files),
    decreases files.len(),
{
    if files.len() > 0 {
        let front = files.drop_last();
        lemma_longest_path_is_max(front);
        assert forall|i: int| 0 <= i < files.len() implies byte_len(#[trigger] files[i].path)
            <= longest_path(files) by {
            if i < front.len() {
                assert(front[i] == files[i]);
            }
        }
        if byte_len(files.last().path) > longest_path(front) {
            assert(byte_len(files[files.len() - 1].path) == longest_path(files));
        } else if front.len() > 0 {
            let i = choose|i: int|
                0 <= i < front.len() && byte_len(#[trigger] front[i].path) == longest_path(front);
            assert(front[i] == files[i]);
            assert(byte_len(files[i].path) == longest_path(files));
        } else {
            assert(byte_len(files[0].path) == longest_path(files));
        }
    }
}

/// The length in bytes of the longest path among `files`, zero where there is
/// no file.
pub fn longest_file_path(files: &Vec<File>) -> (width: usize)
    ensures
        width == longest_path(file_views(files@)),
{
    let mut width: usize = 0;
    let mut i: usize = 0;
    while i < files.len()
        invariant
            i <= files.len(),
            width == longest_path(file_views(files@).take(i as int)),
        decreases files.len() - i,
    {
        let ghost seen = file_views(files@).take(i + 1);
        assert(seen.drop_last() =~= file_views(files@).take(i as int));
        assert(seen.last() == files@[i as int]@);
        let len = files[i].path.as_str().as_bytes().len();
        if len > width {
            width = len;
        }
        i = i + 1;
    }
    assert(file_views(files@).take(files.len() as int) =~= file_views(files@));
    width
}

fn head_part(pr: &PrInfo, palette: &Palette) -> (rows: Vec<Pb>)
    ensures
        views(rows@) == head_rows(pr@, palette@),
{
    let mut title = String::from_str("#");
    let number = decimal_string(pr.number as u64);
    title.append(number.as_str());
    title.append(" - ");
    title.append(pr.title.as_str());
    let mut rows: Vec<Pb> = Vec::new();
    rows.push(Pb::new_header("header", palette).with_prefix(title.as_str()));
    rows.push(
        Pb::new_with_pkey_and_message("url", pr.url.as_str()).with_template("> {msg}").with_indent(
            4,
        ),
    );
    rows.push(Pb::new_section("body", palette));
    rows.push(Pb::new("_body").with_message(pr.body.as_str()));
    assert(views(rows@) =~= head_rows(pr@, palette@));
    rows
}

fn file_part(pr: &PrInfo, palette: &Palette) -> (rows: Vec<Pb>)
    ensures
        views(rows@) == file_rows(pr@, palette@),
{
    let mut rows: Vec<Pb> = Vec::new();
    if pr.files.len() == 0 {
        assert(views(rows@) =~= file_rows(pr@, palette@));
        return rows;
    }
    let width = longest_file_path(&pr.files);
    let mut template = String::from_str("  ");
    template.append(palette.arrow.as_str());
    template.append(" {prefix:");
    let column = decimal_string(width as u64);
    template.append(column.as_str());
    template.append("} ");
    template.append(palette.bar.as_str());
    template.append(" {msg}");
    rows.push(Pb::new_section("files", palette));
    let mut i: usize = 0;
    while i < pr.files.len()
        invariant
            i <= pr.files.len(),
            width == longest_path(pr@.files),
            template@ == file_template(palette@, width as nat),
            views(rows@) == seq![PbView::section("files"@, palette@)] + Seq::new(
                i as nat,
                |j: int| file_row(pr@.files[j], longest_path(pr@.files), palette@),
            ),
        decreases pr.files.len() - i,
    {
        let file = &pr.files[i];
        let mut counts = decimal_string(file.additions as u64);
        counts.append(palette.plus.as_str());
        let deleted = decimal_string(file.deletions as u64);
        counts.append(deleted.as_str());
        counts.append(palette.minus.as_str());
        let row = Pb::new_with_pkey_and_message(
            file.path.as_str(),
            counts.as_str(),
        ).with_template(template.as_str());
        assert(row@ == file_row(pr@.files[i as int], longest_path(pr@.files), palette@));
        let ghost before = views(rows@);
        rows.push(row);
        i = i + 1;
        proof {
            let after = seq![PbView::section("files"@, palette@)] + Seq::new(
                i as nat,
                |j: int| file_row(pr@.files[j], longest_path(pr@.files), palette@),
            );
            assert(views(rows@) =~= before.push(row@));
            assert(before.push(row@) =~= after);
        }
    }
    assert(views(rows@) =~= file_rows(pr@, palette@));
    rows
}

fn detail_part(pr: &PrInfo, palette: &Palette) -> (rows: Vec<Pb>)
    ensures
        views(rows@) == detail_rows(pr@, palette@),
{
    let sha = pr.sha();
    let mut rows: Vec<Pb> = Vec::new();
    rows.push(Pb::new_section("details", palette));
    rows.push(Pb::new_with_pkey_and_message("state", pr.state.as_str()));
    rows.push(Pb::new_with_pkey_and_message("author", pr.author.login.as_str()));
    rows.push(Pb::new_with_pkey_and_message("createdAt", pr.created_at.as_str()));
    rows.push(Pb::new_with_pkey_and_message("updatedAt", pr.updated_at.as_str()));
    rows.push(Pb::new_with_pkey_and_message("sha", sha.as_str()));
    rows.push(Pb::new_with_pkey_and_message("url", pr.url.as_str()));
    assert(views(rows@) =~= detail_rows(pr@, palette@));
    rows
}

fn check_part(pr: &PrInfo, palette: &Palette) -> (rows: Vec<Pb>)
    ensures
        views(rows@) == check_rows(pr@, palette@),
{
    let mut rows: Vec<Pb> = Vec::new();
    if pr.status_check_rollup.len() == 0 {
        assert(views(rows@) =~= check_rows(pr@, palette@));
        return rows;
    }
    rows.push(Pb::new_section("checks", palette));
    let mut i: usize = 0;
    while i < pr.status_check_rollup.len()
        invariant
            i <= pr.status_check_rollup.len(),
            views(rows@) == seq![PbView::section("checks"@, palette@)] + Seq::new(
                i as nat,
                |j: int| check_row(pr@.checks[j], palette@),
            ),
        decreases pr.status_check_rollup.len() - i,
    {
        let check = &pr.status_check_rollup[i];
        let spinner = if check.is_complete() {
            " "
        } else {
            " {spinner} "
        };
        let mut template = String::from_str("{msg}");
        template.append(spinner);
        template.append("{prefix:.bold.dim}");
        let mut message = String::from_str("[");
        let label = check.short_status_string_with_color(palette);
        message.append(label.as_str());
        message.append("]");
        let name = check.name();
        let row = Pb::new_with_pkey_and_message(name.as_str(), message.as_str()).with_template(
            template.as_str(),
        );
        assert(row@ == check_row(pr@.checks[i as int], palette@));
        let ghost before = views(rows@);
        rows.push(row);
        i = i + 1;
        proof {
            let after = seq![PbView::section("checks"@, palette@)] + Seq::new(
                i as nat,
                |j: int| check_row(pr@.checks[j], palette@),
            );
            assert(views(rows@) =~= before.push(row@));
            assert(before.push(row@) =~= after);
        }
    }
    assert(views(rows@) =~= check_rows(pr@, palette@));
    rows
}

/// The rows that `pr` is shown as, in their fixed order: the title, the
/// address, the body under its heading; the files under theirs, where there
/// are any; the details; and the checks under their heading, where there are
/// any. The rows depend on the record and the palette alone.
pub fn build_rows(pr: &PrInfo, palette: &Palette) -> (rows: Vec<Pb>)
    ensures
        views(rows@) == rows_of(pr@, palette@),
{
    let mut rows = head_part(pr, palette);
    let mut files = file_part(pr, palette);
    let mut details = detail_part(pr, palette);
    let mut checks = check_part(pr, palette);
    rows.append(&mut files);
    rows.append(&mut details);
    rows.append(&mut checks);
    assert(views(rows@) =~= rows_of(pr@, palette@));
    rows
}

/// Two records that the dashboard reads alike are shown as the same rows, in
/// the same order, whatever else was built before or between.
pub proof fn lemma_rows_depend_on_what_is_read(a: PrInfo, b: PrInfo, palette: Palette)
    requires
        a@ == b@,
    ensures
        rows_of(a@, palette@) == rows_of(b@, palette@),
{
}

} // verus!
