//! The rows that are on the screen. Each key has one row, made when the key
//! is first drawn and updated in place from then on; rows are never moved or
//! taken away.

use vstd::prelude::*;
use vstd::string::*;
use crate::palette::{Palette, PaletteView};
use crate::rows::{Pb, PbView, views};
use crate::text::{repeat, repeated};

verus! {

/// The characters that a spinner runs through, unless a row names its own.
pub const DEFAULT_TICK_CHARS: &'static str =
    "\u{28fe}\u{28fd}\u{28fb}\u{28bf}\u{287f}\u{28df}\u{28ef}\u{28f7}";

/// One row as it stands on the screen.
#[derive(Debug, Clone, PartialEq, Eq)]
pub struct Row {
    pub key: String,
    pub prefix: String,
    pub message: String,
    pub template: String,
    pub tick_chars: String,
}

/// A row on the screen as sequences of characters.
pub ghost struct RowView {
    pub key: Seq<char>,
    pub prefix: Seq<char>,
    pub message: Seq<char>,
    pub template: Seq<char>,
    pub tick_chars: Seq<char>,
}

impl View for Row {
    type V = RowView;

    open spec fn view(&self) -> RowView {
        RowView {
            key: self.key@,
            prefix: self.prefix@,
            message: self.message@,
            template: self.template@,
            tick_chars: self.tick_chars@,
        }
    }
}

impl RowView {
    /// The row named `key` as it is made, before anything is drawn in it.
    pub open spec fn blank(key: Seq<char>) -> RowView {
        RowView {
            key,
            prefix: Seq::empty(),
            message: Seq::empty(),
            template: Seq::empty(),
            tick_chars: Seq::empty(),
        }
    }
}

/// The template of a row that has a label and no template of its own.
pub open spec fn labeled_template(palette: PaletteView) -> Seq<char> {
    "{prefix:10.white} "@ + palette.arrow + " {wide_msg}"@
}

/// The template that a row is drawn with: its own, else the labelled one
/// where it has a label, else the bare value; behind its indentation.
pub open spec fn shown_template(row: PbView, palette: PaletteView) -> Seq<char> {
    repeated(" "@, row.indent) + (if row.template.len() > 0 {
        row.template
    } else if row.prefix.len() > 0 {
        labeled_template(palette)
    } else {
        "{wide_msg}"@
    })
}

/// The spinner that a row is drawn with: its own, else the default one.
pub open spec fn shown_tick_chars(row: PbView) -> Seq<char> {
    if row.tick_chars.len() > 0 {
        row.tick_chars
    } else {
        DEFAULT_TICK_CHARS@
    }
}

/// What drawing changes in a row: each part is either set or left alone.
pub ghost struct Overlay {
    pub prefix: Option<Seq<char>>,
    pub message: Option<Seq<char>>,
    pub template: Option<Seq<char>>,
    pub tick_chars: Option<Seq<char>>,
}

impl Overlay {
    /// Nothing is changed.
    pub open spec fn none() -> Overlay {
        Overlay { prefix: None, message: None, template: None, tick_chars: None }
    }

    /// What drawing one row description changes: label and value where it
    /// has them, template and spinner always.
    pub open spec fn of(row: PbView, palette: PaletteView) -> Overlay {
        Overlay {
            prefix: if row.prefix.len() > 0 {
                Some(row.prefix)
            } else {
                None
            },
            message: if row.message.len() > 0 {
                Some(row.message)
            } else {
                None
            },
            template: Some(shown_template(row, palette)),
            tick_chars: Some(shown_tick_chars(row)),
        }
    }

    /// This change followed by `later`: what `later` sets wins.
    pub open spec fn followed_by(self, later: Overlay) -> Overlay {
        Overlay {
            prefix: if later.prefix is Some {
                later.prefix
            } else {
                self.prefix
            },
            message: if later.message is Some {
                later.message
            } else {
                self.message
            },
            template: if later.template is Some {
                later.template
            } else {
                self.template
            },
            tick_chars: if later.tick_chars is Some {
                later.tick_chars
            } else {
                self.tick_chars
            },
        }
    }

    /// The row after the change. Its key stays.
    pub open spec fn on(self, row: RowView) -> RowView {
        RowView {
            key: row.key,
            prefix: match self.prefix {
                Some(text) => text,
                None => row.prefix,
            },
            message: match self.message {
                Some(text) => text,
                None => row.message,
            },
            template: match self.template {
                Some(text) => text,
                None => row.template,
            },
            tick_chars: match self.tick_chars {
                Some(text) => text,
                None => row.tick_chars,
            },
        }
    }
}

/// No two rows have the same key.
pub open spec fn distinct_keys(rows: Seq<RowView>) -> bool {
    forall|i: int, j: int| 0 <= i < j < rows.len() ==> rows[i].key != rows[j].key
}

/// The place of the first row with `key`, or the number of rows where there
/// is none.
pub open spec fn position(rows: Seq<RowView>, key: Seq<char>) -> nat
    decreases rows.len(),
{
    if rows.len() == 0 {
        0
    } else if rows[0].key == key {
        0
    } else {
        1 + position(rows.drop_first(), key)
    }
}

/// A row with `key` is on the screen.
pub open spec fn has_key(rows: Seq<RowView>, key: Seq<char>) -> bool {
    position(rows, key) < rows.len()
}

/// The screen after one row description is drawn: the row with its key is
/// changed in place, and where there is none, a new row is put below all
/// others and drawn in.
pub open spec fn apply(rows: Seq<RowView>, row: PbView, palette: PaletteView) -> Seq<RowView> {
    let at = position(rows, row.key) as int;
    let base = if at < rows.len() {
        rows
    } else {
        rows.push(RowView::blank(row.key))
    };
    base.update(at, Overlay::of(row, palette).on(base[at]))
}

/// The screen after a frame is drawn, one row description after the other.
pub open spec fn apply_all(rows: Seq<RowView>, frame: Seq<PbView>, palette: PaletteView) -> Seq<
    RowView,
>
    decreases frame.len(),
{
    if frame.len() == 0 {
        rows
    } else {
        apply(apply_all(rows, frame.drop_last(), palette), frame.last(), palette)
    }
}

/// The screen after several frames are drawn in turn.
pub open spec fn apply_frames(
    rows: Seq<RowView>,
    frames: Seq<Seq<PbView>>,
    palette: PaletteView,
) -> Seq<RowView>
    decreases frames.len(),
{
    if frames.len() == 0 {
        rows
    } else {
        apply_all(apply_frames(rows, frames.drop_last(), palette), frames.last(), palette)
    }
}

/// All that a frame changes in the row with `key`, taken together.
pub open spec fn collect(frame: Seq<PbView>, key: Seq<char>, palette: PaletteView) -> Overlay
    decreases frame.len(),
{
    if frame.len() == 0 {
        Overlay::none()
    } else {
        let front = collect(frame.drop_last(), key, palette);
        if frame.last().key == key {
            front.followed_by(Overlay::of(frame.last(), palette))
        } else {
            front
        }
    }
}

/// Where `position` points: at the first row with the key, or behind the last
/// row if no row has it.
pub proof fn lemma_position(rows: Seq<RowView>, key: Seq<char>)
    ensures
        position(rows, key) <= rows.len(),
        has_key(rows, key) ==> rows[position(rows, key) as int].key == key,
        forall|j: int| 0 <= j < position(rows, key) ==> (#[trigger] rows[j]).key != key,
    decreases rows.len(),
{
    if rows.len() > 0 && rows[0].key != key {
        let rest = rows.drop_first();
        lemma_position(rest, key);
        assert forall|j: int| 0 <= j < position(rows, key) implies (#[trigger] rows[j]).key
            != key by {
            if j > 0 {
                assert(rows[j] == rest[j - 1]);
            }
        }
        if has_key(rows, key) {
            assert(rows[position(rows, key) as int] == rest[position(rest, key) as int]);
        }
    }
}

/// A row that has the key is found: `position` points at it or before it, and
/// at it where the keys are distinct.
pub proof fn lemma_position_of_row(rows: Seq<RowView>, key: Seq<char>, at: int)
    requires
        0 <= at < rows.len(),
        rows[at].key == key,
    ensures
        has_key(rows, key),
        position(rows, key) <= at,
        distinct_keys(rows) ==> position(rows, key) == at,
{
    lemma_position(rows, key);
    if position(rows, key) > at {
        assert(rows[at].key != key);
    }
}

/// Drawing one row description changes the row with its key and no other,
/// adds a row only where the key is new, and keeps the keys distinct.
pub proof fn lemma_apply(rows: Seq<RowView>, row: PbView, palette: PaletteView)
    requires
        distinct_keys(rows),
    ensures
        ({
            let at = position(rows, row.key) as int;
            let after = apply(rows, row, palette);
            &&& after.len() == if has_key(rows, row.key) {
                rows.len()
            } else {
                rows.len() + 1
            }
            &&& forall|j: int| 0 <= j < rows.len() ==> (#[trigger] after[j]).key == rows[j].key
            &&& forall|j: int| 0 <= j < rows.len() && j != at ==> #[trigger] after[j] == rows[j]
            &&& after[at] == Overlay::of(row, palette).on(
                if has_key(rows, row.key) {
                    rows[at]
                } else {
                    RowView::blank(row.key)
                },
            )
            &&& after[at].key == row.key
            &&& distinct_keys(after)
        }),
{
    lemma_position(rows, row.key);
    let at = position(rows, row.key) as int;
    let after = apply(rows, row, palette);
    assert forall|i: int, j: int| 0 <= i < j < after.len() implies after[i].key != after[j].key by {
        if j < rows.len() {
            assert(after[i].key == rows[i].key);
            assert(after[j].key == rows[j].key);
        } else {
            assert(after[i].key == rows[i].key);
            assert(rows[i].key != row.key);
        }
    }
}

/// A frame that never names `key` changes nothing in its row.
pub proof fn lemma_collect_none(frame: Seq<PbView>, key: Seq<char>, palette: PaletteView)
    requires
        forall|i: int| 0 <= i < frame.len() ==> (#[trigger] frame[i]).key != key,
    ensures
        collect(frame, key, palette) == Overlay::none(),
    decreases frame.len(),
{
    if frame.len() > 0 {
        let front = frame.drop_last();
        assert forall|i: int| 0 <= i < front.len() implies (#[trigger] front[i]).key != key by {
            assert(front[i] == frame[i]);
        }
        lemma_collect_none(front, key, palette);
        assert(frame.last() == frame[frame.len() - 1]);
    }
}

/// What a frame leaves on the screen. The rows that were there keep their
/// places and keys; the keys stay distinct; every key of the frame has a row;
/// rows are added only for keys that had none; and each row is what it was
/// (or empty, if it is new) with all that the frame changes in it.
pub proof fn lemma_apply_all(rows: Seq<RowView>, frame: Seq<PbView>, palette: PaletteView)
    requires
        distinct_keys(rows),
    ensures
        ({
            let after = apply_all(rows, frame, palette);
            &&& rows.len() <= after.len()
            &&& forall|j: int| 0 <= j < rows.len() ==> (#[trigger] after[j]).key == rows[j].key
            &&& distinct_keys(after)
            &&& forall|i: int| 0 <= i < frame.len() ==> has_key(after, (#[trigger] frame[i]).key)
            &&& (forall|i: int| 0 <= i < frame.len() ==> has_key(rows, (#[trigger] frame[i]).key))
                ==> after.len() == rows.len()
            &&& forall|j: int|
                0 <= j < after.len() ==> #[trigger] after[j] == collect(
                    frame,
                    after[j].key,
                    palette,
                ).on(
                    if j < rows.len() {
                        rows[j]
                    } else {
                        RowView::blank(after[j].key)
                    },
                )
        }),
    decreases frame.len(),
{
    let after = apply_all(rows, frame, palette);
    if frame.len() == 0 {
        assert forall|j: int| 0 <= j < after.len() implies #[trigger] after[j] == collect(
            frame,
            after[j].key,
            palette,
        ).on(rows[j]) by {}
    } else {
        let front = frame.drop_last();
        let last = frame.last();
        let mid = apply_all(rows, front, palette);
        lemma_apply_all(rows, front, palette);
        lemma_apply(mid, last, palette);
        lemma_position(mid, last.key);
        let at = position(mid, last.key) as int;
        assert(after == apply(mid, last, palette));
        assert forall|i: int| 0 <= i < frame.len() implies has_key(
            after,
            (#[trigger] frame[i]).key,
        ) by {
            if i < front.len() {
                assert(front[i] == frame[i]);
                assert(has_key(mid, front[i].key));
                let j = position(mid, front[i].key) as int;
                lemma_position(mid, front[i].key);
                assert(after[j].key == mid[j].key);
                lemma_position_of_row(after, frame[i].key, j);
            } else {
                lemma_position_of_row(after, frame[i].key, at);
            }
        }
        if forall|i: int| 0 <= i < frame.len() ==> has_key(rows, (#[trigger] frame[i]).key) {
            assert forall|i: int| 0 <= i < front.len() implies has_key(
                rows,
                (#[trigger] front[i]).key,
            ) by {
                assert(front[i] == frame[i]);
            }
            assert(mid.len() == rows.len());
            assert(has_key(rows, frame[frame.len() - 1].key));
            let j = position(rows, last.key) as int;
            lemma_position(rows, last.key);
            assert(mid[j].key == rows[j].key);
            lemma_position_of_row(mid, last.key, j);
        }
        assert forall|j: int| 0 <= j < after.len() implies #[trigger] after[j] == collect(
            frame,
            after[j].key,
            palette,
        ).on(
            if j < rows.len() {
                rows[j]
            } else {
                RowView::blank(after[j].key)
            },
        ) by {
            let key = after[j].key;
            if j == at {
                if has_key(mid, last.key) {
                    assert(mid[j] == collect(front, mid[j].key, palette).on(
                        if j < rows.len() {
                            rows[j]
                        } else {
                            RowView::blank(mid[j].key)
                        },
                    ));
                } else {
                    assert forall|i: int| 0 <= i < front.len() implies (#[trigger] front[i]).key
                        != key by {
                        assert(front[i] == frame[i]);
                        assert(has_key(mid, front[i].key));
                    }
                    lemma_collect_none(front, key, palette);
                    assert(j >= rows.len());
                }
            } else {
                assert(after[j] == mid[j]);
                if mid[j].key == last.key {
                    lemma_position_of_row(mid, last.key, j);
                }
            }
        }
    }
}

/// Drawing a frame never takes a row away: every row keeps its place and its
/// key, and the keys stay distinct.
pub proof fn lemma_rows_stay(rows: Seq<RowView>, frame: Seq<PbView>, palette: PaletteView)
    requires
        distinct_keys(rows),
    ensures
        rows.len() <= apply_all(rows, frame, palette).len(),
        forall|j: int|
            0 <= j < rows.len() ==> (#[trigger] apply_all(rows, frame, palette)[j]).key
                == rows[j].key,
        distinct_keys(apply_all(rows, frame, palette)),
{
    lemma_apply_all(rows, frame, palette);
}

/// Over any run of frames, whatever they hold, the rows that were once made
/// are still there, each in its place and under its key.
pub proof fn lemma_rows_stay_over_frames(
    rows: Seq<RowView>,
    frames: Seq<Seq<PbView>>,
    palette: PaletteView,
)
    requires
        distinct_keys(rows),
    ensures
        rows.len() <= apply_frames(rows, frames, palette).len(),
        forall|j: int|
            0 <= j < rows.len() ==> (#[trigger] apply_frames(rows, frames, palette)[j]).key
                == rows[j].key,
        distinct_keys(apply_frames(rows, frames, palette)),
    decreases frames.len(),
{
    if frames.len() > 0 {
        let mid = apply_frames(rows, frames.drop_last(), palette);
        lemma_rows_stay_over_frames(rows, frames.drop_last(), palette);
        lemma_rows_stay(mid, frames.last(), palette);
        let after = apply_frames(rows, frames, palette);
        assert forall|j: int| 0 <= j < rows.len() implies (#[trigger] after[j]).key
            == rows[j].key by {
            assert(after[j].key == mid[j].key);
        }
    }
}

/// Drawing the same frame a second time leaves the screen as the first time
/// left it: no row is added and none is changed.
pub proof fn lemma_render_twice(rows: Seq<RowView>, frame: Seq<PbView>, palette: PaletteView)
    requires
        distinct_keys(rows),
    ensures
        apply_all(apply_all(rows, frame, palette), frame, palette) == apply_all(
            rows,
            frame,
            palette,
        ),
{
    let once = apply_all(rows, frame, palette);
    let twice = apply_all(once, frame, palette);
    lemma_apply_all(rows, frame, palette);
    lemma_apply_all(once, frame, palette);
    assert(twice.len() == once.len());
    assert forall|j: int| 0 <= j < once.len() implies twice[j] == once[j] by {
        assert(twice[j].key == once[j].key);
        let change = collect(frame, once[j].key, palette);
        assert(twice[j] == change.on(once[j]));
    }
    assert(twice =~= once);
}

/// `draws` reports the drawing of `frame` on a screen that held `rows`: one
/// entry for each row description, which says where its row is, whether the
/// row was made for it, and how the row stands once it is drawn.
pub open spec fn drawn(
    rows: Seq<RowView>,
    frame: Seq<PbView>,
    palette: PaletteView,
    draws: Seq<Draw>,
) -> bool {
    &&& draws.len() == frame.len()
    &&& forall|i: int|
        0 <= i < frame.len() ==> {
            let before = apply_all(rows, frame.take(i), palette);
            let after = apply_all(rows, frame.take(i + 1), palette);
            &&& (#[trigger] draws[i]).index == position(before, frame[i].key)
            &&& draws[i].created == !has_key(before, frame[i].key)
            &&& draws[i].index < after.len()
            &&& draws[i].row@ == after[draws[i].index as int]
        }
}

/// What was done to the screen for one row description: which row it went
/// to, whether that row was made for it, and how the row stands after it.
#[derive(Debug, Clone, PartialEq, Eq)]
pub struct Draw {
    pub index: usize,
    pub created: bool,
    pub row: Row,
}

/// The rows on the screen, in the order in which they were made. No two have
/// the same key.
#[derive(Debug)]
pub struct Registry {
    rows: Vec<Row>,
}

impl View for Registry {
    type V = Seq<RowView>;

    closed spec fn view(&self) -> Seq<RowView> {
        self.rows@.map_values(|row: Row| row@)
    }
}

/// The template that `row` is drawn with.
pub fn template_of(row: &Pb, palette: &Palette) -> (template: String)
    ensures
        template@ == shown_template(row@, palette@),
{
    let mut template = repeat(" ", row.indent);
    if !row.template.as_str().is_empty() {
        template.append(row.template.as_str());
    } else if !row.prefix.as_str().is_empty() {
        template.append("{prefix:10.white} ");
        template.append(palette.arrow.as_str());
        template.append(" {wide_msg}");
        assert(template@ =~= shown_template(row@, palette@));
    } else {
        template.append("{wide_msg}");
    }
    template
}

/// The spinner that `row` is drawn with.
pub fn tick_chars_of(row: &Pb) -> (tick_chars: String)
    ensures
        tick_chars@ == shown_tick_chars(row@),
{
    if row.tick_chars.as_str().is_empty() {
        String::from_str(DEFAULT_TICK_CHARS)
    } else {
        row.tick_chars.clone()
    }
}

impl Row {
    fn copy(&self) -> (out: Row)
        ensures
            out@ == self@,
    {
        Row {
            key: self.key.clone(),
            prefix: self.prefix.clone(),
            message: self.message.clone(),
            template: self.template.clone(),
            tick_chars: self.tick_chars.clone(),
        }
    }
}

impl Registry {
    /// No two rows on the screen have the same key.
    #[verifier::type_invariant]
    pub open spec fn keys_are_distinct(&self) -> bool {
        distinct_keys(self@)
    }

    /// A screen without rows.
    pub fn new() -> (registry: Registry)
        ensures
            registry@ == Seq::<RowView>::empty(),
    {
        let registry = Registry { rows: Vec::new() };
        assert(registry@ =~= Seq::<RowView>::empty());
        registry
    }

    /// The number of rows on the screen.
    pub fn len(&self) -> (n: usize)
        ensures
            n == self@.len(),
    {
        self.rows.len()
    }

    /// The row at `index` as it stands, if there is one.
    pub fn row(&self, index: usize) -> (row: Option<Row>)
        ensures
            index < self@.len() ==> row is Some && row->0@ == self@[index as int],
            index >= self@.len() ==> row is None,
            distinct_keys(self@),
    {
        proof {
            use_type_invariant(self);
        }
        if index < self.rows.len() {
            Some(self.rows[index].copy())
        } else {
            None
        }
    }

    /// The place of the row with `key`, or the number of rows where there is
    /// none.
    pub fn find(&self, key: &String) -> (at: usize)
        ensures
            at == position(self@, key@),
            at <= self@.len(),
    {
        let mut at: usize = 0;
        while at < self.rows.len()
            invariant
                at <= self.rows.len(),
                forall|j: int| 0 <= j < at ==> (#[trigger] self@[j]).key != key@,
            decreases self.rows.len() - at,
        {
            if self.rows[at].key.eq(key) {
                proof {
                    lemma_position(self@, key@);
                    lemma_position_of_row(self@, key@, at as int);
                }
                return at;
            }
            at = at + 1;
        }
        proof {
            lemma_position(self@, key@);
        }
        at
    }

    /// Draws one row description: finds the row with its key, or makes one
    /// below all others, and sets in it what the description says. A label or
    /// value that the description leaves empty stays as it was.
    pub fn pb(&mut self, pb_args: &Pb, palette: &Palette) -> (draw: Draw)
        ensures
            final(self)@ == apply(old(self)@, pb_args@, palette@),
            draw.index == position(old(self)@, pb_args@.key),
            draw.created == !has_key(old(self)@, pb_args@.key),
            draw.index < final(self)@.len(),
            draw.row@ == final(self)@[draw.index as int],
            distinct_keys(old(self)@),
            distinct_keys(final(self)@),
    {
        proof {
            use_type_invariant(&*self);
            lemma_apply(self@, pb_args@, palette@);
        }
        let ghost before = self@;
        let index = self.find(&pb_args.key);
        let created = index == self.rows.len();
        let (prefix, message) = if created {
            (String::new(), String::new())
        } else {
            (self.rows[index].prefix.clone(), self.rows[index].message.clone())
        };
        let row = Row {
            key: pb_args.key.clone(),
            prefix: if pb_args.prefix.as_str().is_empty() {
                prefix
            } else {
                pb_args.prefix.clone()
            },
            message: if pb_args.message.as_str().is_empty() {
                message
            } else {
                pb_args.message.clone()
            },
            template: template_of(pb_args, palette),
            tick_chars: tick_chars_of(pb_args),
        };
        let shown = row.copy();
        proof {
            lemma_position(before, pb_args@.key);
            assert(row@ == apply(before, pb_args@, palette@)[index as int]);
        }
        let mut rows: Vec<Row> = Vec::new();
        core::mem::swap(&mut self.rows, &mut rows);
        if created {
            rows.push(row);
        } else {
            rows.set(index, row);
        }
        assert(rows@.map_values(|row: Row| row@) =~= apply(before, pb_args@, palette@));
        core::mem::swap(&mut self.rows, &mut rows);
        Draw { index, created, row: shown }
    }

    /// Draws a frame, one row description after the other, and reports what
    /// was done for each. Rows that are on the screen keep their places and
    /// keys; a key that has no row gets one below all others.
    pub fn render(&mut self, rows: &Vec<Pb>, palette: &Palette) -> (draws: Vec<Draw>)
        ensures
            final(self)@ == apply_all(old(self)@, views(rows@), palette@),
            drawn(old(self)@, views(rows@), palette@, draws@),
            old(self)@.len() <= final(self)@.len(),
            forall|j: int|
                0 <= j < old(self)@.len() ==> (#[trigger] final(self)@[j]).key == old(self)@[j].key,
            distinct_keys(old(self)@),
            distinct_keys(final(self)@),
    {
        proof {
            use_type_invariant(&*self);
        }
        let ghost start = self@;
        let ghost frame = views(rows@);
        let mut draws: Vec<Draw> = Vec::new();
        let mut i: usize = 0;
        while i < rows.len()
            invariant
                i <= rows.len(),
                frame == views(rows@),
                distinct_keys(start),
                self@ == apply_all(start, frame.take(i as int), palette@),
                drawn(start, frame.take(i as int), palette@, draws@),
            decreases rows.len() - i,
        {
            proof {
                assert(frame.take(i + 1).drop_last() =~= frame.take(i as int));
                assert(frame.take(i + 1).last() == rows@[i as int]@);
            }
            let ghost shown = draws@;
            let draw = self.pb(&rows[i], palette);
            draws.push(draw);
            i = i + 1;
            proof {
                let seen = frame.take(i as int);
                assert forall|k: int| 0 <= k < seen.len() implies {
                    let before = apply_all(start, seen.take(k), palette@);
                    let after = apply_all(start, seen.take(k + 1), palette@);
                    &&& (#[trigger] draws@[k]).index == position(before, seen[k].key)
                    &&& draws@[k].created == !has_key(before, seen[k].key)
                    &&& draws@[k].index < after.len()
                    &&& draws@[k].row@ == after[draws@[k].index as int]
                } by {
                    assert(seen.take(k) =~= frame.take(k));
                    assert(seen.take(k + 1) =~= frame.take(k + 1));
                    if k < i - 1 {
                        let earlier = frame.take(i - 1);
                        assert(earlier.take(k) =~= frame.take(k));
                        assert(earlier.take(k + 1) =~= frame.take(k + 1));
                        assert(draws@[k] == shown[k]);
                        assert(earlier[k] == seen[k]);
                    }
                }
            }
        }
        proof {
            assert(frame.take(rows.len() as int) =~= frame);
            lemma_rows_stay(start, frame, palette@);
        }
        draws
    }
}

} // verus!
