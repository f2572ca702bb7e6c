//! The editor: its named address ranges, its options, and what it decides in
//! each frame.
use crate::hex::{ascii_char, byte_label, spec_ascii_char, upper_hex_digit};
use crate::layout::{
    cell_address, hex_digit_count, range_contains, row_contains, row_count, spec_cell_address,
    spec_hex_digit_count, spec_row_count,
};
use crate::option_data::{
    ArrowKey, BetweenFrameData, Colour, EditState, MemoryEditorOptions, MouseButton, WriteRequest,
};
use std::ops::Range;
use vstd::prelude::*;
use vstd::string::*;

verus! {

/// An address range under its name.
#[derive(Debug)]
pub struct NamedRange {
    pub name: String,
    pub range: Range<usize>,
}

impl Clone for NamedRange {
    fn clone(&self) -> (copy: Self)
        ensures
            copy == *self,
    {
        NamedRange {
            name: self.name.clone(),
            range: Range { start: self.range.start, end: self.range.end },
        }
    }
}

/// The editor as plain values: the window title, the named ranges in the order
/// in which their names were first added, the edit state and the addresses
/// shown in the last frame.
pub struct EditorView {
    pub window_title: Seq<char>,
    pub ranges: Seq<(Seq<char>, Range<usize>)>,
    pub options: MemoryEditorOptions,
    pub edit: EditState,
    pub visible_range: Range<usize>,
}

/// Whether a range of the given name is registered.
pub open spec fn has_name(ranges: Seq<(Seq<char>, Range<usize>)>, name: Seq<char>) -> bool {
    exists|i: int| 0 <= i < ranges.len() && (#[trigger] ranges[i]).0 == name
}

/// Whether `i` is the first place at which the name stands.
pub open spec fn is_position(ranges: Seq<(Seq<char>, Range<usize>)>, name: Seq<char>, i: int) -> bool {
    &&& 0 <= i < ranges.len()
    &&& ranges[i].0 == name
    &&& forall|j: int| 0 <= j < i ==> (#[trigger] ranges[j]).0 != name
}

/// The place of a name among the registered ranges.
pub open spec fn position(ranges: Seq<(Seq<char>, Range<usize>)>, name: Seq<char>) -> Option<int> {
    if has_name(ranges, name) {
        Some(choose|i: int| is_position(ranges, name, i))
    } else {
        None
    }
}

/// The range registered under a name.
pub open spec fn lookup(ranges: Seq<(Seq<char>, Range<usize>)>, name: Seq<char>) -> Option<
    Range<usize>,
> {
    match position(ranges, name) {
        Some(i) => Some(ranges[i].1),
        None => None,
    }
}

/// The ranges after one is added: a new name goes to the end, a known name
/// keeps its place and gets the new range.
pub open spec fn with_range(
    ranges: Seq<(Seq<char>, Range<usize>)>,
    name: Seq<char>,
    range: Range<usize>,
) -> Seq<(Seq<char>, Range<usize>)> {
    match position(ranges, name) {
        Some(i) => ranges.update(i, (name, range)),
        None => ranges.push((name, range)),
    }
}

/// No name stands twice.
pub open spec fn distinct_names(ranges: Seq<(Seq<char>, Range<usize>)>) -> bool {
    forall|i: int, j: int|
        0 <= i < j < ranges.len() ==> (#[trigger] ranges[i]).0 != (#[trigger] ranges[j]).0
}

/// A name that stands somewhere has a first place.
pub proof fn lemma_first_position(ranges: Seq<(Seq<char>, Range<usize>)>, name: Seq<char>, i: int)
    requires
        0 <= i < ranges.len(),
        ranges[i].0 == name,
    ensures
        exists|k: int| is_position(ranges, name, k),
        has_name(ranges, name),
    decreases i,
{
    if forall|j: int| 0 <= j < i ==> (#[trigger] ranges[j]).0 != name {
        assert(is_position(ranges, name, i));
    } else {
        let j = choose|j: int| 0 <= j < i && (#[trigger] ranges[j]).0 == name;
        lemma_first_position(ranges, name, j);
    }
}

/// A registered name has a position, and the name stands there.
pub proof fn lemma_position_of_name(ranges: Seq<(Seq<char>, Range<usize>)>, name: Seq<char>)
    requires
        has_name(ranges, name),
    ensures
        position(ranges, name) is Some,
        is_position(ranges, name, position(ranges, name).unwrap()),
{
    let w = choose|i: int| 0 <= i < ranges.len() && (#[trigger] ranges[i]).0 == name;
    lemma_first_position(ranges, name, w);
}

/// A name found at `i`, with no earlier occurrence, has position `i`.
pub proof fn lemma_position_found(ranges: Seq<(Seq<char>, Range<usize>)>, name: Seq<char>, i: int)
    requires
        is_position(ranges, name, i),
    ensures
        position(ranges, name) == Some(i),
{
    assert(has_name(ranges, name));
    let k = choose|k: int| is_position(ranges, name, k);
    assert(is_position(ranges, name, k));
    if k < i {
        assert(ranges[k].0 != name);
    }
    if i < k {
        assert(ranges[i].0 != name);
    }
}

/// A name that stands nowhere has no position.
pub proof fn lemma_position_absent(ranges: Seq<(Seq<char>, Range<usize>)>, name: Seq<char>)
    requires
        forall|j: int| 0 <= j < ranges.len() ==> (#[trigger] ranges[j]).0 != name,
    ensures
        position(ranges, name) is None,
{
}

/// Adding a range keeps the names distinct, and the added name then stands
/// for the added range.
pub proof fn lemma_with_range(ranges: Seq<(Seq<char>, Range<usize>)>, name: Seq<char>, range: Range<usize>)
    requires
        distinct_names(ranges),
    ensures
        distinct_names(with_range(ranges, name, range)),
        lookup(with_range(ranges, name, range), name) == Some(range),
        forall|other: Seq<char>|
            other != name ==> lookup(with_range(ranges, name, range), other) == lookup(
                ranges,
                other,
            ),
{
    let after = with_range(ranges, name, range);
    if has_name(ranges, name) {
        lemma_position_of_name(ranges, name);
        let i = position(ranges, name).unwrap();
        assert(after == ranges.update(i, (name, range)));
        assert(is_position(after, name, i));
        lemma_position_found(after, name, i);
        assert forall|other: Seq<char>| other != name implies lookup(after, other) == lookup(
            ranges,
            other,
        ) by {
            lemma_lookup_elsewhere(ranges, after, other);
        }
    } else {
        assert(after == ranges.push((name, range)));
        assert forall|j: int| 0 <= j < ranges.len() implies (#[trigger] ranges[j]).0 != name by {
            if ranges[j].0 == name {
                assert(has_name(ranges, name));
            }
        }
        assert(is_position(after, name, ranges.len() as int));
        lemma_position_found(after, name, ranges.len() as int);
        assert forall|other: Seq<char>| other != name implies lookup(after, other) == lookup(
            ranges,
            other,
        ) by {
            lemma_lookup_elsewhere(ranges, after, other);
        }
    }
}

/// Where two lists agree on every entry of a name, and neither holds it
/// elsewhere, they give the same range for it.
proof fn lemma_lookup_elsewhere(
    before: Seq<(Seq<char>, Range<usize>)>,
    after: Seq<(Seq<char>, Range<usize>)>,
    other: Seq<char>,
)
    requires
        before.len() <= after.len(),
        forall|j: int|
            0 <= j < before.len() ==> ((#[trigger] before[j]).0 == other || (#[trigger] after[j]).0
                == other) ==> before[j] == after[j],
        forall|j: int| before.len() <= j < after.len() ==> (#[trigger] after[j]).0 != other,
    ensures
        lookup(after, other) == lookup(before, other),
{
    if has_name(before, other) {
        lemma_position_of_name(before, other);
        let i = position(before, other).unwrap();
        assert(before[i] == after[i]);
        assert forall|j: int| 0 <= j < i implies (#[trigger] after[j]).0 != other by {
            if after[j].0 == other {
                assert(before[j] == after[j]);
            }
        }
        assert(is_position(after, other, i));
        lemma_position_found(after, other, i);
    } else {
        assert forall|j: int| 0 <= j < after.len() implies (#[trigger] after[j]).0 != other by {
            if j < before.len() && after[j].0 == other {
                assert(before[j] == after[j]);
                assert(has_name(before, other));
            }
        }
    }
}

/// The options but for the name of the selected range.
pub open spec fn same_but_selection(a: MemoryEditorOptions, b: MemoryEditorOptions) -> bool {
    &&& a.is_open == b.is_open
    &&& a.show_ascii == b.show_ascii
    &&& a.show_zero_colour == b.show_zero_colour
    &&& a.column_count == b.column_count
    &&& a.zero_colour == b.zero_colour
    &&& a.address_text_colour == b.address_text_colour
    &&& a.highlight_text_colour == b.highlight_text_colour
    &&& a.data_preview == b.data_preview
    &&& a.memory_editor_text_style == b.memory_editor_text_style
    &&& a.memory_editor_address_text_style == b.memory_editor_address_text_style
    &&& a.memory_editor_ascii_text_style == b.memory_editor_ascii_text_style
}

/// What a frame draws: the range shown, the width of the address labels in
/// hexadecimal digits, the number of rows, and the line to scroll to, if one was
/// asked for.
#[derive(Debug)]
pub struct FrameLayout {
    pub address_space: Range<usize>,
    pub address_characters: usize,
    pub max_lines: usize,
    pub goto_line: Option<usize>,
}

/// How the value of one cell is drawn.
#[derive(Clone, Copy, Debug, PartialEq, Eq)]
pub struct MemoryCell {
    /// The cell is the one under edit and is drawn as an edit field.
    pub editing: bool,
    /// The two hexadecimal digits of the value.
    pub label: (char, char),
    /// The colour of the digits, `None` for the host's own text colour.
    pub colour: Option<Colour>,
    /// The cell is drawn on the background that marks the highlighted value.
    pub subtle_highlight: bool,
}

/// How one cell of the text column is drawn.
#[derive(Clone, Copy, Debug, PartialEq, Eq, Structural)]
pub struct AsciiCell {
    pub character: char,
    pub highlighted: bool,
}

/// The first address of a row, bounded by the end of the range: rows past the
/// last one start where the range ends.
pub open spec fn bounded_row_start(r: Range<usize>, column_count: usize, row: usize) -> usize {
    match spec_cell_address(r, column_count, row, 0) {
        Some(a) => a,
        None => if r.start <= r.end {
            r.end
        } else {
            r.start
        },
    }
}

/// The addresses that the rows `rows` of the grid show.
pub open spec fn addresses_of_rows(r: Range<usize>, column_count: usize, rows: Range<usize>) -> Range<
    usize,
> {
    Range {
        start: bounded_row_start(r, column_count, rows.start),
        end: bounded_row_start(r, column_count, rows.end),
    }
}

/// The addresses of a run of rows lie inside the range, and the run of rows
/// that covers the whole grid shows the whole range.
pub proof fn lemma_rows_stay_in_range(r: Range<usize>, column_count: usize, rows: Range<usize>)
    requires
        column_count > 0,
        r.start <= r.end,
        rows.start <= rows.end,
    ensures
        r.start <= addresses_of_rows(r, column_count, rows).start <= addresses_of_rows(
            r,
            column_count,
            rows,
        ).end <= r.end,
        rows.start == 0 && rows.end >= spec_row_count(r, column_count) ==> addresses_of_rows(
            r,
            column_count,
            rows,
        ) == r,
{
    assert(rows.start * column_count <= rows.end * column_count) by (nonlinear_arith)
        requires
            rows.start <= rows.end,
            column_count > 0,
    ;
    assert(rows.start * column_count >= 0) by (nonlinear_arith);
    crate::layout::lemma_row_exists(r, column_count, rows.end);
}

/// The colour of a cell's digits: the highlight colour for the highlighted
/// cell, else the zero colour for a zero byte where the options ask for it,
/// else the host's own.
pub open spec fn cell_colour(options: MemoryEditorOptions, edit: EditState, address: usize, value: u8) -> Option<
    Colour,
> {
    if edit.is_highlighted(address) {
        Some(options.highlight_text_colour)
    } else if options.show_zero_colour && value == 0 {
        Some(options.zero_colour)
    } else {
        None
    }
}

/// The editor. It is kept from frame to frame.
#[derive(Debug)]
pub struct MemoryEditor {
    window_name: String,
    address_ranges: Vec<NamedRange>,
    /// The options; the host may change them between frames.
    pub options: MemoryEditorOptions,
    frame_data: BetweenFrameData,
    visible_range: Range<usize>,
}

impl View for MemoryEditor {
    type V = EditorView;

    closed spec fn view(&self) -> EditorView {
        EditorView {
            window_title: self.window_name@,
            ranges: Seq::new(
                self.address_ranges@.len(),
                |i: int| (self.address_ranges@[i].name@, self.address_ranges@[i].range),
            ),
            options: self.options,
            edit: self.frame_data@,
            visible_range: self.visible_range,
        }
    }
}

impl MemoryEditor {
    /// No two registered ranges share a name.
    pub open spec fn wf(&self) -> bool {
        distinct_names(self@.ranges)
    }

    /// The range that is shown: the one registered under the selected name.
    pub open spec fn spec_current_range(&self) -> Option<Range<usize>> {
        lookup(self@.ranges, self@.options.selected_address_range@)
    }

    /// What a new editor is: titled "Memory Editor", without ranges, idle,
    /// with the default options, and with nothing shown yet.
    pub open spec fn is_new(&self) -> bool {
        &&& self@.window_title == "Memory Editor"@
        &&& self@.ranges.len() == 0
        &&& self@.options.is_default()
        &&& self@.edit == EditState::initial()
        &&& self@.visible_range == (Range::<usize> { start: 0, end: 0 })
    }

    /// An editor without ranges, titled "Memory Editor", with the default
    /// options.
    pub fn new() -> (editor: Self)
        ensures
            editor.is_new(),
            editor.wf(),
    {
        let editor = MemoryEditor {
            window_name: String::from_str("Memory Editor"),
            address_ranges: Vec::new(),
            options: MemoryEditorOptions::default(),
            frame_data: BetweenFrameData::default(),
            visible_range: Range { start: 0, end: 0 },
        };
        assert(editor@.ranges.len() == 0);
        editor
    }

    /// The addresses that the last frame showed.
    pub fn visible_range(&self) -> (range: &Range<usize>)
        ensures
            *range == self@.visible_range,
    {
        &self.visible_range
    }

    /// The title of the editor's window.
    pub fn window_title(&self) -> (title: &String)
        ensures
            title@ == self@.window_title,
    {
        &self.window_name
    }

    /// The state kept between frames.
    pub fn frame_data(&self) -> (data: &BetweenFrameData)
        ensures
            data@ == self@.edit,
    {
        &self.frame_data
    }

    /// Sets the title of the editor's window.
    pub fn with_window_title(self, title: &str) -> (editor: Self)
        ensures
            editor@ == (EditorView { window_title: title@, ..self@ }),
    {
        let mut editor = self;
        editor.window_name = String::from_str(title);
        editor
    }

    /// Replaces the options.
    pub fn with_options(self, options: MemoryEditorOptions) -> (editor: Self)
        ensures
            editor@ == (EditorView { options: options, ..self@ }),
    {
        let mut editor = self;
        editor.options = options;
        editor
    }

    /// The place of a name among the registered ranges.
    fn find(&self, name: &String) -> (found: Option<usize>)
        ensures
            found is Some <==> position(self@.ranges, name@) is Some,
            found is Some ==> position(self@.ranges, name@) == Some(found.unwrap() as int)
                && found.unwrap() < self.address_ranges@.len(),
    {
        let mut i: usize = 0;
        while i < self.address_ranges.len()
            invariant
                i <= self.address_ranges@.len(),
                forall|j: int| 0 <= j < i ==> (#[trigger] self@.ranges[j]).0 != name@,
            decreases self.address_ranges@.len() - i,
        {
            if self.address_ranges[i].name == *name {
                proof {
                    assert(self@.ranges[i as int].0 == name@);
                    lemma_position_found(self@.ranges, name@, i as int);
                }
                return Some(i);
            }
            i = i + 1;
        }
        proof {
            lemma_position_absent(self@.ranges, name@);
        }
        None
    }

    /// Adds an address range under a name; a range already registered under
    /// that name is replaced. The first range added to an editor becomes the
    /// selected one.
    #[must_use]
    pub fn with_address_range(self, range_name: &str, address_range: Range<usize>) -> (editor: Self)
        ensures
            self.wf() ==> editor.wf(),
            editor@.ranges == with_range(self@.ranges, range_name@, address_range),
            self.wf() ==> lookup(editor@.ranges, range_name@) == Some(address_range),
            editor@.window_title == self@.window_title,
            editor@.visible_range == self@.visible_range,
            editor@.edit == (EditState {
                combo_box_enabled: editor@.ranges.len() > 1,
                ..self@.edit
            }),
            same_but_selection(editor@.options, self@.options),
            editor@.options.selected_address_range@ == if self@.ranges.len() == 0 {
                range_name@
            } else {
                self@.options.selected_address_range@
            },
    {
        let mut editor = self;
        let name = String::from_str(range_name);
        let ghost before = editor@.ranges;
        proof {
            if distinct_names(before) {
                lemma_with_range(before, range_name@, address_range);
            }
        }
        let was_empty = editor.address_ranges.len() == 0;
        match editor.find(&name) {
            Some(i) => {
                editor.address_ranges.set(i, NamedRange { name: name.clone(), range: address_range });
            },
            None => {
                editor.address_ranges.push(NamedRange { name: name.clone(), range: address_range });
            },
        }
        assert(editor@.ranges =~= with_range(before, range_name@, address_range));
        editor.frame_data.set_combo_box_enabled(editor.address_ranges.len() > 1);
        if was_empty {
            editor.options.selected_address_range = name;
        }
        editor
    }

    /// Selects the range of the given name; an unknown name changes nothing.
    pub fn select_address_range(&mut self, range_name: &str)
        ensures
            final(self)@.window_title == old(self)@.window_title,
            final(self)@.ranges == old(self)@.ranges,
            final(self)@.edit == old(self)@.edit,
            final(self)@.visible_range == old(self)@.visible_range,
            same_but_selection(final(self)@.options, old(self)@.options),
            final(self)@.options.selected_address_range@ == if has_name(
                old(self)@.ranges,
                range_name@,
            ) {
                range_name@
            } else {
                old(self)@.options.selected_address_range@
            },
    {
        let name = String::from_str(range_name);
        if self.find(&name).is_some() {
            self.options.selected_address_range = name;
        }
    }

    /// Number of registered ranges.
    pub fn address_range_count(&self) -> (n: usize)
        ensures
            n == self@.ranges.len(),
    {
        self.address_ranges.len()
    }

    /// The names of the registered ranges, in the order in which they were
    /// first added.
    pub fn address_range_names(&self) -> (names: Vec<String>)
        ensures
            names@.len() == self@.ranges.len(),
            forall|i: int| 0 <= i < names@.len() ==> (#[trigger] names@[i])@ == self@.ranges[i].0,
    {
        let mut names: Vec<String> = Vec::new();
        let mut i: usize = 0;
        while i < self.address_ranges.len()
            invariant
                i <= self.address_ranges@.len(),
                names@.len() == i,
                forall|j: int| 0 <= j < i ==> (#[trigger] names@[j])@ == self@.ranges[j].0,
            decreases self.address_ranges@.len() - i,
        {
            names.push(self.address_ranges[i].name.clone());
            i = i + 1;
        }
        names
    }

    /// The range registered under a name.
    pub fn address_range(&self, range_name: &str) -> (range: Option<Range<usize>>)
        ensures
            range == lookup(self@.ranges, range_name@),
    {
        let name = String::from_str(range_name);
        match self.find(&name) {
            Some(i) => Some(
                Range { start: self.address_ranges[i].range.start, end: self.address_ranges[i].range.end },
            ),
            None => None,
        }
    }

    /// The range that is shown, `None` where no range is registered under the
    /// selected name.
    pub fn current_range(&self) -> (range: Option<Range<usize>>)
        ensures
            range == self.spec_current_range(),
    {
        match self.find(&self.options.selected_address_range) {
            Some(i) => Some(
                Range { start: self.address_ranges[i].range.start, end: self.address_ranges[i].range.end },
            ),
            None => None,
        }
    }

    /// Starts a frame and returns what it draws. An edit ends if the host
    /// cannot write in this frame or the range does not hold the cell under
    /// edit, and the request to scroll is taken. A range must be registered
    /// under the selected name.
    pub fn begin_frame(&mut self, can_write: bool) -> (layout: FrameLayout)
        requires
            old(self).spec_current_range() is Some,
            old(self)@.options.column_count > 0,
        ensures
            ({
                let r = old(self).spec_current_range().unwrap();
                let edit = old(self)@.edit.revalidated(r, can_write);
                &&& layout == (FrameLayout {
                    address_space: r,
                    address_characters: spec_hex_digit_count(r.end as nat) as usize,
                    max_lines: spec_row_count(r, old(self)@.options.column_count) as usize,
                    goto_line: if edit.goto_line is Some && range_contains(
                        r,
                        edit.goto_line.unwrap(),
                    ) {
                        edit.goto_line
                    } else {
                        None
                    },
                })
                &&& final(self)@ == (EditorView {
                    edit: EditState { goto_line: None, ..edit },
                    ..old(self)@
                })
            }),
    {
        let address_space = self.current_range().unwrap();
        self.frame_data.revalidate(&address_space, can_write);
        let goto_line = self.frame_data.take_goto_line(&address_space);
        let address_characters = hex_digit_count(address_space.end);
        let max_lines = row_count(&address_space, self.options.column_count);
        FrameLayout { address_space, address_characters, max_lines, goto_line }
    }

    /// Records the addresses that the frame showed, given the rows drawn.
    pub fn record_visible_rows(&mut self, address_space: &Range<usize>, rows: &Range<usize>)
        requires
            old(self)@.options.column_count > 0,
        ensures
            final(self)@ == (EditorView {
                visible_range: addresses_of_rows(
                    *address_space,
                    old(self)@.options.column_count,
                    *rows,
                ),
                ..old(self)@
            }),
    {
        let bound: usize = if address_space.start <= address_space.end {
            address_space.end
        } else {
            address_space.start
        };
        let start: usize = match cell_address(address_space, self.options.column_count, rows.start, 0) {
            Some(a) => a,
            None => bound,
        };
        let end: usize = match cell_address(address_space, self.options.column_count, rows.end, 0) {
            Some(a) => a,
            None => bound,
        };
        self.visible_range = Range { start, end };
    }

    /// Moves the cell under edit where an arrow key was pressed in this frame.
    pub fn handle_keyboard_edit_input(&mut self, address_range: &Range<usize>, key: Option<ArrowKey>)
        ensures
            final(self)@ == (EditorView {
                edit: match key {
                    Some(k) => old(self)@.edit.after_arrow(
                        k,
                        *address_range,
                        old(self)@.options.column_count,
                    ),
                    None => old(self)@.edit,
                },
                ..old(self)@
            }),
            old(self)@.edit.wf() ==> final(self)@.edit.wf(),
    {
        match key {
            Some(k) => {
                self.frame_data.arrow_key(k, address_range, self.options.column_count);
            },
            None => {},
        }
    }

    /// A click on the cell at `address`.
    pub fn cell_clicked(&mut self, address: usize, button: MouseButton, can_write: bool)
        ensures
            final(self)@ == (EditorView {
                edit: old(self)@.edit.clicked(address, button, can_write),
                ..old(self)@
            }),
            old(self)@.edit.wf() ==> final(self)@.edit.wf(),
    {
        self.frame_data.click(address, button, can_write);
    }

    /// The edit field was drawn: `text` is what it holds now, `has_focus`
    /// whether it has the keyboard focus. Returns the byte that the host is to
    /// write, once two hexadecimal digits were typed. Without a write, an
    /// edit field that has lost the focus ends the edit.
    pub fn edit_field_changed(
        &mut self,
        text: &str,
        has_focus: bool,
        address_space: &Range<usize>,
        can_write: bool,
    ) -> (write: Option<WriteRequest>)
        ensures
            write == old(self)@.edit.write_of_text(text@, *address_space, can_write),
            final(self)@ == (EditorView {
                edit: if write is None && !has_focus {
                    old(self)@.edit.after_text(
                        text@,
                        *address_space,
                        can_write,
                    ).after_focus_lost()
                } else {
                    old(self)@.edit.after_text(text@, *address_space, can_write)
                },
                ..old(self)@
            }),
            old(self)@.edit.wf() ==> final(self)@.edit.wf(),
    {
        let write = self.frame_data.edit_text(text, address_space, can_write);
        if write.is_none() && !has_focus {
            self.frame_data.focus_lost();
        }
        write
    }

    /// Takes the request to give the edit field the keyboard focus.
    pub fn take_request_focus(&mut self) -> (requested: bool)
        ensures
            requested == old(self)@.edit.request_focus,
            final(self)@ == (EditorView {
                edit: EditState { request_focus: false, ..old(self)@.edit },
                ..old(self)@
            }),
    {
        self.frame_data.take_request_focus()
    }

    /// Asks the next frame to scroll to a line.
    pub fn set_goto_line(&mut self, line: usize)
        ensures
            final(self)@ == (EditorView {
                edit: EditState { goto_line: Some(line), ..old(self)@.edit },
                ..old(self)@
            }),
    {
        self.frame_data.set_goto_line(line);
    }

    /// Whether the row starting at `row_start` holds the highlighted address.
    pub fn row_highlighted(&self, row_start: usize) -> (b: bool)
        ensures
            b == (self@.edit.highlighted is Some && row_start <= self@.edit.highlighted.unwrap()
                < row_start + self@.options.column_count),
    {
        match self.frame_data.highlighted_address() {
            Some(a) => row_contains(row_start, self.options.column_count, a),
            None => false,
        }
    }

    /// How the cell at `address` is drawn, given the byte read for it. The
    /// cell is an edit field where it is the cell under edit and the host can
    /// write in this frame.
    pub fn memory_cell(&self, address: usize, value: u8, can_write: bool) -> (cell: MemoryCell)
        ensures
            cell.editing == (can_write && self@.edit.armed == Some(address)),
            cell.label == (
                upper_hex_digit(value as int / 16),
                upper_hex_digit(value as int % 16),
            ),
            cell.colour == cell_colour(self@.options, self@.edit, address, value),
            cell.subtle_highlight == self@.edit.is_subtly_highlighted(
                address,
                self@.options.data_preview.selected_data_format.spec_bytes_to_read(),
            ),
    {
        let editing = can_write && match self.frame_data.selected_edit_address() {
            Some(a) => a == address,
            None => false,
        };
        let colour = if self.frame_data.should_highlight(address) {
            Some(self.options.highlight_text_colour)
        } else if self.options.show_zero_colour && value == 0 {
            Some(self.options.zero_colour)
        } else {
            None
        };
        MemoryCell {
            editing,
            label: byte_label(value),
            colour,
            subtle_highlight: self.frame_data.should_subtle_highlight(
                address,
                self.options.data_preview.selected_data_format,
            ),
        }
    }

    /// How the cell of the text column at `address` is drawn, given the byte
    /// read for it.
    pub fn ascii_cell(&self, address: usize, value: u8) -> (cell: AsciiCell)
        ensures
            cell.character == spec_ascii_char(value),
            cell.highlighted == self@.edit.is_highlighted(address),
    {
        AsciiCell {
            character: ascii_char(value),
            highlighted: self.frame_data.should_highlight(address),
        }
    }
}

impl Clone for MemoryEditor {
    fn clone(&self) -> (copy: Self)
        ensures
            copy@ == self@,
    {
        let mut ranges: Vec<NamedRange> = Vec::new();
        let mut i: usize = 0;
        while i < self.address_ranges.len()
            invariant
                i <= self.address_ranges@.len(),
                ranges@ == self.address_ranges@.subrange(0, i as int),
            decreases self.address_ranges@.len() - i,
        {
            ranges.push(self.address_ranges[i].clone());
            i = i + 1;
            proof {
                assert(ranges@ =~= self.address_ranges@.subrange(0, i as int));
            }
        }
        proof {
            assert(ranges@ =~= self.address_ranges@);
        }
        let copy = MemoryEditor {
            window_name: self.window_name.clone(),
            address_ranges: ranges,
            options: self.options.clone(),
            frame_data: self.frame_data.clone(),
            visible_range: Range { start: self.visible_range.start, end: self.visible_range.end },
        };
        proof {
            assert(copy@.ranges =~= self@.ranges);
        }
        copy
    }
}

impl Default for MemoryEditor {
    fn default() -> (editor: Self)
        ensures
            editor.is_new(),
            editor.wf(),
    {
        MemoryEditor::new()
    }
}

} // verus!
