//! The editor's options and the state that it keeps from one frame to the next.
use crate::hex::{
    byte_of_digits, chars_of, hex_digits_of, is_hex_digit, lemma_hex_digits_are_digits,
    lemma_hex_digits_of_digits, lemma_hex_digits_push, parse_hex_byte, retain_hex_digits,
};
use crate::layout::{in_range, range_contains};
use std::ops::Range;
use vstd::prelude::*;

verus! {

/// A colour as red, green, blue and alpha.
#[derive(Clone, Copy, Debug, PartialEq, Eq, Structural)]
pub struct Colour {
    pub r: u8,
    pub g: u8,
    pub b: u8,
    pub a: u8,
}

/// The text styles that the host offers.
#[derive(Clone, Copy, Debug, PartialEq, Eq, Structural)]
pub enum TextStyleChoice {
    Small,
    Body,
    Monospace,
    Button,
    Heading,
}

/// Byte order of the values in the data preview.
#[derive(Clone, Copy, Debug, PartialEq, Eq, Structural)]
pub enum Endianness {
    Big,
    Little,
}

/// The number formats that the data preview can show.
#[derive(Clone, Copy, Debug, PartialEq, Eq, Structural)]
pub enum DataFormatType {
    U8,
    U16,
    U32,
    U64,
    I8,
    I16,
    I32,
    I64,
    F32,
    F64,
}

impl DataFormatType {
    /// Bytes that a value of the format takes.
    pub open spec fn spec_bytes_to_read(self) -> usize {
        match self {
            DataFormatType::U8 | DataFormatType::I8 => 1,
            DataFormatType::U16 | DataFormatType::I16 => 2,
            DataFormatType::U32 | DataFormatType::I32 | DataFormatType::F32 => 4,
            DataFormatType::U64 | DataFormatType::I64 | DataFormatType::F64 => 8,
        }
    }

    /// Bytes that a value of the format takes.
    pub fn bytes_to_read(&self) -> (n: usize)
        ensures
            n == self.spec_bytes_to_read(),
    {
        match self {
            DataFormatType::U8 | DataFormatType::I8 => 1,
            DataFormatType::U16 | DataFormatType::I16 => 2,
            DataFormatType::U32 | DataFormatType::I32 | DataFormatType::F32 => 4,
            DataFormatType::U64 | DataFormatType::I64 | DataFormatType::F64 => 8,
        }
    }
}

/// What the data preview shows.
#[derive(Clone, Copy, Debug, PartialEq, Eq, Structural)]
pub struct DataPreviewOptions {
    pub selected_endianness: Endianness,
    pub selected_data_format: DataFormatType,
}

/// The options of the editor. The host may change them between frames; the
/// column count must stay positive.
#[derive(Debug)]
pub struct MemoryEditorOptions {
    /// Whether the editor's window is open.
    pub is_open: bool,
    /// Whether the text column beside the values is shown.
    pub show_ascii: bool,
    /// Whether bytes that are zero are shown in `zero_colour`.
    pub show_zero_colour: bool,
    /// Cells per row.
    pub column_count: usize,
    pub zero_colour: Colour,
    pub address_text_colour: Colour,
    pub highlight_text_colour: Colour,
    /// Name of the address range that is shown.
    pub selected_address_range: String,
    pub data_preview: DataPreviewOptions,
    pub memory_editor_text_style: TextStyleChoice,
    pub memory_editor_address_text_style: TextStyleChoice,
    pub memory_editor_ascii_text_style: TextStyleChoice,
}

impl Clone for MemoryEditorOptions {
    fn clone(&self) -> (copy: Self)
        ensures
            copy == *self,
    {
        MemoryEditorOptions {
            is_open: self.is_open,
            show_ascii: self.show_ascii,
            show_zero_colour: self.show_zero_colour,
            column_count: self.column_count,
            zero_colour: self.zero_colour,
            address_text_colour: self.address_text_colour,
            highlight_text_colour: self.highlight_text_colour,
            selected_address_range: self.selected_address_range.clone(),
            data_preview: self.data_preview,
            memory_editor_text_style: self.memory_editor_text_style,
            memory_editor_address_text_style: self.memory_editor_address_text_style,
            memory_editor_ascii_text_style: self.memory_editor_ascii_text_style,
        }
    }
}

impl MemoryEditorOptions {
    /// The options of a new editor: an open window, sixteen columns, the text
    /// column shown, zero bytes greyed, no range selected, every text in the
    /// monospace style.
    pub open spec fn is_default(self) -> bool {
        &&& self.is_open
        &&& self.show_ascii
        &&& self.show_zero_colour
        &&& self.column_count == 16
        &&& self.zero_colour == (Colour { r: 80, g: 80, b: 80, a: 255 })
        &&& self.address_text_colour == (Colour { r: 125, g: 0, b: 125, a: 255 })
        &&& self.highlight_text_colour == (Colour { r: 0, g: 140, b: 140, a: 255 })
        &&& self.selected_address_range@ == Seq::<char>::empty()
        &&& self.data_preview == (DataPreviewOptions {
            selected_endianness: Endianness::Little,
            selected_data_format: DataFormatType::U32,
        })
        &&& self.memory_editor_text_style == TextStyleChoice::Monospace
        &&& self.memory_editor_address_text_style == TextStyleChoice::Monospace
        &&& self.memory_editor_ascii_text_style == TextStyleChoice::Monospace
    }
}

impl Default for MemoryEditorOptions {
    fn default() -> (options: Self)
        ensures
            options.is_default(),
    {
        MemoryEditorOptions {
            is_open: true,
            show_ascii: true,
            show_zero_colour: true,
            column_count: 16,
            zero_colour: Colour { r: 80, g: 80, b: 80, a: 255 },
            address_text_colour: Colour { r: 125, g: 0, b: 125, a: 255 },
            highlight_text_colour: Colour { r: 0, g: 140, b: 140, a: 255 },
            selected_address_range: String::new(),
            data_preview: DataPreviewOptions {
                selected_endianness: Endianness::Little,
                selected_data_format: DataFormatType::U32,
            },
            memory_editor_text_style: TextStyleChoice::Monospace,
            memory_editor_address_text_style: TextStyleChoice::Monospace,
            memory_editor_ascii_text_style: TextStyleChoice::Monospace,
        }
    }
}

/// The mouse button of a click on a cell.
#[derive(Clone, Copy, Debug, PartialEq, Eq, Structural)]
pub enum MouseButton {
    Primary,
    Secondary,
}

/// The keys that move the cell under edit.
#[derive(Clone, Copy, Debug, PartialEq, Eq, Structural)]
pub enum ArrowKey {
    Left,
    Right,
    Down,
    Up,
}

/// A byte that the host is asked to store.
#[derive(Clone, Copy, Debug, PartialEq, Eq, Structural)]
pub struct WriteRequest {
    pub address: usize,
    pub value: u8,
}

/// The edit and selection state as plain values.
///
/// The editor is idle while `armed` is `None`, and edits the cell at the armed
/// address otherwise; `buffer` holds the digits typed for that cell so far.
pub struct EditState {
    pub armed: Option<usize>,
    pub buffer: Seq<char>,
    pub highlighted: Option<usize>,
    pub request_focus: bool,
    pub goto_line: Option<usize>,
    pub combo_box_enabled: bool,
}

/// The address that an arrow key moves to from `address`, an address of the
/// range: one cell left or right, one row up or down, and never out of the
/// range. A step past either end stops at the first or the last address.
pub open spec fn arrow_target(
    r: Range<usize>,
    column_count: usize,
    address: usize,
    key: ArrowKey,
) -> usize
    recommends
        range_contains(r, address),
{
    match key {
        ArrowKey::Left => if address - 1 < r.start {
            r.start
        } else {
            (address - 1) as usize
        },
        ArrowKey::Up => if address - column_count < r.start {
            r.start
        } else {
            (address - column_count) as usize
        },
        ArrowKey::Right => if address + 1 >= r.end {
            (r.end - 1) as usize
        } else {
            (address + 1) as usize
        },
        ArrowKey::Down => if address + column_count >= r.end {
            (r.end - 1) as usize
        } else {
            (address + column_count) as usize
        },
    }
}

impl EditState {
    /// Whether a cell is under edit.
    pub open spec fn is_editing(self) -> bool {
        self.armed is Some
    }

    /// The buffer holds fewer than two characters, all of them hexadecimal
    /// digits, and is empty while no cell is under edit.
    pub open spec fn wf(self) -> bool {
        &&& self.buffer.len() < 2
        &&& forall|i: int| 0 <= i < self.buffer.len() ==> is_hex_digit(#[trigger] self.buffer[i])
        &&& self.armed is None ==> self.buffer.len() == 0
    }

    /// The state of a new editor.
    pub open spec fn initial() -> EditState {
        EditState {
            armed: None,
            buffer: Seq::empty(),
            highlighted: None,
            request_focus: false,
            goto_line: None,
            combo_box_enabled: false,
        }
    }

    /// Back to idle: what was typed is dropped.
    pub open spec fn disarmed(self) -> EditState {
        EditState { armed: None, buffer: Seq::empty(), request_focus: false, ..self }
    }

    /// The cell at `address` comes under edit, with nothing typed yet, and asks
    /// for the keyboard focus.
    pub open spec fn armed_at(self, address: usize) -> EditState {
        EditState { armed: Some(address), buffer: Seq::empty(), request_focus: true, ..self }
    }

    /// Puts the cell at `target` under edit if the range holds it, and goes
    /// back to idle otherwise.
    pub open spec fn select(self, target: Option<usize>, r: Range<usize>) -> EditState {
        if target is Some && range_contains(r, target.unwrap()) {
            self.armed_at(target.unwrap())
        } else {
            self.disarmed()
        }
    }

    /// The address becomes the highlighted one.
    pub open spec fn highlight(self, address: usize) -> EditState {
        EditState { highlighted: Some(address), ..self }
    }

    /// Start of a frame: an edit ends where the host can no longer write or the
    /// range no longer holds the armed address.
    pub open spec fn revalidated(self, r: Range<usize>, can_write: bool) -> EditState {
        if self.armed is Some && (!can_write || !range_contains(r, self.armed.unwrap())) {
            self.disarmed()
        } else {
            self
        }
    }

    /// A click on the cell at `address`. The secondary button highlights the
    /// cell. The primary button puts it under edit where the host can write,
    /// and highlights it where it cannot.
    pub open spec fn clicked(self, address: usize, button: MouseButton, can_write: bool) -> EditState {
        if button == MouseButton::Primary && can_write {
            self.armed_at(address)
        } else {
            self.highlight(address)
        }
    }

    /// The text of the edit field has become `text`. Characters that are no
    /// hexadecimal digits are dropped. With fewer than two digits the digits
    /// are kept; with two or more the first two are the byte to write.
    pub open spec fn write_of_text(self, text: Seq<char>, r: Range<usize>, can_write: bool) -> Option<
        WriteRequest,
    > {
        let digits = hex_digits_of(text);
        if self.revalidated(r, can_write).armed is Some && digits.len() >= 2 {
            Some(
                WriteRequest {
                    address: self.armed.unwrap(),
                    value: byte_of_digits(digits[0], digits[1]) as u8,
                },
            )
        } else {
            None
        }
    }

    /// The state after the text of the edit field has become `text`: after a
    /// write the next cell is under edit.
    pub open spec fn after_text(self, text: Seq<char>, r: Range<usize>, can_write: bool) -> EditState {
        let digits = hex_digits_of(text);
        let s = self.revalidated(r, can_write);
        if s.armed is None {
            s
        } else if digits.len() >= 2 {
            s.armed_at((s.armed.unwrap() + 1) as usize)
        } else {
            EditState { buffer: digits, ..s }
        }
    }

    /// The edit field has lost the keyboard focus: an edit with fewer than
    /// two digits typed ends without a write.
    pub open spec fn after_focus_lost(self) -> EditState {
        if self.armed is Some && self.buffer.len() < 2 {
            self.disarmed()
        } else {
            self
        }
    }

    /// An arrow key was pressed. Idle, nothing happens. An edit whose cell the
    /// range no longer holds ends. Otherwise the edit moves to the target cell.
    pub open spec fn after_arrow(self, key: ArrowKey, r: Range<usize>, column_count: usize) -> EditState {
        if self.armed is None {
            self
        } else if !range_contains(r, self.armed.unwrap()) {
            self.disarmed()
        } else {
            self.armed_at(arrow_target(r, column_count, self.armed.unwrap(), key))
        }
    }

    /// Whether the address is the highlighted one.
    pub open spec fn is_highlighted(self, address: usize) -> bool {
        self.highlighted == Some(address)
    }

    /// Whether the address is one of the `span` bytes that start at the
    /// highlighted address.
    pub open spec fn is_subtly_highlighted(self, address: usize, span: usize) -> bool {
        self.highlighted is Some && self.highlighted.unwrap() <= address
            < self.highlighted.unwrap() + span
    }
}

/// Two hexadecimal digits typed into a cell under edit, with nothing typed
/// before, give exactly one write: none on the first digit, and on the second
/// one of the byte that the two digits spell, to the address of the cell. The
/// cell after it is then under edit.
pub proof fn lemma_two_digits_write_once(
    s: EditState,
    first: char,
    second: char,
    r: Range<usize>,
)
    requires
        s.armed is Some,
        range_contains(r, s.armed.unwrap()),
        s.buffer.len() == 0,
        is_hex_digit(first),
        is_hex_digit(second),
    ensures
        ({
            let mid = s.after_text(s.buffer.push(first), r, true);
            &&& s.write_of_text(s.buffer.push(first), r, true) is None
            &&& mid == (EditState { buffer: seq![first], ..s })
            &&& mid.write_of_text(mid.buffer.push(second), r, true) == Some(
                WriteRequest {
                    address: s.armed.unwrap(),
                    value: byte_of_digits(first, second) as u8,
                },
            )
            &&& 0 <= byte_of_digits(first, second) < 256
            &&& mid.after_text(mid.buffer.push(second), r, true) == s.armed_at(
                (s.armed.unwrap() + 1) as usize,
            )
        }),
{
    let one = s.buffer.push(first);
    assert(one =~= seq![first]);
    lemma_hex_digits_of_digits(one);
    let two = one.push(second);
    lemma_hex_digits_of_digits(two);
    let mid = s.after_text(one, r, true);
    assert(mid.buffer == one);
}

/// A character that is no hexadecimal digit, typed into a cell under edit,
/// changes neither the buffer nor anything else, and gives no write.
pub proof fn lemma_other_character_ignored(s: EditState, c: char, r: Range<usize>, can_write: bool)
    requires
        s.wf(),
        !is_hex_digit(c),
    ensures
        s.write_of_text(s.buffer.push(c), r, can_write) is None,
        s.after_text(s.buffer.push(c), r, can_write) == s.revalidated(r, can_write),
        s.armed is Some && can_write && range_contains(r, s.armed.unwrap()) ==> s.after_text(
            s.buffer.push(c),
            r,
            can_write,
        ) == s,
{
    lemma_hex_digits_push(s.buffer, c);
    lemma_hex_digits_of_digits(s.buffer);
    let after = s.after_text(s.buffer.push(c), r, can_write);
    let base = s.revalidated(r, can_write);
    if base.armed is Some {
        assert(after.buffer == s.buffer);
        assert(base == s);
    }
}

/// The arrow keys never leave the range.
pub proof fn lemma_arrow_stays_in_range(
    r: Range<usize>,
    column_count: usize,
    address: usize,
    key: ArrowKey,
)
    requires
        range_contains(r, address),
    ensures
        range_contains(r, arrow_target(r, column_count, address, key)),
{
}

/// "Up" from a cell of the first row goes to the first address of the range.
pub proof fn lemma_up_from_first_row(s: EditState, r: Range<usize>, column_count: usize)
    requires
        s.armed is Some,
        range_contains(r, s.armed.unwrap()),
        s.armed.unwrap() - r.start < column_count,
    ensures
        s.after_arrow(ArrowKey::Up, r, column_count) == s.armed_at(r.start),
{
}

/// Where the host cannot write, a click with either button highlights the
/// cell and changes nothing else: no click starts an edit, and a frame that
/// starts without the means to write has no cell under edit.
pub proof fn lemma_read_only_click(
    s: EditState,
    address: usize,
    button: MouseButton,
    r: Range<usize>,
)
    ensures
        s.clicked(address, button, false) == (EditState { highlighted: Some(address), ..s }),
        !s.is_editing() ==> !s.clicked(address, button, false).is_editing(),
        !s.revalidated(r, false).is_editing(),
        !s.revalidated(r, false).clicked(address, button, false).is_editing(),
{
}

/// Every transition keeps the buffer short and made of hexadecimal digits.
pub proof fn lemma_transitions_keep_wf(
    s: EditState,
    address: usize,
    button: MouseButton,
    key: ArrowKey,
    text: Seq<char>,
    r: Range<usize>,
    column_count: usize,
    can_write: bool,
)
    requires
        s.wf(),
    ensures
        s.clicked(address, button, can_write).wf(),
        s.after_text(text, r, can_write).wf(),
        s.after_arrow(key, r, column_count).wf(),
        s.after_focus_lost().wf(),
        s.revalidated(r, can_write).wf(),
        s.select(Some(address), r).wf(),
        EditState::initial().wf(),
{
    lemma_hex_digits_are_digits(text);
}

/// The state that the editor keeps between frames: the cell under edit and what
/// was typed for it, the highlighted cell, and the requests that the next frame
/// takes up once.
#[derive(Debug)]
pub struct BetweenFrameData {
    selected_edit_address: Option<usize>,
    selected_edit_address_string: Vec<char>,
    selected_highlight_address: Option<usize>,
    selected_edit_address_request_focus: bool,
    goto_address_line: Option<usize>,
    memory_range_combo_box_enabled: bool,
}

impl View for BetweenFrameData {
    type V = EditState;

    closed spec fn view(&self) -> EditState {
        EditState {
            armed: self.selected_edit_address,
            buffer: self.selected_edit_address_string@,
            highlighted: self.selected_highlight_address,
            request_focus: self.selected_edit_address_request_focus,
            goto_line: self.goto_address_line,
            combo_box_enabled: self.memory_range_combo_box_enabled,
        }
    }
}

impl Clone for BetweenFrameData {
    fn clone(&self) -> (copy: Self)
        ensures
            copy@ == self@,
    {
        BetweenFrameData {
            selected_edit_address: self.selected_edit_address,
            selected_edit_address_string: self.selected_edit_address_string.clone(),
            selected_highlight_address: self.selected_highlight_address,
            selected_edit_address_request_focus: self.selected_edit_address_request_focus,
            goto_address_line: self.goto_address_line,
            memory_range_combo_box_enabled: self.memory_range_combo_box_enabled,
        }
    }
}

impl Default for BetweenFrameData {
    fn default() -> (data: Self)
        ensures
            data@ == EditState::initial(),
    {
        BetweenFrameData {
            selected_edit_address: None,
            selected_edit_address_string: Vec::new(),
            selected_highlight_address: None,
            selected_edit_address_request_focus: false,
            goto_address_line: None,
            memory_range_combo_box_enabled: false,
        }
    }
}

impl BetweenFrameData {
    /// The address of the cell under edit, `None` while idle.
    pub fn selected_edit_address(&self) -> (a: Option<usize>)
        ensures
            a == self@.armed,
    {
        self.selected_edit_address
    }

    /// The digits typed so far for the cell under edit.
    pub fn edit_buffer(&self) -> (buffer: &Vec<char>)
        ensures
            buffer@ == self@.buffer,
    {
        &self.selected_edit_address_string
    }

    /// The highlighted address.
    pub fn highlighted_address(&self) -> (a: Option<usize>)
        ensures
            a == self@.highlighted,
    {
        self.selected_highlight_address
    }

    /// Whether the edit field is to get the keyboard focus in this frame.
    pub fn request_focus(&self) -> (b: bool)
        ensures
            b == self@.request_focus,
    {
        self.selected_edit_address_request_focus
    }

    /// The line that the next frame is to scroll to.
    pub fn goto_line(&self) -> (line: Option<usize>)
        ensures
            line == self@.goto_line,
    {
        self.goto_address_line
    }

    /// Whether the host offers a choice between address ranges.
    pub fn combo_box_enabled(&self) -> (b: bool)
        ensures
            b == self@.combo_box_enabled,
    {
        self.memory_range_combo_box_enabled
    }

    /// Says whether the host offers a choice between address ranges.
    pub fn set_combo_box_enabled(&mut self, enabled: bool)
        ensures
            final(self)@ == (EditState { combo_box_enabled: enabled, ..old(self)@ }),
    {
        self.memory_range_combo_box_enabled = enabled;
    }

    /// Asks the next frame to scroll to a line.
    pub fn set_goto_line(&mut self, line: usize)
        ensures
            final(self)@ == (EditState { goto_line: Some(line), ..old(self)@ }),
    {
        self.goto_address_line = Some(line);
    }

    /// Takes the scroll request: it is handed out once, and only if the range
    /// holds the line.
    pub fn take_goto_line(&mut self, address_space: &Range<usize>) -> (line: Option<usize>)
        ensures
            final(self)@ == (EditState { goto_line: None, ..old(self)@ }),
            line == if old(self)@.goto_line is Some && range_contains(
                *address_space,
                old(self)@.goto_line.unwrap(),
            ) {
                old(self)@.goto_line
            } else {
                None
            },
    {
        let pending = self.goto_address_line;
        self.goto_address_line = None;
        match pending {
            Some(line) => if in_range(address_space, line) {
                Some(line)
            } else {
                None
            },
            None => None,
        }
    }

    /// Takes the request for the keyboard focus: it is handed out once.
    pub fn take_request_focus(&mut self) -> (requested: bool)
        ensures
            requested == old(self)@.request_focus,
            final(self)@ == (EditState { request_focus: false, ..old(self)@ }),
    {
        let requested = self.selected_edit_address_request_focus;
        self.selected_edit_address_request_focus = false;
        requested
    }

    /// Makes an address the highlighted one.
    pub fn set_highlight_address(&mut self, address: usize)
        ensures
            final(self)@ == old(self)@.highlight(address),
    {
        self.selected_highlight_address = Some(address);
    }

    /// Whether the address is the highlighted one.
    pub fn should_highlight(&self, address: usize) -> (b: bool)
        ensures
            b == self@.is_highlighted(address),
    {
        match self.selected_highlight_address {
            Some(a) => a == address,
            None => false,
        }
    }

    /// Whether the address belongs to the value that starts at the highlighted
    /// address, in the given format.
    pub fn should_subtle_highlight(&self, address: usize, data_format: DataFormatType) -> (b: bool)
        ensures
            b == self@.is_subtly_highlighted(address, data_format.spec_bytes_to_read()),
    {
        match self.selected_highlight_address {
            Some(a) => address >= a && address - a < data_format.bytes_to_read(),
            None => false,
        }
    }

    /// Puts the cell at `new_address` under edit if the range holds it, and
    /// ends the edit otherwise. What was typed is dropped either way.
    pub fn set_selected_edit_address(
        &mut self,
        new_address: Option<usize>,
        address_space: &Range<usize>,
    )
        ensures
            final(self)@ == old(self)@.select(new_address, *address_space),
            final(self)@.wf(),
    {
        self.selected_edit_address_string = Vec::new();
        match new_address {
            Some(a) => {
                if in_range(address_space, a) {
                    self.selected_edit_address = Some(a);
                    self.selected_edit_address_request_focus = true;
                } else {
                    self.selected_edit_address = None;
                    self.selected_edit_address_request_focus = false;
                }
            },
            None => {
                self.selected_edit_address = None;
                self.selected_edit_address_request_focus = false;
            },
        }
    }

    /// Start of a frame: ends the edit where the host cannot write in this
    /// frame or the range no longer holds the cell under edit.
    pub fn revalidate(&mut self, address_space: &Range<usize>, can_write: bool)
        ensures
            final(self)@ == old(self)@.revalidated(*address_space, can_write),
            old(self)@.wf() ==> final(self)@.wf(),
    {
        match self.selected_edit_address {
            Some(a) => {
                if !can_write || !in_range(address_space, a) {
                    self.selected_edit_address = None;
                    self.selected_edit_address_string = Vec::new();
                    self.selected_edit_address_request_focus = false;
                }
            },
            None => {},
        }
    }

    /// A click on the cell at `address`.
    pub fn click(&mut self, address: usize, button: MouseButton, can_write: bool)
        ensures
            final(self)@ == old(self)@.clicked(address, button, can_write),
            old(self)@.wf() ==> final(self)@.wf(),
    {
        match button {
            MouseButton::Primary => {
                if can_write {
                    self.selected_edit_address = Some(address);
                    self.selected_edit_address_string = Vec::new();
                    self.selected_edit_address_request_focus = true;
                } else {
                    self.selected_highlight_address = Some(address);
                }
            },
            MouseButton::Secondary => {
                self.selected_highlight_address = Some(address);
            },
        }
    }

    /// The text of the edit field has become `text`. Returns the byte to write
    /// once two hexadecimal digits stand in it; the edit then moves on to the
    /// next cell. The host performs the write.
    pub fn edit_chars(&mut self, text: &Vec<char>, address_space: &Range<usize>, can_write: bool) -> (write:
        Option<WriteRequest>)
        ensures
            write == old(self)@.write_of_text(text@, *address_space, can_write),
            final(self)@ == old(self)@.after_text(text@, *address_space, can_write),
            old(self)@.wf() ==> final(self)@.wf(),
    {
        self.revalidate(address_space, can_write);
        let address: usize = match self.selected_edit_address {
            Some(a) => a,
            None => {
                return None;
            },
        };
        let digits = retain_hex_digits(text);
        if digits.len() >= 2 {
            match parse_hex_byte(digits[0], digits[1]) {
                Some(value) => {
                    self.selected_edit_address = Some(address + 1);
                    self.selected_edit_address_string = Vec::new();
                    self.selected_edit_address_request_focus = true;
                    Some(WriteRequest { address, value })
                },
                None => None,
            }
        } else {
            self.selected_edit_address_string = digits;
            None
        }
    }

    /// As [`Self::edit_chars`], for a text held in a string.
    pub fn edit_text(&mut self, text: &str, address_space: &Range<usize>, can_write: bool) -> (write:
        Option<WriteRequest>)
        ensures
            write == old(self)@.write_of_text(text@, *address_space, can_write),
            final(self)@ == old(self)@.after_text(text@, *address_space, can_write),
            old(self)@.wf() ==> final(self)@.wf(),
    {
        let chars = chars_of(text);
        self.edit_chars(&chars, address_space, can_write)
    }

    /// One more character was typed into the edit field.
    pub fn type_char(&mut self, c: char, address_space: &Range<usize>, can_write: bool) -> (write:
        Option<WriteRequest>)
        ensures
            write == old(self)@.write_of_text(old(self)@.buffer.push(c), *address_space, can_write),
            final(self)@ == old(self)@.after_text(
                old(self)@.buffer.push(c),
                *address_space,
                can_write,
            ),
            old(self)@.wf() ==> final(self)@.wf(),
    {
        let mut text = self.selected_edit_address_string.clone();
        text.push(c);
        self.edit_chars(&text, address_space, can_write)
    }

    /// The edit field has lost the keyboard focus.
    pub fn focus_lost(&mut self)
        ensures
            final(self)@ == old(self)@.after_focus_lost(),
            old(self)@.wf() ==> final(self)@.wf(),
    {
        if self.selected_edit_address.is_some() && self.selected_edit_address_string.len() < 2 {
            self.selected_edit_address = None;
            self.selected_edit_address_string = Vec::new();
            self.selected_edit_address_request_focus = false;
        }
    }

    /// An arrow key was pressed.
    pub fn arrow_key(&mut self, key: ArrowKey, address_space: &Range<usize>, column_count: usize)
        ensures
            final(self)@ == old(self)@.after_arrow(key, *address_space, column_count),
            old(self)@.wf() ==> final(self)@.wf(),
    {
        let address: usize = match self.selected_edit_address {
            Some(a) => a,
            None => {
                return ;
            },
        };
        if !in_range(address_space, address) {
            self.set_selected_edit_address(None, address_space);
            return ;
        }
        let start: usize = address_space.start;
        let last: usize = address_space.end - 1;
        let target: usize = match key {
            ArrowKey::Left => if address == start {
                start
            } else {
                address - 1
            },
            ArrowKey::Up => if address - start < column_count {
                start
            } else {
                address - column_count
            },
            ArrowKey::Right => if address == last {
                last
            } else {
                address + 1
            },
            ArrowKey::Down => if last - address <= column_count {
                last
            } else {
                address + column_count
            },
        };
        self.set_selected_edit_address(Some(target), address_space);
    }
}

} // verus!
