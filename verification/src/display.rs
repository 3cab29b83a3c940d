//! The volume display: what it remembers, when it counts as changed, and
//! what a frame consists of.
//!
//! The panel itself is not held here. A [`DisplayState`] is told the panel's
//! bounding box once and from then on answers with [`DisplayCommand`]s, which
//! the caller carries out on the panel in the order given.
use vstd::prelude::*;
use crate::geometry::{anchor_point, anchor_x, center_offset, Anchor, Point, Rectangle, Size};
use crate::globals::INPUT_COUNT;
use crate::scaler::{scale_to_range, scaled};
use crate::text::{decimal, empty_text, lemma_decimal_len, push_ascii, push_decimal, text_bytes};

verus! {

/// Height of a volume bar in pixels.
pub const VOL_BAR_HEIGHT: u32 = 7;

/// Width of a full volume bar in pixels.
pub const VOL_BAR_WIDTH: u32 = 80;

/// Distance from the top of the panel to the baseline of the first row.
pub const VOL_VALUE_Y_OFFSET: i32 = 22;

/// Distance between the baselines of two rows.
pub const LINE_SPACING: i32 = 12;

/// Distance from the left of the panel to the bars.
pub const VOL_BAR_X_OFFSET: i32 = 45;

/// Distance from the left of the panel to the row labels.
pub const LABEL_X_OFFSET: i32 = 2;

/// Distance from the top of the panel to the baseline of the title.
pub const TITLE_Y_OFFSET: i32 = 8;

/// Distance from the top of the panel to the baseline of the last row.
pub const LAST_ROW_Y_OFFSET: i32 = 58;

/// Number of commands in a frame: four around the rows, three for each row.
pub const FRAME_COMMANDS: usize = 16;

/// The ASCII colon that follows a row's number.
pub const COLON: u8 = 58;

/// The ASCII space between the colon and the volume.
pub const SPACE: u8 = 32;

/// Whether new volumes made a visible difference.
#[derive(Clone, Copy, Debug, PartialEq, Eq, Structural)]
pub enum DisplayStatus {
    Changed,
    NotChanged,
}

/// One operation on the panel.
#[derive(Debug, PartialEq, Eq)]
#[allow(inconsistent_fields)]
pub enum DisplayCommand<'a> {
    /// Switch the panel on or off; the frame buffer is left alone.
    Power(bool),
    /// Blank the frame buffer.
    Clear,
    /// Draw the title in bold, centred on `position`. Without a text nothing
    /// is drawn.
    Title { text: Option<&'a str>, position: Point },
    /// Draw a row label in the regular font, starting at `position`.
    Label { text: heapless::String<32>, position: Point },
    /// Draw the one pixel wide outline of a bar and blank its inside.
    BarOutline(Rectangle),
    /// Fill the lit part of a bar.
    BarFill(Rectangle),
    /// Send the frame buffer to the panel.
    Flush,
}

/// A [`DisplayCommand`] with its texts as sequences.
#[allow(inconsistent_fields)]
pub enum CommandView {
    Power(bool),
    Clear,
    Title { text: Option<Seq<char>>, position: Point },
    Label { text: Seq<u8>, position: Point },
    BarOutline(Rectangle),
    BarFill(Rectangle),
    Flush,
}

impl<'a> View for DisplayCommand<'a> {
    type V = CommandView;

    open spec fn view(&self) -> CommandView {
        match *self {
            DisplayCommand::Power(on) => CommandView::Power(on),
            DisplayCommand::Clear => CommandView::Clear,
            DisplayCommand::Title { text, position } => CommandView::Title {
                text: title_view(text),
                position,
            },
            DisplayCommand::Label { text, position } => CommandView::Label {
                text: text_bytes(text),
                position,
            },
            DisplayCommand::BarOutline(area) => CommandView::BarOutline(area),
            DisplayCommand::BarFill(area) => CommandView::BarFill(area),
            DisplayCommand::Flush => CommandView::Flush,
        }
    }
}

/// The characters of an optional title.
pub open spec fn title_view(title: Option<&str>) -> Option<Seq<char>> {
    match title {
        Some(text) => Some(text@),
        None => None,
    }
}

/// The views of a run of commands, in the same order.
pub open spec fn commands_view(commands: Seq<DisplayCommand>) -> Seq<CommandView> {
    Seq::new(commands.len(), |i: int| commands[i]@)
}

/// What a [`DisplayState`] holds.
pub struct DisplayStateView {
    /// The title, if one is shown.
    pub title: Option<Seq<char>>,
    /// Where the title is centred.
    pub title_position: Point,
    /// The volume last accepted for each channel.
    pub volumes: Seq<u16>,
    /// Whether drawing has been allowed.
    pub ready: bool,
    /// The top left corner of the panel.
    pub top_left: Point,
}

/// Whether a new volume is far enough from the stored one to replace it:
/// they differ by more than one.
pub open spec fn differs(stored: u16, new: u16) -> bool {
    new - stored > 1 || stored - new > 1
}

/// The stored volumes after new ones were offered: each channel takes the new
/// volume where it differs from the stored one and keeps the stored one
/// elsewhere.
pub open spec fn merged(stored: Seq<u16>, new: Seq<u16>) -> Seq<u16> {
    Seq::new(
        stored.len(),
        |i: int|
            if differs(stored[i], new[i]) {
                new[i]
            } else {
                stored[i]
            },
    )
}

/// Whether some channel's new volume differs from the stored one.
pub open spec fn any_differs(stored: Seq<u16>, new: Seq<u16>) -> bool {
    exists|i: int| 0 <= i < stored.len() && differs(#[trigger] stored[i], new[i])
}

/// Offering the same volumes a second time changes nothing: after the first
/// offer no channel differs from them any more.
pub proof fn lemma_same_volumes_twice(stored: Seq<u16>, new: Seq<u16>)
    requires
        stored.len() == new.len(),
    ensures
        !any_differs(merged(stored, new), new),
        merged(merged(stored, new), new) == merged(stored, new),
{
    let once = merged(stored, new);
    assert forall|i: int| 0 <= i < once.len() implies !differs(#[trigger] once[i], new[i]) by {}
    assert(merged(once, new) =~= once);
}

/// Volumes that differ nowhere leave the stored ones as they are.
pub proof fn lemma_unchanged_keeps_volumes(stored: Seq<u16>, new: Seq<u16>)
    requires
        !any_differs(stored, new),
    ensures
        merged(stored, new) == stored,
{
    assert forall|i: int| 0 <= i < stored.len() implies merged(stored, new)[i] == stored[i] by {
        assert(!differs(stored[i], new[i]));
    }
    assert(merged(stored, new) =~= stored);
}

/// Whether the rows and the title fit around a panel with this bounding box
/// without leaving the range of pixel coordinates.
pub open spec fn layout_fits(bounding_box: Rectangle) -> bool {
    &&& bounding_box.top_left.x + VOL_BAR_X_OFFSET <= i32::MAX
    &&& bounding_box.top_left.x + center_offset(bounding_box.size.width) <= i32::MAX
    &&& bounding_box.top_left.y + LAST_ROW_Y_OFFSET <= i32::MAX
}

/// Whether the rows placed from this corner stay within the range of pixel
/// coordinates. Every [`DisplayState`] has such a corner.
pub open spec fn rows_fit(top_left: Point) -> bool {
    &&& top_left.x + VOL_BAR_X_OFFSET <= i32::MAX
    &&& top_left.y + LAST_ROW_Y_OFFSET <= i32::MAX
}

/// Where the title of a panel with this bounding box is centred.
pub open spec fn title_position_of(bounding_box: Rectangle) -> Point {
    Point {
        x: anchor_x(bounding_box, Anchor::TopCenter) as i32,
        y: (bounding_box.top_left.y + TITLE_Y_OFFSET) as i32,
    }
}

/// The text of a row: the channel's number, a colon, a space, the volume.
pub open spec fn label(channel: nat, volume: u16) -> Seq<u8> {
    decimal(channel) + seq![COLON, SPACE] + decimal(volume as nat)
}

/// Where the label of a channel's row starts.
pub open spec fn label_position(top_left: Point, channel: int) -> Point {
    Point {
        x: (top_left.x + LABEL_X_OFFSET) as i32,
        y: (top_left.y + VOL_VALUE_Y_OFFSET + LINE_SPACING * channel) as i32,
    }
}

/// The top left corner of a channel's bar.
pub open spec fn bar_position(top_left: Point, channel: int) -> Point {
    Point {
        x: (top_left.x + VOL_BAR_X_OFFSET) as i32,
        y: (top_left.y + VOL_VALUE_Y_OFFSET - VOL_BAR_HEIGHT + LINE_SPACING * channel) as i32,
    }
}

/// The lit width of a bar: the volume as a percentage of the bar's width,
/// rounded down; volumes over 100 light the whole bar.
pub open spec fn fill_width(volume: u16) -> u32 {
    scaled(volume as int, 0, 100, 0, VOL_BAR_WIDTH as int) as u32
}

/// The three commands that draw one channel's row: label, outline, fill.
pub open spec fn row(state: DisplayStateView, channel: int) -> Seq<CommandView> {
    seq![
        CommandView::Label {
            text: label(channel as nat, state.volumes[channel]),
            position: label_position(state.top_left, channel),
        },
        CommandView::BarOutline(
            Rectangle {
                top_left: bar_position(state.top_left, channel),
                size: Size { width: VOL_BAR_WIDTH, height: VOL_BAR_HEIGHT },
            },
        ),
        CommandView::BarFill(
            Rectangle {
                top_left: bar_position(state.top_left, channel),
                size: Size { width: fill_width(state.volumes[channel]), height: VOL_BAR_HEIGHT },
            },
        ),
    ]
}

/// The commands of a whole frame: light the panel, blank the buffer, draw the
/// title, draw the rows from the first channel to the last, send the buffer.
pub open spec fn frame(state: DisplayStateView) -> Seq<CommandView> {
    seq![
        CommandView::Power(true),
        CommandView::Clear,
        CommandView::Title { text: state.title, position: state.title_position },
    ] + row(state, 0) + row(state, 1) + row(state, 2) + row(state, 3) + seq![CommandView::Flush]
}

/// Every frame has [`FRAME_COMMANDS`] commands; it starts by lighting the
/// panel and blanking the buffer and ends by sending the buffer.
pub proof fn lemma_frame_shape(state: DisplayStateView)
    ensures
        frame(state).len() == FRAME_COMMANDS,
        frame(state)[0] == CommandView::Power(true),
        frame(state)[1] == CommandView::Clear,
        frame(state)[FRAME_COMMANDS - 1] == CommandView::Flush,
{
}

/// No bar is lit beyond its outline.
pub proof fn lemma_fill_within_bar(volume: u16)
    ensures
        fill_width(volume) <= VOL_BAR_WIDTH,
        volume == 0 ==> fill_width(volume) == 0,
        volume >= 100 ==> fill_width(volume) == VOL_BAR_WIDTH,
{
    crate::scaler::lemma_scaled_in_range(volume as int, 0, 100, 0, VOL_BAR_WIDTH as int);
    crate::scaler::lemma_scaled_endpoints(0, 100, 0, VOL_BAR_WIDTH as int);
}

/// The text of a row, in a fresh buffer.
pub fn volume_label(channel: u16, volume: u16) -> (text: heapless::String<32>)
    ensures
        text_bytes(text) == label(channel as nat, volume),
{
    proof {
        lemma_decimal_len(channel as nat);
        lemma_decimal_len(volume as nat);
    }
    let mut text = empty_text();
    push_decimal(&mut text, channel);
    push_ascii(&mut text, COLON);
    push_ascii(&mut text, SPACE);
    assert(text_bytes(text) =~= decimal(channel as nat) + seq![COLON, SPACE]);
    push_decimal(&mut text, volume);
    text
}

/// The distance between two volumes.
fn distance(a: u16, b: u16) -> (d: u16)
    ensures
        d > 1 <==> differs(a, b),
    no_unwind
{
    if a > b {
        a - b
    } else {
        b - a
    }
}

/// Whether [`DisplayState::new`] accepts this bounding box.
pub fn fits_layout(bounding_box: &Rectangle) -> (fits: bool)
    ensures
        fits == layout_fits(*bounding_box),
{
    let width: u32 = bounding_box.size.width;
    let capped: u32 = if width > 0x7fff_ffff { 0x7fff_ffff } else { width };
    let filled: u32 = if capped < 1 { 1 } else { capped };
    let to_center: i64 = ((filled - 1) / 2) as i64;
    let left: i64 = bounding_box.top_left.x as i64;
    let top: i64 = bounding_box.top_left.y as i64;
    left + VOL_BAR_X_OFFSET as i64 <= 0x7fff_ffff && left + to_center <= 0x7fff_ffff && top
        + LAST_ROW_Y_OFFSET as i64 <= 0x7fff_ffff
}

/// What the panel shows: the volume of each channel and an optional title,
/// behind a gate that holds drawing back until the caller is ready.
pub struct DisplayState<'a> {
    title: Option<&'a str>,
    title_position: Point,
    volumes: [u16; INPUT_COUNT],
    ready_to_draw: bool,
    top_left_point: Point,
}

impl<'a> View for DisplayState<'a> {
    type V = DisplayStateView;

    closed spec fn view(&self) -> DisplayStateView {
        DisplayStateView {
            title: title_view(self.title),
            title_position: self.title_position,
            volumes: self.volumes@,
            ready: self.ready_to_draw,
            top_left: self.top_left_point,
        }
    }
}

impl<'a> DisplayState<'a> {
    /// The rows below the top left corner stay within the range of pixel
    /// coordinates.
    #[verifier::type_invariant]
    spec fn well_placed(&self) -> bool {
        rows_fit(self.top_left_point)
    }

    /// A display for a panel with the given bounding box: no title, all
    /// volumes zero, drawing not yet allowed.
    ///
    /// The layout hangs on the top edge of the box: rows are placed from its
    /// top left corner, the title under the middle of the edge.
    pub fn new(bounding_box: Rectangle) -> (state: Self)
        requires
            layout_fits(bounding_box),
        ensures
            state@ == (DisplayStateView {
                title: None,
                title_position: title_position_of(bounding_box),
                volumes: seq![0u16, 0u16, 0u16, 0u16],
                ready: false,
                top_left: bounding_box.top_left,
            }),
    {
        let top_left_point = anchor_point(bounding_box, Anchor::TopLeft);
        let title_position = anchor_point(bounding_box, Anchor::TopCenter).offset(0, TITLE_Y_OFFSET);
        let state = DisplayState {
            title: None,
            title_position,
            volumes: [0, 0, 0, 0],
            ready_to_draw: false,
            top_left_point,
        };
        assert(state.volumes@ =~= seq![0u16, 0u16, 0u16, 0u16]);
        state
    }

    /// As [`DisplayState::new`], with the given volumes on display from the
    /// start.
    pub fn with_volumes(bounding_box: Rectangle, volumes: [u16; INPUT_COUNT]) -> (state: Self)
        requires
            layout_fits(bounding_box),
        ensures
            state@ == (DisplayStateView {
                title: None,
                title_position: title_position_of(bounding_box),
                volumes: volumes@,
                ready: false,
                top_left: bounding_box.top_left,
            }),
    {
        let top_left_point = anchor_point(bounding_box, Anchor::TopLeft);
        let title_position = anchor_point(bounding_box, Anchor::TopCenter).offset(0, TITLE_Y_OFFSET);
        DisplayState { title: None, title_position, volumes, ready_to_draw: false, top_left_point }
    }

    /// Allows drawing. Until this is called [`DisplayState::draw`] refuses.
    pub fn ready(&mut self)
        ensures
            final(self)@ == (DisplayStateView { ready: true, ..old(self)@ }),
    {
        proof {
            use_type_invariant(&*self);
        }
        self.ready_to_draw = true;
    }

    /// Shows `title` above the rows from the next frame on.
    pub fn set_title(&mut self, title: &'a str)
        ensures
            final(self)@ == (DisplayStateView { title: Some(title@), ..old(self)@ }),
    {
        proof {
            use_type_invariant(&*self);
        }
        self.title = Some(title);
    }

    /// Shows no title from the next frame on.
    pub fn disable_title(&mut self)
        ensures
            final(self)@ == (DisplayStateView { title: None, ..old(self)@ }),
    {
        proof {
            use_type_invariant(&*self);
        }
        self.title = None;
    }

    /// Offers new volumes, in percent, one for each channel.
    ///
    /// A channel takes its new volume only where that differs from the one on
    /// display by more than one, so that jitter of a single percent causes no
    /// redraw. The answer is `Changed` exactly when some channel took its new
    /// volume.
    pub fn set_volumes(&mut self, volumes: &[u16; INPUT_COUNT]) -> (status: DisplayStatus)
        ensures
            final(self)@ == (DisplayStateView {
                volumes: merged(old(self)@.volumes, volumes@),
                ..old(self)@
            }),
            status is Changed <==> any_differs(old(self)@.volumes, volumes@),
        no_unwind
    {
        proof {
            use_type_invariant(&*self);
        }
        let ghost stored = self.volumes@;
        let mut changed = false;
        let mut idx: usize = 0;
        while idx < INPUT_COUNT
            invariant
                idx <= INPUT_COUNT,
                stored.len() == INPUT_COUNT,
                self.title == old(self).title,
                self.title_position == old(self).title_position,
                self.ready_to_draw == old(self).ready_to_draw,
                self.top_left_point == old(self).top_left_point,
                self.well_placed(),
                forall|i: int| 0 <= i < idx ==> self.volumes@[i] == merged(stored, volumes@)[i],
                forall|i: int| idx <= i < INPUT_COUNT ==> self.volumes@[i] == stored[i],
                changed <==> exists|i: int| 0 <= i < idx && differs(#[trigger] stored[i], volumes@[i]),
            decreases INPUT_COUNT - idx,
        {
            let vol = volumes[idx];
            assert(self.volumes@[idx as int] == stored[idx as int]);
            if distance(self.volumes[idx], vol) > 1 {
                self.volumes[idx] = vol;
                changed = true;
                assert(differs(stored[idx as int], volumes@[idx as int]));
            }
            idx += 1;
        }
        assert(self.volumes@ =~= merged(stored, volumes@));
        if changed {
            DisplayStatus::Changed
        } else {
            DisplayStatus::NotChanged
        }
    }

    /// The commands that draw the label of a channel's row.
    fn label_command(&self, channel: usize) -> (command: DisplayCommand<'a>)
        requires
            channel < INPUT_COUNT,
        ensures
            command@ == row(self@, channel as int)[0],
    {
        proof {
            use_type_invariant(self);
        }
        let down: i32 = VOL_VALUE_Y_OFFSET + LINE_SPACING * channel as i32;
        DisplayCommand::Label {
            text: volume_label(channel as u16, self.volumes[channel]),
            position: self.top_left_point.offset(LABEL_X_OFFSET, down),
        }
    }

    /// The top left corner of a channel's bar.
    fn bar_corner(&self, channel: usize) -> (corner: Point)
        requires
            channel < INPUT_COUNT,
        ensures
            corner == bar_position(self@.top_left, channel as int),
    {
        proof {
            use_type_invariant(self);
        }
        let down: i32 = VOL_VALUE_Y_OFFSET - VOL_BAR_HEIGHT as i32 + LINE_SPACING * channel as i32;
        self.top_left_point.offset(VOL_BAR_X_OFFSET, down)
    }

    /// The command that draws the outline of a channel's bar.
    fn outline_command(&self, channel: usize) -> (command: DisplayCommand<'a>)
        requires
            channel < INPUT_COUNT,
        ensures
            command@ == row(self@, channel as int)[1],
    {
        DisplayCommand::BarOutline(
            Rectangle {
                top_left: self.bar_corner(channel),
                size: Size { width: VOL_BAR_WIDTH, height: VOL_BAR_HEIGHT },
            },
        )
    }

    /// The command that lights a channel's bar up to its volume.
    fn fill_command(&self, channel: usize) -> (command: DisplayCommand<'a>)
        requires
            channel < INPUT_COUNT,
        ensures
            command@ == row(self@, channel as int)[2],
    {
        let fill_val = scale_to_range(self.volumes[channel], 0, 100, 0, VOL_BAR_WIDTH as u16);
        DisplayCommand::BarFill(
            Rectangle {
                top_left: self.bar_corner(channel),
                size: Size { width: fill_val as u32, height: VOL_BAR_HEIGHT },
            },
        )
    }

    /// The commands of the next frame, or `Err` while drawing has not been
    /// allowed.
    ///
    /// Carried out in order, the commands light the panel, blank the frame
    /// buffer, draw the title if there is one, then for each channel its
    /// label, the outline of its bar and the lit part of the bar, and at last
    /// send the buffer to the panel.
    pub fn draw(&self) -> (commands: Result<[DisplayCommand<'a>; FRAME_COMMANDS], ()>)
        ensures
            commands is Ok <==> self@.ready,
            commands matches Ok(list) ==> commands_view(list@) == frame(self@),
            rows_fit(self@.top_left),
    {
        proof {
            use_type_invariant(self);
        }
        if !self.ready_to_draw {
            return Err(());
        }
        let list = [
            self.turn_on(),
            DisplayCommand::Clear,
            DisplayCommand::Title { text: self.title, position: self.title_position },
            self.label_command(0),
            self.outline_command(0),
            self.fill_command(0),
            self.label_command(1),
            self.outline_command(1),
            self.fill_command(1),
            self.label_command(2),
            self.outline_command(2),
            self.fill_command(2),
            self.label_command(3),
            self.outline_command(3),
            self.fill_command(3),
            DisplayCommand::Flush,
        ];
        assert(commands_view(list@) =~= frame(self@));
        Ok(list)
    }

    /// The volume on display for each channel.
    pub fn volumes(&self) -> (volumes: [u16; INPUT_COUNT])
        ensures
            volumes@ == self@.volumes,
    {
        self.volumes
    }

    /// Whether drawing has been allowed.
    pub fn is_ready(&self) -> (ready: bool)
        ensures
            ready == self@.ready,
    {
        self.ready_to_draw
    }

    /// The title, if one is shown.
    pub fn title(&self) -> (title: Option<&'a str>)
        ensures
            title_view(title) == self@.title,
    {
        self.title
    }

    /// Where the title is centred.
    pub fn title_position(&self) -> (position: Point)
        ensures
            position == self@.title_position,
    {
        self.title_position
    }

    /// The top left corner of the panel, from which the rows are placed.
    pub fn top_left_point(&self) -> (point: Point)
        ensures
            point == self@.top_left,
            rows_fit(point),
    {
        proof {
            use_type_invariant(self);
        }
        self.top_left_point
    }

    /// The command that blanks the panel to save power.
    pub fn turn_off(&self) -> (command: DisplayCommand<'a>)
        ensures
            command@ == CommandView::Power(false),
    {
        DisplayCommand::Power(false)
    }

    /// The command that lights the panel again.
    pub fn turn_on(&self) -> (command: DisplayCommand<'a>)
        ensures
            command@ == CommandView::Power(true),
    {
        DisplayCommand::Power(true)
    }
}

} // verus!
