//! The render projection: what a tick asks the drawing surface to show.
//!
//! A frame is plain data. The host clears the surface if the frame says so,
//! fills each rectangle and writes each label.

use vstd::prelude::*;
use crate::app_state::ErrorCode;
use crate::game::{GameState, GameView};
use crate::physics::FallingBox;
use crate::tower::{used_below, PlacedBox, TowerSlot, TOWER_SLOTS};

verus! {

/// Height of the falling box on screen.
pub const BOX_HEIGHT: usize = 8;

/// Height of a placed box on screen.
pub const PLACED_HEIGHT: usize = 7;

/// Top edge of the newest slot of the tower on screen.
pub const TOWER_TOP: usize = 18;

/// Distance between the top edges of two neighbouring slots.
pub const ROW_STEP: usize = 8;

/// Edge and position of the square that marks a lost game.
pub const LOSS_MARK: i32 = 10;

/// Left edge of the diagnostic labels.
pub const LABEL_X: i32 = 20;

/// Baseline of the diagnostic heading.
pub const HEADING_Y: i32 = 20;

/// Baseline of the diagnostic number.
pub const CODE_Y: i32 = 28;

/// A filled rectangle.
#[derive(Debug, Clone, Copy, PartialEq, Eq, Structural)]
pub struct Rect {
    pub x: i32,
    pub y: i32,
    pub width: usize,
    pub height: usize,
}

/// A line of text on the diagnostic screen.
#[derive(Debug, Clone, Copy, PartialEq, Eq, Structural)]
pub enum Message {
    /// The line that announces a fault.
    Heading,
    /// The line that names the fault by its number.
    Code(ErrorCode),
}

/// A line of text and where it goes.
#[derive(Debug, Clone, Copy, PartialEq, Eq, Structural)]
pub struct Label {
    pub x: i32,
    pub y: i32,
    pub message: Message,
}

/// What one tick shows.
#[derive(Debug, PartialEq, Eq)]
pub struct Frame {
    /// Whether the surface is cleared before anything is drawn.
    pub clear: bool,
    /// The rectangles to fill, in drawing order.
    pub rects: Vec<Rect>,
    /// The lines to write, in drawing order.
    pub labels: Vec<Label>,
}

/// A frame as contracts speak of it.
pub struct FrameView {
    pub clear: bool,
    pub rects: Seq<Rect>,
    pub labels: Seq<Label>,
}

impl View for Frame {
    type V = FrameView;

    open spec fn view(&self) -> FrameView {
        FrameView { clear: self.clear, rects: self.rects@, labels: self.labels@ }
    }
}

impl Message {
    /// The characters of the line, in ASCII.
    pub open spec fn bytes(self) -> Seq<u8> {
        match self {
            // "There was an error: "
            Message::Heading => seq![
                84u8, 104u8, 101u8, 114u8, 101u8, 32u8, 119u8, 97u8, 115u8, 32u8,
                97u8, 110u8, 32u8, 101u8, 114u8, 114u8, 111u8, 114u8, 58u8, 32u8,
            ],
            // "CODE " and the digit of the fault
            Message::Code(code) => seq![
                67u8, 79u8, 68u8, 69u8, 32u8, (48 + code.number()) as u8,
            ],
        }
    }

    /// The characters of the line, in ASCII, without a terminator.
    pub fn text(self) -> (text: Vec<u8>)
        ensures
            text@ == self.bytes(),
    {
        match self {
            Message::Heading => {
                let text: Vec<u8> = vec![
                    84u8, 104u8, 101u8, 114u8, 101u8, 32u8, 119u8, 97u8, 115u8, 32u8,
                    97u8, 110u8, 32u8, 101u8, 114u8, 114u8, 111u8, 114u8, 58u8, 32u8,
                ];
                assert(text@ =~= self.bytes());
                text
            },
            Message::Code(code) => {
                let digit: u8 = 48 + code.code();
                let text: Vec<u8> = vec![67u8, 79u8, 68u8, 69u8, 32u8, digit];
                assert(text@ =~= self.bytes());
                text
            },
        }
    }
}

/// The rectangle of the falling box.
pub open spec fn falling_rect(falling: FallingBox) -> Rect {
    Rect { x: falling.x, y: falling.y, width: falling.width as usize, height: BOX_HEIGHT }
}

/// The rectangle of the box in slot `index`: each slot has a row of its own,
/// the newest at the top.
pub open spec fn slot_rect(index: usize, placed: PlacedBox) -> Rect {
    Rect {
        x: placed.left_x,
        y: (TOWER_TOP + index * ROW_STEP) as i32,
        width: placed.width as usize,
        height: PLACED_HEIGHT,
    }
}

/// The rectangles of the tower, newest box first; empty slots show nothing.
pub open spec fn tower_rects(slots: Seq<TowerSlot>) -> Seq<Rect> {
    used_below(slots, TOWER_SLOTS as int).map_values(
        |pair: (usize, PlacedBox)| slot_rect(pair.0, pair.1),
    )
}

/// The frame of a game in progress: the falling box, then the tower.
pub open spec fn scene_view(game: GameView) -> FrameView {
    FrameView {
        clear: true,
        rects: seq![falling_rect(game.falling)] + tower_rects(game.slots),
        labels: Seq::empty(),
    }
}

/// The frame of a lost drop: a square mark, drawn over what is there.
pub open spec fn loss_view() -> FrameView {
    FrameView {
        clear: false,
        rects: seq![
            Rect { x: LOSS_MARK, y: LOSS_MARK, width: LOSS_MARK as usize, height: LOSS_MARK as usize },
        ],
        labels: Seq::empty(),
    }
}

/// The diagnostic screen: the heading and, where a fault is known, the line
/// with its number.
pub open spec fn diagnostic_view(code: Option<ErrorCode>) -> FrameView {
    FrameView {
        clear: true,
        rects: Seq::empty(),
        labels: match code {
            Some(fault) => seq![
                Label { x: LABEL_X, y: HEADING_Y, message: Message::Heading },
                Label { x: LABEL_X, y: CODE_Y, message: Message::Code(fault) },
            ],
            None => seq![Label { x: LABEL_X, y: HEADING_Y, message: Message::Heading }],
        },
    }
}

/// The frame of a game in progress.
pub fn scene(game: &GameState) -> (frame: Frame)
    requires
        game@.wf(),
    ensures
        frame@ == scene_view(game@),
{
    let falling = game.falling();
    let mut rects: Vec<Rect> = Vec::new();
    rects.push(Rect { x: falling.x, y: falling.y, width: falling.width as usize, height: BOX_HEIGHT });
    let tower = game.tower();
    let pairs = tower.boxes();
    let mut k: usize = 0;
    while k < pairs.len()
        invariant
            k <= pairs.len(),
            pairs@ == used_below(game@.slots, TOWER_SLOTS as int),
            forall|j: int| 0 <= j < pairs.len() ==> (#[trigger] pairs[j]).0 < TOWER_SLOTS,
            rects@ == seq![falling_rect(game@.falling)] + tower_rects(game@.slots).take(k as int),
        decreases pairs.len() - k,
    {
        let (index, placed) = pairs[k];
        rects.push(
            Rect {
                x: placed.left_x,
                y: (TOWER_TOP + index * ROW_STEP) as i32,
                width: placed.width as usize,
                height: PLACED_HEIGHT,
            },
        );
        assert(tower_rects(game@.slots).take(k + 1) == tower_rects(game@.slots).take(
            k as int,
        ).push(slot_rect(index, placed)));
        k = k + 1;
    }
    assert(tower_rects(game@.slots).take(k as int) == tower_rects(game@.slots));
    Frame { clear: true, rects, labels: Vec::new() }
}

/// The frame of a lost drop.
pub fn loss_frame() -> (frame: Frame)
    ensures
        frame@ == loss_view(),
{
    let mut rects: Vec<Rect> = Vec::new();
    rects.push(
        Rect { x: LOSS_MARK, y: LOSS_MARK, width: LOSS_MARK as usize, height: LOSS_MARK as usize },
    );
    assert(rects@ =~= loss_view().rects);
    Frame { clear: false, rects, labels: Vec::new() }
}

/// The diagnostic screen for the fault `code`, or with the heading alone
/// where no fault is known.
pub fn diagnostic_frame(code: Option<ErrorCode>) -> (frame: Frame)
    ensures
        frame@ == diagnostic_view(code),
{
    let mut labels: Vec<Label> = Vec::new();
    labels.push(Label { x: LABEL_X, y: HEADING_Y, message: Message::Heading });
    match code {
        Some(fault) => {
            labels.push(Label { x: LABEL_X, y: CODE_Y, message: Message::Code(fault) });
        },
        None => {},
    }
    assert(labels@ =~= diagnostic_view(code).labels);
    Frame { clear: true, rects: Vec::new(), labels }
}

} // verus!
