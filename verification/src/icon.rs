//! The icon that tells an onlooker what the vehicle is doing.
//!
//! The display is a square of 5 by 5 LEDs. A picture is given row by row, top
//! row first, each row left to right, `true` where the LED is lit.

use vstd::prelude::*;
use microbit::display::nonblocking::BitImage;
use crate::command::DriveCommand;

verus! {

/// The display driver's packed black-and-white image. Nothing of its layout
/// is visible here; `shown` names what it depicts.
#[verifier::external_type_specification]
#[verifier::external_body]
pub struct ExBitImage(BitImage);

/// The picture an image shows on the display: `shown(image)[y][x]` says
/// whether the driver lights the LED in row `y`, column `x`, which it does
/// where the image's `brightness_at(x, y)` is not 0.
pub uninterp spec fn shown(image: BitImage) -> Seq<Seq<bool>>;

/// The five pictures the vehicle can show.
#[derive(Clone, Copy, Debug, PartialEq, Eq, Structural)]
pub enum Icon {
    Smile,
    ArrowLeft,
    ArrowRight,
    ArrowDown,
    ArrowUp,
}

/// One row of a picture, written as on squared paper: 1 for a lit LED.
pub open spec fn row(a: int, b: int, c: int, d: int, e: int) -> Seq<bool> {
    seq![a == 1, b == 1, c == 1, d == 1, e == 1]
}

/// The picture that a table of cells draws: an LED is lit where its cell
/// holds 1.
pub open spec fn picture_of(cells: [[u8; 5]; 5]) -> Seq<Seq<bool>> {
    Seq::new(5, |y: int| Seq::new(5, |x: int| cells[y][x] == 1))
}

/// Whether every cell of the table holds 0 or 1.
pub open spec fn is_bitmap(cells: [[u8; 5]; 5]) -> bool {
    forall|y: int, x: int| 0 <= y < 5 && 0 <= x < 5 ==> #[trigger] cells[y][x] <= 1
}

/// Packs a table of cells into an image for the display driver.
///
/// Calls `BitImage::new`. That function stores row `y` as one byte whose bit
/// `x` is cell `x` of the row, and the driver lights the LED at column `x` of
/// row `y` exactly where that bit is set. For cells of 0 and 1, the only ones
/// admitted here, the image therefore shows the picture the cells draw.
#[verifier::external_body]
fn pack(cells: &[[u8; 5]; 5]) -> (image: BitImage)
    requires
        is_bitmap(*cells),
    ensures
        shown(image) == picture_of(*cells),
{
    BitImage::new(cells)
}

impl Icon {
    /// The icon that stands for a command: the smile while standing still, an
    /// arrow otherwise. Driving forward shows the arrow that points down,
    /// backing up the one that points up.
    pub open spec fn of(command: DriveCommand) -> Icon {
        match command {
            DriveCommand::Stopped => Icon::Smile,
            DriveCommand::Forward => Icon::ArrowDown,
            DriveCommand::Back => Icon::ArrowUp,
            DriveCommand::Left => Icon::ArrowLeft,
            DriveCommand::Right => Icon::ArrowRight,
        }
    }

    /// The picture of the icon.
    pub open spec fn picture(self) -> Seq<Seq<bool>> {
        match self {
            Icon::Smile => seq![
                row(0, 1, 0, 1, 0),
                row(1, 0, 1, 0, 1),
                row(0, 0, 1, 0, 0),
                row(1, 0, 0, 0, 1),
                row(0, 1, 1, 1, 0),
            ],
            Icon::ArrowLeft => seq![
                row(0, 0, 1, 0, 0),
                row(0, 1, 0, 0, 0),
                row(1, 1, 1, 1, 1),
                row(0, 1, 0, 0, 0),
                row(0, 0, 1, 0, 0),
            ],
            Icon::ArrowRight => seq![
                row(0, 0, 1, 0, 0),
                row(0, 0, 0, 1, 0),
                row(1, 1, 1, 1, 1),
                row(0, 0, 0, 1, 0),
                row(0, 0, 1, 0, 0),
            ],
            Icon::ArrowDown => seq![
                row(0, 0, 1, 0, 0),
                row(0, 0, 1, 0, 0),
                row(1, 0, 1, 0, 1),
                row(0, 1, 1, 1, 0),
                row(0, 0, 1, 0, 0),
            ],
            Icon::ArrowUp => seq![
                row(0, 0, 1, 0, 0),
                row(0, 1, 1, 1, 0),
                row(1, 0, 1, 0, 1),
                row(0, 0, 1, 0, 0),
                row(0, 0, 1, 0, 0),
            ],
        }
    }

    /// Picks the icon for a command.
    pub fn for_command(command: DriveCommand) -> (icon: Icon)
        ensures
            icon == Icon::of(command),
    {
        match command {
            DriveCommand::Stopped => Icon::Smile,
            DriveCommand::Forward => Icon::ArrowDown,
            DriveCommand::Back => Icon::ArrowUp,
            DriveCommand::Left => Icon::ArrowLeft,
            DriveCommand::Right => Icon::ArrowRight,
        }
    }

    /// The icon as a table of cells, 1 for a lit LED and 0 for a dark one.
    pub fn cells(self) -> (cells: [[u8; 5]; 5])
        ensures
            is_bitmap(cells),
            picture_of(cells) == self.picture(),
    {
        let cells: [[u8; 5]; 5] = match self {
            Icon::Smile => [
                [0, 1, 0, 1, 0],
                [1, 0, 1, 0, 1],
                [0, 0, 1, 0, 0],
                [1, 0, 0, 0, 1],
                [0, 1, 1, 1, 0],
            ],
            Icon::ArrowLeft => [
                [0, 0, 1, 0, 0],
                [0, 1, 0, 0, 0],
                [1, 1, 1, 1, 1],
                [0, 1, 0, 0, 0],
                [0, 0, 1, 0, 0],
            ],
            Icon::ArrowRight => [
                [0, 0, 1, 0, 0],
                [0, 0, 0, 1, 0],
                [1, 1, 1, 1, 1],
                [0, 0, 0, 1, 0],
                [0, 0, 1, 0, 0],
            ],
            Icon::ArrowDown => [
                [0, 0, 1, 0, 0],
                [0, 0, 1, 0, 0],
                [1, 0, 1, 0, 1],
                [0, 1, 1, 1, 0],
                [0, 0, 1, 0, 0],
            ],
            Icon::ArrowUp => [
                [0, 0, 1, 0, 0],
                [0, 1, 1, 1, 0],
                [1, 0, 1, 0, 1],
                [0, 0, 1, 0, 0],
                [0, 0, 1, 0, 0],
            ],
        };
        assert(picture_of(cells) =~~= self.picture());
        cells
    }

    /// The icon as an image for the display driver.
    pub fn image(self) -> (image: BitImage)
        ensures
            shown(image) == self.picture(),
    {
        let cells = self.cells();
        pack(&cells)
    }
}

/// Each command has an icon of its own, so the icon tells which command was
/// decided.
pub proof fn lemma_icon_identifies_command(a: DriveCommand, b: DriveCommand)
    requires
        Icon::of(a) == Icon::of(b),
    ensures
        a == b,
{
}

/// Every picture fills the display: five rows of five LEDs.
pub proof fn lemma_picture_fills_display(icon: Icon)
    ensures
        icon.picture().len() == 5,
        forall|y: int| 0 <= y < 5 ==> (#[trigger] icon.picture()[y]).len() == 5,
{
}

/// No two icons draw the same picture. Three LEDs tell them apart: the
/// second of the top row, and the second and the fourth of the row below it.
pub proof fn lemma_pictures_differ(a: Icon, b: Icon)
    requires
        a.picture() == b.picture(),
    ensures
        a == b,
{
    assert(a.picture()[0][1] == (a == Icon::Smile));
    assert(b.picture()[0][1] == (b == Icon::Smile));
    assert(a.picture()[1][1] == (a == Icon::ArrowLeft || a == Icon::ArrowUp));
    assert(b.picture()[1][1] == (b == Icon::ArrowLeft || b == Icon::ArrowUp));
    assert(a.picture()[1][3] == (a == Icon::ArrowRight || a == Icon::ArrowUp));
    assert(b.picture()[1][3] == (b == Icon::ArrowRight || b == Icon::ArrowUp));
}

} // verus!
