//! What a scene asks the host to draw: a frame is a list of drawing
//! steps, which the host carries out in order.

use vstd::prelude::*;

use crate::helpers::{Rect, RectView};

verus! {

/// A colour, by its red, green and blue parts.
#[derive(Clone, Copy, Debug, PartialEq, Eq, Structural)]
pub struct Color {
    pub r: u8,
    pub g: u8,
    pub b: u8,
}

impl Color {
    pub open spec fn spec_black() -> Color {
        Color { r: 0, g: 0, b: 0 }
    }

    pub open spec fn spec_white() -> Color {
        Color { r: 255, g: 255, b: 255 }
    }

    pub open spec fn spec_red() -> Color {
        Color { r: 255, g: 0, b: 0 }
    }

    pub open spec fn spec_blue() -> Color {
        Color { r: 0, g: 0, b: 255 }
    }

    #[verifier::when_used_as_spec(spec_black)]
    pub fn black() -> (color: Color)
        ensures
            color == Color::spec_black(),
    {
        Color { r: 0, g: 0, b: 0 }
    }

    #[verifier::when_used_as_spec(spec_white)]
    pub fn white() -> (color: Color)
        ensures
            color == Color::spec_white(),
    {
        Color { r: 255, g: 255, b: 255 }
    }

    #[verifier::when_used_as_spec(spec_red)]
    pub fn red() -> (color: Color)
        ensures
            color == Color::spec_red(),
    {
        Color { r: 255, g: 0, b: 0 }
    }

    #[verifier::when_used_as_spec(spec_blue)]
    pub fn blue() -> (color: Color)
        ensures
            color == Color::spec_blue(),
    {
        Color { r: 0, g: 0, b: 255 }
    }
}

/// The images that the scenes draw. The host keeps each under its key.
#[derive(Clone, Copy, Debug, PartialEq, Eq, Hash, Structural)]
pub enum Image {
    Title,
    Description,
    Play,
    Exit,
    GameOver,
    Subtitle,
    PointsText,
    Points,
    Background,
    Montains,
    Forest,
    Player,
    Rocks,
}

/// One step of drawing a frame.
#[derive(Clone, Copy, Debug, PartialEq, Eq)]
pub enum Draw {
    /// Fill the whole window with the colour.
    Clear { color: Color },
    /// Fill the area with the colour.
    Fill { color: Color, area: Rect },
    /// Draw the whole image, stretched over the area.
    Copy { image: Image, to: Rect },
    /// Draw the part `from` of the image over the area, mirrored left to
    /// right.
    Mirror { image: Image, from: Rect, to: Rect },
    /// Show what was drawn.
    Present,
}

/// The mathematical content of a [`Draw`].
pub enum DrawView {
    Clear { color: Color },
    Fill { color: Color, area: RectView },
    Copy { image: Image, to: RectView },
    Mirror { image: Image, from: RectView, to: RectView },
    Present,
}

impl View for Draw {
    type V = DrawView;

    open spec fn view(&self) -> DrawView {
        match self {
            Draw::Clear { color } => DrawView::Clear { color: *color },
            Draw::Fill { color, area } => DrawView::Fill { color: *color, area: area@ },
            Draw::Copy { image, to } => DrawView::Copy { image: *image, to: to@ },
            Draw::Mirror { image, from, to } => DrawView::Mirror {
                image: *image,
                from: from@,
                to: to@,
            },
            Draw::Present => DrawView::Present,
        }
    }
}

/// The contents of a list of drawing steps.
pub open spec fn steps(list: Seq<Draw>) -> Seq<DrawView> {
    Seq::new(list.len(), |i: int| list[i]@)
}

/// A text that a scene asks the host to render into an image.
#[derive(Clone, Debug, PartialEq, Eq)]
pub struct Label {
    /// The image that the text becomes.
    pub image: Image,
    /// The text.
    pub text: String,
    /// Whether the text is set in bold.
    pub bold: bool,
    /// The colour of the text.
    pub color: Color,
}

/// The mathematical content of a [`Label`].
pub struct LabelView {
    pub image: Image,
    pub text: Seq<char>,
    pub bold: bool,
    pub color: Color,
}

impl View for Label {
    type V = LabelView;

    open spec fn view(&self) -> LabelView {
        LabelView { image: self.image, text: self.text@, bold: self.bold, color: self.color }
    }
}

/// The contents of a list of labels.
pub open spec fn labels(list: Seq<Label>) -> Seq<LabelView> {
    Seq::new(list.len(), |i: int| list[i]@)
}

impl Image {
    /// The key under which the host keeps the image.
    pub fn key(&self) -> (key: &'static str)
        ensures
            key@ == self.key_text(),
    {
        match self {
            Image::Title => "title",
            Image::Description => "description",
            Image::Play => "play",
            Image::Exit => "exit",
            Image::GameOver => "game_over",
            Image::Subtitle => "subtitle",
            Image::PointsText => "points_text",
            Image::Points => "points",
            Image::Background => "background",
            Image::Montains => "montains",
            Image::Forest => "forest",
            Image::Player => "player",
            Image::Rocks => "rocks",
        }
    }

    /// The key of the image, as a spec value.
    pub open spec fn key_text(&self) -> Seq<char> {
        match self {
            Image::Title => "title"@,
            Image::Description => "description"@,
            Image::Play => "play"@,
            Image::Exit => "exit"@,
            Image::GameOver => "game_over"@,
            Image::Subtitle => "subtitle"@,
            Image::PointsText => "points_text"@,
            Image::Points => "points"@,
            Image::Background => "background"@,
            Image::Montains => "montains"@,
            Image::Forest => "forest"@,
            Image::Player => "player"@,
            Image::Rocks => "rocks"@,
        }
    }
}

} // verus!
