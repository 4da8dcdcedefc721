//! The screen after the game: the points made, and a button to leave.

use vstd::prelude::*;
use vstd::string::{StrSliceExecFns, StringExecFns};

use crate::event::Event;
use crate::helpers::{centered, point_colliding_rect, rect_centered, RectView};
use crate::registry::{lemma_decimal_len, lemma_decimal_len_of_usize, Registry, RegistryItem};
use crate::render::{labels, steps, Color, Draw, DrawView, Image, Label, LabelView};
use crate::scenarios::Reaction;
use crate::signal::{Loop, Signal};

verus! {

/// The width that one character of the points takes, in pixels.
pub const POINTS_CHARACTER_WIDTH: usize = 33;

/// The key under which the game leaves the points in the registry.
pub open spec fn points_key() -> Seq<char> {
    "points"@
}

/// The area of the button that leaves the game.
pub open spec fn exit_button() -> RectView {
    centered(200, 60, 0, 100)
}

/// The area of the points: as wide as their text is long.
pub open spec fn points_area(points: RegistryItem) -> RectView {
    centered(points.text().len() * POINTS_CHARACTER_WIDTH, 60, 0, 0)
}

/// The colour of the button's border: red under the mouse, else white.
pub open spec fn border(over: bool) -> Color {
    if over {
        Color::red()
    } else {
        Color::white()
    }
}

/// The scene after the game. It keeps whether the mouse is over the
/// button.
#[derive(Clone, Copy, Debug, PartialEq, Eq)]
pub struct GameOver {
    over_exit: bool,
}

/// The mathematical content of a [`GameOver`].
pub struct GameOverView {
    pub over_exit: bool,
}

impl View for GameOver {
    type V = GameOverView;

    closed spec fn view(&self) -> GameOverView {
        GameOverView { over_exit: self.over_exit }
    }
}

impl GameOverView {
    /// The scene once the event is taken in: a move of the mouse sets
    /// whether the mouse is over the button.
    pub open spec fn after(self, event: Event) -> GameOverView {
        match event {
            Event::MouseMotion { x, y } => GameOverView {
                over_exit: exit_button().covers(x as int, y as int),
            },
            _ => self,
        }
    }

    /// Whether the event makes the sound of the menu: the mouse has come
    /// over the button.
    pub open spec fn sounds(self, event: Event) -> bool {
        match event {
            Event::MouseMotion { x, y } => exit_button().covers(x as int, y as int)
                && !self.over_exit,
            _ => false,
        }
    }

    /// What the scene answers to the event: closing the window or
    /// releasing the mouse over the button ends the run.
    pub open spec fn signal(event: Event) -> Signal {
        match event {
            Event::Quit => Signal::Break,
            Event::MouseButtonUp { x, y } => {
                if exit_button().covers(x as int, y as int) {
                    Signal::Break
                } else {
                    Signal::Continue
                }
            },
            _ => Signal::Continue,
        }
    }

    /// The texts that the scene is made of, all in bold.
    pub open spec fn texts(points: RegistryItem) -> Seq<LabelView> {
        seq![
            LabelView {
                image: Image::GameOver,
                text: "Game Over"@,
                bold: true,
                color: Color::white(),
            },
            LabelView {
                image: Image::Subtitle,
                text: "You ran reckless through the woods and now you're dead.."@,
                bold: true,
                color: Color::white(),
            },
            LabelView {
                image: Image::PointsText,
                text: "Don't be sad, at least you made some points:"@,
                bold: true,
                color: Color::white(),
            },
            LabelView {
                image: Image::Points,
                text: points.text(),
                bold: true,
                color: Color::blue(),
            },
            LabelView { image: Image::Exit, text: "EXIT"@, bold: true, color: Color::white() },
        ]
    }

    /// A frame of the scene: on black, the three lines and the points,
    /// then the button as a border, a black inside and its text.
    pub open spec fn frame(self, points: RegistryItem) -> Seq<DrawView> {
        seq![
            DrawView::Clear { color: Color::black() },
            DrawView::Copy { image: Image::GameOver, to: centered(400, 50, 0, -200) },
            DrawView::Copy { image: Image::Subtitle, to: centered(560, 30, 0, -140) },
            DrawView::Copy { image: Image::PointsText, to: centered(430, 30, 0, -100) },
            DrawView::Copy { image: Image::Points, to: points_area(points) },
            DrawView::Fill { color: border(self.over_exit), area: centered(200, 60, 0, 100) },
            DrawView::Fill { color: Color::black(), area: centered(190, 50, 0, 100) },
            DrawView::Copy { image: Image::Exit, to: centered(100, 20, 0, 100) },
            DrawView::Present,
        ]
    }
}

fn border_of(over: bool) -> (color: Color)
    ensures
        color == border(over),
{
    if over {
        Color::red()
    } else {
        Color::white()
    }
}

impl GameOver {
    /// The scene with the mouse off the button.
    pub fn new() -> (scene: GameOver)
        ensures
            scene@ == (GameOverView { over_exit: false }),
    {
        GameOver { over_exit: false }
    }

    /// Whether the mouse is over the button.
    pub fn over_exit(&self) -> (over: bool)
        ensures
            over == self@.over_exit,
    {
        self.over_exit
    }

    /// The points that the game has left in the registry, if it has left
    /// any.
    pub fn points(registry: &Registry) -> (points: Option<RegistryItem>)
        ensures
            points == (if registry@.contains_key(points_key()) {
                Some(registry@[points_key()])
            } else {
                None
            }),
    {
        registry.get("points")
    }

    /// The texts to render as the scene is loaded, in order, or `None`
    /// where the registry holds no points.
    pub fn on_load(&self, registry: &Registry) -> (texts: Option<Vec<Label>>)
        ensures
            texts is Some <==> registry@.contains_key(points_key()),
            texts is Some ==> labels(texts->Some_0@) == GameOverView::texts(
                registry@[points_key()],
            ),
    {
        let points = match GameOver::points(registry) {
            Some(points) => points,
            None => {
                return None;
            },
        };
        let mut texts: Vec<Label> = Vec::new();
        texts.push(
            Label {
                image: Image::GameOver,
                text: String::from_str("Game Over"),
                bold: true,
                color: Color::white(),
            },
        );
        texts.push(
            Label {
                image: Image::Subtitle,
                text: String::from_str("You ran reckless through the woods and now you're dead.."),
                bold: true,
                color: Color::white(),
            },
        );
        texts.push(
            Label {
                image: Image::PointsText,
                text: String::from_str("Don't be sad, at least you made some points:"),
                bold: true,
                color: Color::white(),
            },
        );
        texts.push(
            Label { image: Image::Points, text: points.to_string(), bold: true, color: Color::blue() },
        );
        texts.push(
            Label {
                image: Image::Exit,
                text: String::from_str("EXIT"),
                bold: true,
                color: Color::white(),
            },
        );
        assert(labels(texts@) =~= GameOverView::texts(points));
        Some(texts)
    }

    /// Takes in an input event.
    pub fn on_event(&mut self, event: Event) -> (reaction: Reaction)
        ensures
            final(self)@ == old(self)@.after(event),
            reaction.signal@ == GameOverView::signal(event),
            reaction.sound == old(self)@.sounds(event),
    {
        match event {
            Event::Quit => Reaction { signal: Loop::Break, sound: false },
            Event::MouseMotion { x, y } => {
                let on_exit = point_colliding_rect(x, y, &rect_centered(200, 60, 0, 100));
                let sound = on_exit && !self.over_exit;
                self.over_exit = on_exit;
                Reaction { signal: Loop::Continue, sound }
            },
            Event::MouseButtonUp { x, y } => {
                if point_colliding_rect(x, y, &rect_centered(200, 60, 0, 100)) {
                    Reaction { signal: Loop::Break, sound: false }
                } else {
                    Reaction { signal: Loop::Continue, sound: false }
                }
            },
            _ => Reaction { signal: Loop::Continue, sound: false },
        }
    }

    /// The drawing steps of one frame, in order, or `None` where the
    /// registry holds no points.
    pub fn on_tick(&self, registry: &Registry) -> (frame: Option<Vec<Draw>>)
        ensures
            frame is Some <==> registry@.contains_key(points_key()),
            frame is Some ==> steps(frame->Some_0@) == self@.frame(registry@[points_key()]),
    {
        let points = match GameOver::points(registry) {
            Some(points) => points,
            None => {
                return None;
            },
        };
        let text = points.to_string();
        let length: usize = text.as_str().unicode_len();
        proof {
            match points {
                RegistryItem::Number(number) => {
                    lemma_decimal_len(number as nat);
                    lemma_decimal_len_of_usize(number);
                },
            }
        }
        let width: usize = length * POINTS_CHARACTER_WIDTH;
        let mut frame: Vec<Draw> = Vec::new();
        frame.push(Draw::Clear { color: Color::black() });
        frame.push(Draw::Copy { image: Image::GameOver, to: rect_centered(400, 50, 0, -200) });
        frame.push(Draw::Copy { image: Image::Subtitle, to: rect_centered(560, 30, 0, -140) });
        frame.push(Draw::Copy { image: Image::PointsText, to: rect_centered(430, 30, 0, -100) });
        frame.push(Draw::Copy { image: Image::Points, to: rect_centered(width as i32, 60, 0, 0) });
        frame.push(
            Draw::Fill { color: border_of(self.over_exit), area: rect_centered(200, 60, 0, 100) },
        );
        frame.push(Draw::Fill { color: Color::black(), area: rect_centered(190, 50, 0, 100) });
        frame.push(Draw::Copy { image: Image::Exit, to: rect_centered(100, 20, 0, 100) });
        frame.push(Draw::Present);
        assert(steps(frame@) =~= self@.frame(points));
        Some(frame)
    }
}

} // verus!
