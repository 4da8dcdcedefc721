//! The menu: a title, and a button each to play and to leave.

use vstd::prelude::*;
use vstd::string::StringExecFns;

use crate::config;
use crate::event::Event;
use crate::helpers::{centered, point_colliding_rect, rect_centered, RectView};
use crate::render::{labels, steps, Color, Draw, DrawView, Image, Label, LabelView};
use crate::scenarios::Reaction;
use crate::signal::{Loop, Signal};

verus! {

/// The area of the button that starts the game.
pub open spec fn play_button() -> RectView {
    centered(200, 60, 0, 30)
}

/// The area of the button that leaves the game.
pub open spec fn exit_button() -> RectView {
    centered(200, 60, 0, 100)
}

/// The colour of a button's border: red under the mouse, else black.
pub open spec fn border(over: bool) -> Color {
    if over {
        Color::red()
    } else {
        Color::black()
    }
}

/// The line under the title.
pub open spec fn description() -> Seq<char> {
    "v"@ + config::VERSION@ + " by Alan Hoffmeister"@
}

/// The menu scene. It keeps whether the mouse is over each button.
#[derive(Clone, Copy, Debug, PartialEq, Eq)]
pub struct Menu {
    over_play: bool,
    over_exit: bool,
}

/// The mathematical content of a [`Menu`].
pub struct MenuView {
    pub over_play: bool,
    pub over_exit: bool,
}

impl View for Menu {
    type V = MenuView;

    closed spec fn view(&self) -> MenuView {
        MenuView { over_play: self.over_play, over_exit: self.over_exit }
    }
}

impl MenuView {
    /// The menu once the event is taken in: a move of the mouse sets for
    /// each button whether the mouse is over it, and nothing else changes
    /// the menu.
    pub open spec fn after(self, event: Event) -> MenuView {
        match event {
            Event::MouseMotion { x, y } => MenuView {
                over_play: play_button().covers(x as int, y as int),
                over_exit: exit_button().covers(x as int, y as int),
            },
            _ => self,
        }
    }

    /// Whether the event makes the sound of the menu: the mouse has come
    /// over a button that it was not over.
    pub open spec fn sounds(self, event: Event) -> bool {
        match event {
            Event::MouseMotion { x, y } => {
                ||| play_button().covers(x as int, y as int) && !self.over_play
                ||| exit_button().covers(x as int, y as int) && !self.over_exit
            },
            _ => false,
        }
    }

    /// What the menu answers to the event: closing the window or
    /// releasing the mouse over the exit button ends the run, releasing it
    /// over the play button moves on to the game.
    pub open spec fn signal(event: Event) -> Signal {
        match event {
            Event::Quit => Signal::Break,
            Event::MouseButtonUp { x, y } => {
                if exit_button().covers(x as int, y as int) {
                    Signal::Break
                } else if play_button().covers(x as int, y as int) {
                    Signal::GoToScene("game"@)
                } else {
                    Signal::Continue
                }
            },
            _ => Signal::Continue,
        }
    }

    /// The texts that the menu is made of.
    pub open spec fn texts() -> Seq<LabelView> {
        seq![
            LabelView {
                image: Image::Title,
                text: "Endless Jumper"@,
                bold: true,
                color: Color::black(),
            },
            LabelView {
                image: Image::Description,
                text: description(),
                bold: false,
                color: Color::black(),
            },
            LabelView { image: Image::Play, text: "PLAY"@, bold: false, color: Color::black() },
            LabelView { image: Image::Exit, text: "EXIT"@, bold: false, color: Color::black() },
        ]
    }

    /// A frame of the menu: on white, the title and the line under it,
    /// then each button as a border, a white inside and its text.
    pub open spec fn frame(self) -> Seq<DrawView> {
        seq![
            DrawView::Clear { color: Color::white() },
            DrawView::Copy { image: Image::Title, to: centered(400, 50, 0, -100) },
            DrawView::Copy { image: Image::Description, to: centered(200, 20, 0, -60) },
            DrawView::Fill { color: border(self.over_play), area: centered(200, 60, 0, 30) },
            DrawView::Fill { color: Color::white(), area: centered(190, 50, 0, 30) },
            DrawView::Copy { image: Image::Play, to: centered(100, 20, 0, 30) },
            DrawView::Fill { color: border(self.over_exit), area: centered(200, 60, 0, 100) },
            DrawView::Fill { color: Color::white(), area: centered(190, 50, 0, 100) },
            DrawView::Copy { image: Image::Exit, to: centered(100, 20, 0, 100) },
            DrawView::Present,
        ]
    }
}

/// The two buttons have no point in common, so that one move of the mouse
/// brings it over one button at most.
pub proof fn lemma_buttons_apart(x: int, y: int)
    ensures
        !(play_button().covers(x, y) && exit_button().covers(x, y)),
{
}

fn border_of(over: bool) -> (color: Color)
    ensures
        color == border(over),
{
    if over {
        Color::red()
    } else {
        Color::black()
    }
}

impl Menu {
    /// The menu with the mouse over neither button.
    pub fn new() -> (menu: Menu)
        ensures
            menu@ == (MenuView { over_play: false, over_exit: false }),
    {
        Menu { over_play: false, over_exit: false }
    }

    /// Whether the mouse is over the play button.
    pub fn over_play(&self) -> (over: bool)
        ensures
            over == self@.over_play,
    {
        self.over_play
    }

    /// Whether the mouse is over the exit button.
    pub fn over_exit(&self) -> (over: bool)
        ensures
            over == self@.over_exit,
    {
        self.over_exit
    }

    /// The texts to render as the menu is loaded, in order.
    pub fn on_load(&self) -> (texts: Vec<Label>)
        ensures
            labels(texts@) == MenuView::texts(),
    {
        let mut texts: Vec<Label> = Vec::new();
        texts.push(
            Label {
                image: Image::Title,
                text: String::from_str("Endless Jumper"),
                bold: true,
                color: Color::black(),
            },
        );
        let description = String::from_str("v").concat(config::VERSION).concat(
            " by Alan Hoffmeister",
        );
        texts.push(
            Label { image: Image::Description, text: description, bold: false, color: Color::black() },
        );
        texts.push(
            Label {
                image: Image::Play,
                text: String::from_str("PLAY"),
                bold: false,
                color: Color::black(),
            },
        );
        texts.push(
            Label {
                image: Image::Exit,
                text: String::from_str("EXIT"),
                bold: false,
                color: Color::black(),
            },
        );
        assert(labels(texts@) =~= MenuView::texts());
        texts
    }

    /// Takes in an input event.
    pub fn on_event(&mut self, event: Event) -> (reaction: Reaction)
        ensures
            final(self)@ == old(self)@.after(event),
            reaction.signal@ == MenuView::signal(event),
            reaction.sound == old(self)@.sounds(event),
    {
        match event {
            Event::Quit => Reaction { signal: Loop::Break, sound: false },
            Event::MouseMotion { x, y } => {
                let on_play = point_colliding_rect(x, y, &rect_centered(200, 60, 0, 30));
                let on_exit = point_colliding_rect(x, y, &rect_centered(200, 60, 0, 100));
                let sound = (on_play && !self.over_play) || (on_exit && !self.over_exit);
                self.over_play = on_play;
                self.over_exit = on_exit;
                Reaction { signal: Loop::Continue, sound }
            },
            Event::MouseButtonUp { x, y } => {
                if point_colliding_rect(x, y, &rect_centered(200, 60, 0, 100)) {
                    Reaction { signal: Loop::Break, sound: false }
                } else if point_colliding_rect(x, y, &rect_centered(200, 60, 0, 30)) {
                    Reaction { signal: Loop::GoToScene(String::from_str("game")), sound: false }
                } else {
                    Reaction { signal: Loop::Continue, sound: false }
                }
            },
            _ => Reaction { signal: Loop::Continue, sound: false },
        }
    }

    /// The drawing steps of one frame, in order.
    pub fn on_tick(&self) -> (frame: Vec<Draw>)
        ensures
            steps(frame@) == self@.frame(),
    {
        let mut frame: Vec<Draw> = Vec::new();
        frame.push(Draw::Clear { color: Color::white() });
        frame.push(Draw::Copy { image: Image::Title, to: rect_centered(400, 50, 0, -100) });
        frame.push(Draw::Copy { image: Image::Description, to: rect_centered(200, 20, 0, -60) });
        frame.push(
            Draw::Fill { color: border_of(self.over_play), area: rect_centered(200, 60, 0, 30) },
        );
        frame.push(Draw::Fill { color: Color::white(), area: rect_centered(190, 50, 0, 30) });
        frame.push(Draw::Copy { image: Image::Play, to: rect_centered(100, 20, 0, 30) });
        frame.push(
            Draw::Fill { color: border_of(self.over_exit), area: rect_centered(200, 60, 0, 100) },
        );
        frame.push(Draw::Fill { color: Color::white(), area: rect_centered(190, 50, 0, 100) });
        frame.push(Draw::Copy { image: Image::Exit, to: rect_centered(100, 20, 0, 100) });
        frame.push(Draw::Present);
        assert(steps(frame@) =~= self@.frame());
        frame
    }
}

} // verus!
