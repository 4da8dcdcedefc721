//! The game: what the player's keys mean, how high the rocks are piled,
//! and where the scenery and the sprites are drawn.

use rand::ThreadRng;
use vstd::prelude::*;

use crate::event::{Event, Key};
use crate::helpers::{clamp_position, clamp_size, Rect, RectView};
use crate::render::{steps, Color, Draw, DrawView, Image};
use crate::scenarios::Reaction;
use crate::signal::{Loop, Signal};

verus! {

/// How much larger than their images the mountains and the forest are drawn.
pub const MONTAINS_SCALE: u32 = 3;

/// How much larger than its image the ground is drawn.
pub const GROUND_SCALE: u32 = 2;

/// How much larger than its image the player is drawn.
pub const PLAYER_SCALE: u32 = 3;

/// How much larger than its image a rock is drawn.
pub const ROCK_SCALE: u32 = 2;

/// The highest pile of rocks.
pub const MAX_ROCKS: u32 = 12;

/// The milliseconds in which the mountains pass by once.
pub const MONTAINS_PERIOD: u64 = 15000;

/// The milliseconds in which the forest passes by once.
pub const FOREST_PERIOD: u64 = 5000;

/// The milliseconds in which the ground passes by once.
pub const GROUND_PERIOD: u64 = 1500;

/// What a key means to the player.
#[derive(Clone, Copy, Debug, PartialEq, Eq, Structural)]
pub enum Move {
    /// Leave the game.
    Quit,
    /// Jump off the ground.
    TakeOff,
    /// Let the jump key go, which cuts a jump short.
    LetGo,
    /// Nothing.
    Nothing,
}

/// What the event means to a player who is or is not in a jump, and who
/// has or has not let the jump key go since the last jump. A jump starts
/// only from the ground, and only after the key was let go.
pub open spec fn meaning(event: Event, jumping: bool, released: bool) -> Move {
    match event {
        Event::Quit => Move::Quit,
        Event::KeyDown { key: Key::Space } => if !jumping && released {
            Move::TakeOff
        } else {
            Move::Nothing
        },
        Event::KeyUp { key: Key::Space } => Move::LetGo,
        _ => Move::Nothing,
    }
}

/// Reads an input event for the player.
pub fn read_event(event: Event, jumping: bool, released: bool) -> (read: Move)
    ensures
        read == meaning(event, jumping, released),
{
    match event {
        Event::Quit => Move::Quit,
        Event::KeyDown { key: Key::Space } => {
            if !jumping && released {
                Move::TakeOff
            } else {
                Move::Nothing
            }
        },
        Event::KeyUp { key: Key::Space } => Move::LetGo,
        _ => Move::Nothing,
    }
}

/// `rand::sample`: picks `amount` of the items at random, each place of
/// the list at most once. With at most as many asked for as there are,
/// it returns exactly `amount` items, all of them from the list.
#[verifier::external_body]
fn sample(rng: &mut ThreadRng, items: Vec<u32>, amount: usize) -> (picked: Vec<u32>)
    requires
        amount <= items@.len(),
    ensures
        picked@.len() == amount,
        picked@.to_multiset().subset_of(items@.to_multiset()),
{
    rand::sample(rng, items, amount)
}

/// How many rocks the next obstacle is piled of: a number from one to
/// `MAX_ROCKS`, picked at random.
pub fn rock_count(rng: &mut ThreadRng) -> (rocks: u32)
    ensures
        1 <= rocks <= MAX_ROCKS,
{
    let heights = pile_heights();
    let ghost items = heights@;
    let picked = sample(rng, heights, 1);
    proof {
        let rocks = picked@[0];
        picked@.to_multiset_ensures();
        items.to_multiset_ensures();
        assert(picked@.contains(rocks));
        assert(picked@.to_multiset().count(rocks) <= items.to_multiset().count(rocks));
        assert(items.contains(rocks));
    }
    first_pick(&picked).unwrap()
}

/// The heights that a pile of rocks can have, lowest first: from one rock
/// to `MAX_ROCKS`.
pub open spec fn heights() -> Seq<u32> {
    Seq::new(MAX_ROCKS as nat, |i: int| (i + 1) as u32)
}

/// The heights that a pile of rocks can have, lowest first: what the
/// number of rocks is picked from.
pub fn pile_heights() -> (list: Vec<u32>)
    ensures
        list@ == heights(),
{
    let mut list: Vec<u32> = Vec::new();
    let mut height: u32 = 1;
    while height <= MAX_ROCKS
        invariant
            1 <= height <= MAX_ROCKS + 1,
            list@.len() == height - 1,
            forall|i: int| 0 <= i < list@.len() ==> list@[i] == i + 1,
        decreases MAX_ROCKS + 1 - height,
    {
        list.push(height);
        height += 1;
    }
    assert(list@ =~= heights());
    list
}

/// The first of the picked, or `None` where nothing was picked.
pub fn first_pick(picked: &Vec<u32>) -> (first: Option<u32>)
    ensures
        first == (if picked@.len() > 0 {
            Some(picked@[0])
        } else {
            None
        }),
{
    if picked.len() > 0 {
        Some(picked[0])
    } else {
        None
    }
}

/// How far a scenery image of the given width has moved on, `millis`
/// milliseconds into the run: it passes by once in every `period`.
pub open spec fn scroll(millis: nat, period: nat, image_width: int) -> int {
    ((millis % period) * image_width) / (period as int)
}

/// The area of the `n`-th copy of a scenery image: the copies stand side
/// by side, `drift` pixels apart, the first one a whole width to the left
/// of where the image has moved on to, all of them on the bottom of the
/// window.
pub open spec fn layer_area(
    n: int,
    drift: int,
    millis: nat,
    period: nat,
    scale: nat,
    window_height: nat,
    texture_width: nat,
    texture_height: nat,
) -> RectView {
    let width = (texture_width * scale) as int;
    let height = (texture_height * scale) as int;
    RectView {
        x: clamp_position(width * n + drift * n - width + scroll(millis, period, width)),
        y: clamp_position(window_height - height),
        width: clamp_size(width),
        height: clamp_size(height),
    }
}

/// The drawing steps of a scenery image in `copies` copies.
pub open spec fn layer(
    image: Image,
    copies: nat,
    drift: int,
    millis: nat,
    period: nat,
    scale: nat,
    window_height: nat,
    texture_width: nat,
    texture_height: nat,
) -> Seq<DrawView> {
    Seq::new(
        copies,
        |n: int|
            DrawView::Copy {
                image,
                to: layer_area(
                    n,
                    drift,
                    millis,
                    period,
                    scale,
                    window_height,
                    texture_width,
                    texture_height,
                ),
            },
    )
}

fn draw_layer(
    image: Image,
    copies: u32,
    drift: i64,
    millis: u64,
    period: u64,
    scale: u32,
    window_height: u32,
    texture_width: u32,
    texture_height: u32,
) -> (list: Vec<Draw>)
    requires
        copies <= 3,
        0 <= drift <= 1,
        0 < period <= 15000,
        scale <= 3,
    ensures
        steps(list@) == layer(
            image,
            copies as nat,
            drift as int,
            millis as nat,
            period as nat,
            scale as nat,
            window_height as nat,
            texture_width as nat,
            texture_height as nat,
        ),
{
    assert(0 <= texture_width * scale <= 0x3_0000_0000) by (nonlinear_arith)
        requires
            0 <= texture_width <= 0xFFFF_FFFF,
            0 <= scale <= 3,
    ;
    assert(0 <= texture_height * scale <= 0x3_0000_0000) by (nonlinear_arith)
        requires
            0 <= texture_height <= 0xFFFF_FFFF,
            0 <= scale <= 3,
    ;
    let width: i64 = (texture_width as i64) * (scale as i64);
    let height: i64 = (texture_height as i64) * (scale as i64);
    let phase: i64 = (millis % period) as i64;
    assert(0 <= phase * width <= 15000 * 0x3_0000_0000) by (nonlinear_arith)
        requires
            0 <= phase < 15000,
            0 <= width <= 0x3_0000_0000,
    ;
    assert(0 <= (phase * width) / (period as int) <= phase * width) by (nonlinear_arith)
        requires
            0 <= phase * width,
            0 < period,
    ;
    let moved: i64 = phase * width / (period as i64);
    let top: i64 = (window_height as i64) - height;
    let mut list: Vec<Draw> = Vec::new();
    let mut n: u32 = 0;
    while n < copies
        invariant
            n <= copies <= 3,
            0 <= drift <= 1,
            0 <= width <= 0x3_0000_0000,
            width == texture_width * scale,
            height == texture_height * scale,
            moved == scroll(millis as nat, period as nat, width as int),
            0 <= moved <= 15000 * 0x3_0000_0000,
            top == window_height - height,
            list@.len() == n,
            forall|i: int|
                0 <= i < n ==> (#[trigger] list@[i])@ == (DrawView::Copy {
                    image,
                    to: layer_area(
                        i,
                        drift as int,
                        millis as nat,
                        period as nat,
                        scale as nat,
                        window_height as nat,
                        texture_width as nat,
                        texture_height as nat,
                    ),
                }),
        decreases copies - n,
    {
        assert(0 <= width * n <= 0x3_0000_0000 * 3) by (nonlinear_arith)
            requires
                0 <= n <= 3,
                0 <= width <= 0x3_0000_0000,
        ;
        assert(0 <= drift * n <= 3) by (nonlinear_arith)
            requires
                0 <= n <= 3,
                0 <= drift <= 1,
        ;
        let left: i64 = width * (n as i64) + drift * (n as i64) - width + moved;
        list.push(Draw::Copy { image, to: Rect::clamped(left, top, width, height) });
        n += 1;
    }
    assert(steps(list@) =~= layer(
        image,
        copies as nat,
        drift as int,
        millis as nat,
        period as nat,
        scale as nat,
        window_height as nat,
        texture_width as nat,
        texture_height as nat,
    ));
    list
}

/// The mountains, `millis` milliseconds into the run, in a window of the
/// given height and from an image of the given size: two copies, three
/// times as large as the image.
pub fn draw_montains(millis: u64, window_height: u32, texture_width: u32, texture_height: u32) -> (list:
    Vec<Draw>)
    ensures
        steps(list@) == layer(
            Image::Montains,
            2,
            0,
            millis as nat,
            MONTAINS_PERIOD as nat,
            MONTAINS_SCALE as nat,
            window_height as nat,
            texture_width as nat,
            texture_height as nat,
        ),
{
    draw_layer(
        Image::Montains,
        2,
        0,
        millis,
        MONTAINS_PERIOD,
        MONTAINS_SCALE,
        window_height,
        texture_width,
        texture_height,
    )
}

/// The forest: three copies, three times as large as the image.
pub fn draw_forest(millis: u64, window_height: u32, texture_width: u32, texture_height: u32) -> (list:
    Vec<Draw>)
    ensures
        steps(list@) == layer(
            Image::Forest,
            3,
            0,
            millis as nat,
            FOREST_PERIOD as nat,
            MONTAINS_SCALE as nat,
            window_height as nat,
            texture_width as nat,
            texture_height as nat,
        ),
{
    draw_layer(
        Image::Forest,
        3,
        0,
        millis,
        FOREST_PERIOD,
        MONTAINS_SCALE,
        window_height,
        texture_width,
        texture_height,
    )
}

/// The ground: three copies, twice as large as the image, each a pixel
/// further to the right than the widths alone would put it.
pub fn draw_ground(millis: u64, window_height: u32, texture_width: u32, texture_height: u32) -> (list:
    Vec<Draw>)
    ensures
        steps(list@) == layer(
            Image::Background,
            3,
            1,
            millis as nat,
            GROUND_PERIOD as nat,
            GROUND_SCALE as nat,
            window_height as nat,
            texture_width as nat,
            texture_height as nat,
        ),
{
    draw_layer(
        Image::Background,
        3,
        1,
        millis,
        GROUND_PERIOD,
        GROUND_SCALE,
        window_height,
        texture_width,
        texture_height,
    )
}

/// The part of the player's image at the given column and row of its
/// sprites.
pub open spec fn player_sprite(column: int, row: int) -> RectView {
    RectView { x: column * 46, y: row * 50, width: 46, height: 50 }
}

/// The area of the player at the given height.
pub open spec fn player_area(position_y: int) -> RectView {
    RectView { x: 500, y: clamp_position(position_y), width: 138, height: 150 }
}

/// The running player, `millis` milliseconds into the run: one of eight
/// sprites of the fourth row, each shown for a tenth of a second.
pub fn draw_player(millis: u64, position_y: i32) -> (step: Draw)
    ensures
        step@ == (DrawView::Mirror {
            image: Image::Player,
            from: player_sprite((millis % 800) as int / 100, 3),
            to: player_area(position_y as int),
        }),
{
    let column: i32 = ((millis % 800) / 100) as i32;
    Draw::Mirror {
        image: Image::Player,
        from: Rect::new(column * 46, 3 * 50, 46, 50),
        to: Rect::new(500, position_y, 46 * PLAYER_SCALE, 50 * PLAYER_SCALE),
    }
}

/// The jumping player: the seventh sprite of the first row on the way up,
/// the eighth on the way down.
pub fn draw_jump(rising: bool, position_y: i32) -> (step: Draw)
    ensures
        step@ == (DrawView::Mirror {
            image: Image::Player,
            from: player_sprite(
                if rising {
                    6
                } else {
                    7
                },
                0,
            ),
            to: player_area(position_y as int),
        }),
{
    let column: i32 = if rising {
        6
    } else {
        7
    };
    Draw::Mirror {
        image: Image::Player,
        from: Rect::new(column * 46, 0, 46, 50),
        to: Rect::new(500, position_y, 46 * PLAYER_SCALE, 50 * PLAYER_SCALE),
    }
}

/// The part of the rocks' image that a rock is drawn from.
pub open spec fn rock_sprite() -> RectView {
    RectView { x: 96, y: 0, width: 32, height: 32 }
}

/// The area of the `n`-th rock, counted from the ground, of a pile at
/// `position_x`: each rock lies 17 pixels above the one below it.
pub open spec fn rock_area(position_x: int, n: int) -> RectView {
    RectView {
        x: clamp_position(position_x),
        y: clamp_position(447 + 32 - n * 17),
        width: 64,
        height: 64,
    }
}

/// The drawing steps of a pile of rocks, from the ground up.
pub open spec fn pile(position_x: int, rocks: nat) -> Seq<DrawView> {
    Seq::new(
        rocks,
        |n: int|
            DrawView::Mirror {
                image: Image::Rocks,
                from: rock_sprite(),
                to: rock_area(position_x, n),
            },
    )
}

/// An obstacle: a pile of `rocks` rocks at `position_x`.
pub fn draw_obstacle(position_x: i32, rocks: u32) -> (list: Vec<Draw>)
    ensures
        steps(list@) == pile(position_x as int, rocks as nat),
{
    let mut list: Vec<Draw> = Vec::new();
    let mut n: u32 = 0;
    while n < rocks
        invariant
            n <= rocks,
            list@.len() == n,
            forall|i: int|
                0 <= i < n ==> (#[trigger] list@[i])@ == (DrawView::Mirror {
                    image: Image::Rocks,
                    from: rock_sprite(),
                    to: rock_area(position_x as int, i),
                }),
        decreases rocks - n,
    {
        let top: i64 = 447 + 32 - (n as i64) * 17;
        list.push(
            Draw::Mirror {
                image: Image::Rocks,
                from: Rect::new(3 * 32, 0, 32, 32),
                to: Rect::clamped(position_x as i64, top, 64, 64),
            },
        );
        n += 1;
    }
    assert(steps(list@) =~= pile(position_x as int, rocks as nat));
    list
}

/// The height on the screen of the top of a pile of `rocks` rocks, which
/// the player has to clear.
pub open spec fn pile_top(rocks: nat) -> int {
    447 + 32 * ROCK_SCALE - rocks * 17
}

/// The height on the screen of the top of a pile of `rocks` rocks.
pub fn rock_top(rocks: u32) -> (top: i64)
    ensures
        top == pile_top(rocks as nat),
{
    447 + 32 * (ROCK_SCALE as i64) - (rocks as i64) * 17
}

/// The two flags of the player: whether a jump is under way, and whether
/// the jump key was let go since the last jump began.
#[derive(Clone, Copy, Debug, PartialEq, Eq, Structural)]
pub struct Flags {
    pub jumping: bool,
    pub released: bool,
}

/// The flags once the move is made: taking off begins a jump and holds the
/// key, letting go frees the key, and nothing else changes a flag.
pub open spec fn flags_after(made: Move, flags: Flags) -> Flags {
    match made {
        Move::TakeOff => Flags { jumping: true, released: false },
        Move::LetGo => Flags { released: true, ..flags },
        _ => flags,
    }
}

/// What the game answers to the move: leaving ends the run.
pub open spec fn answer(made: Move) -> Signal {
    match made {
        Move::Quit => Signal::Break,
        _ => Signal::Continue,
    }
}

/// Makes the move: gives the flags after it, the answer to the engine,
/// and whether the sound of the jump is to be played, which it is on
/// taking off.
pub fn make_move(made: Move, flags: Flags) -> (done: (Flags, Reaction))
    ensures
        done.0 == flags_after(made, flags),
        done.1.signal@ == answer(made),
        done.1.sound == (made is TakeOff),
{
    match made {
        Move::Quit => (flags, Reaction { signal: Loop::Break, sound: false }),
        Move::TakeOff => (
            Flags { jumping: true, released: false },
            Reaction { signal: Loop::Continue, sound: true },
        ),
        Move::LetGo => (
            Flags { jumping: flags.jumping, released: true },
            Reaction { signal: Loop::Continue, sound: false },
        ),
        Move::Nothing => (flags, Reaction { signal: Loop::Continue, sound: false }),
    }
}

/// The drawing step of the player: in a jump the sprite of the jump,
/// else the sprite of the run at `millis` milliseconds.
pub open spec fn figure(jumping: bool, rising: bool, millis: nat, position_y: int) -> DrawView {
    if jumping {
        DrawView::Mirror {
            image: Image::Player,
            from: player_sprite(
                if rising {
                    6
                } else {
                    7
                },
                0,
            ),
            to: player_area(position_y),
        }
    } else {
        DrawView::Mirror {
            image: Image::Player,
            from: player_sprite((millis % 800) as int / 100, 3),
            to: player_area(position_y),
        }
    }
}

/// The player, jumping or running.
pub fn draw_figure(jumping: bool, rising: bool, millis: u64, position_y: i32) -> (step: Draw)
    ensures
        step@ == figure(jumping, rising, millis as nat, position_y as int),
{
    if jumping {
        draw_jump(rising, position_y)
    } else {
        draw_player(millis, position_y)
    }
}

/// A frame of the game: on white, the mountains, the forest, the ground
/// and the obstacles. Where the player has hit an obstacle that is all,
/// and the frame is not shown; else the player follows and the frame is
/// shown.
pub open spec fn frame(
    montains: Seq<DrawView>,
    forest: Seq<DrawView>,
    ground: Seq<DrawView>,
    obstacles: Seq<DrawView>,
    colliding: bool,
    player: DrawView,
) -> Seq<DrawView> {
    let scenery = seq![DrawView::Clear { color: Color::white() }] + montains + forest + ground
        + obstacles;
    if colliding {
        scenery
    } else {
        scenery.push(player).push(DrawView::Present)
    }
}

/// What the game answers to a tick: hitting an obstacle ends the run.
pub open spec fn tick_answer(colliding: bool) -> Signal {
    if colliding {
        Signal::Break
    } else {
        Signal::Continue
    }
}

fn extend(list: &mut Vec<Draw>, more: Vec<Draw>)
    ensures
        final(list)@ == old(list)@ + more@,
{
    let mut more = more;
    list.append(&mut more);
}

/// The drawing steps of one frame, in order, and the answer to the
/// engine, from the steps of the scenery and of the player and from
/// whether the player has hit an obstacle.
pub fn on_tick(
    montains: Vec<Draw>,
    forest: Vec<Draw>,
    ground: Vec<Draw>,
    obstacles: Vec<Draw>,
    colliding: bool,
    player: Draw,
) -> (tick: (Vec<Draw>, Loop))
    ensures
        steps(tick.0@) == frame(
            steps(montains@),
            steps(forest@),
            steps(ground@),
            steps(obstacles@),
            colliding,
            player@,
        ),
        tick.1@ == tick_answer(colliding),
{
    let mut list: Vec<Draw> = Vec::new();
    list.push(Draw::Clear { color: Color::white() });
    extend(&mut list, montains);
    extend(&mut list, forest);
    extend(&mut list, ground);
    extend(&mut list, obstacles);
    if colliding {
        assert(steps(list@) =~= frame(
            steps(montains@),
            steps(forest@),
            steps(ground@),
            steps(obstacles@),
            colliding,
            player@,
        ));
        return (list, Loop::Break);
    }
    list.push(player);
    list.push(Draw::Present);
    assert(steps(list@) =~= frame(
        steps(montains@),
        steps(forest@),
        steps(ground@),
        steps(obstacles@),
        colliding,
        player@,
    ));
    (list, Loop::Continue)
}

} // verus!
