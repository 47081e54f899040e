//! The sprite as a value that is created, ticked and asked about.

use vstd::prelude::*;
use crate::canvas::{
    flip, in_canvas, screen_left, screen_top, CANVAS_HEIGHT, CANVAS_WIDTH, FERRIS_HEIGHT,
    FERRIS_WIDTH,
};
use crate::motion::{
    lemma_alive_is_inside, lemma_position_after, lemma_velocity_after, moved_through, run, spawn,
    step, triangle, State, ACCELERATION_Y, INITIAL_VELOCITY_X, INITIAL_VELOCITY_Y,
};

verus! {

/// What has to happen to the picture of a sprite after a tick.
#[derive(Clone, Copy, Debug, PartialEq, Eq, Structural)]
pub enum Effect {
    /// Put the picture at these offsets from the top-left corner of the
    /// canvas, in pixels.
    Place { left: i32, top: i32 },
    /// Take the picture away: the sprite has just left the canvas.
    Remove,
    /// Leave everything as it is: the sprite was dead before the tick.
    Nothing,
}

impl Effect {
    /// Whether `self` is the effect of the tick that starts in `before`.
    pub open spec fn of_tick(self, before: State) -> bool {
        match self {
            Effect::Nothing => !before.alive,
            Effect::Remove => before.alive && !step(before).alive,
            Effect::Place { left, top } => {
                &&& before.alive
                &&& step(before).alive
                &&& left == screen_left(step(before).x)
                &&& top == screen_top(step(before).y)
            },
        }
    }

    /// A tick has one effect: two effects of the tick that starts in
    /// `before` are the same.
    pub proof fn lemma_of_tick_is_unique(self, other: Effect, before: State)
        requires
            self.of_tick(before),
            other.of_tick(before),
        ensures
            self == other,
    {
    }
}

/// One sprite: where it is, how fast it moves, and whether it is still
/// inside the canvas.
///
/// Besides this the value remembers, for proofs only, where it was thrown
/// from and in how many ticks it has moved since.
pub struct Ferris {
    pos_x: i32,
    pos_y: i32,
    vel_x: i32,
    vel_y: i32,
    alive: bool,
    origin: Ghost<(int, int)>,
    age: Ghost<nat>,
}

impl View for Ferris {
    type V = State;

    closed spec fn view(&self) -> State {
        State {
            x: self.pos_x as int,
            y: self.pos_y as int,
            vx: self.vel_x as int,
            vy: self.vel_y as int,
            alive: self.alive,
        }
    }
}

impl Ferris {
    /// The point, in logical space, from which the sprite was thrown.
    pub closed spec fn origin(&self) -> (int, int) {
        self.origin@
    }

    /// The number of ticks in which the sprite has moved. The tick in which
    /// it leaves the canvas counts; later ticks do not.
    pub closed spec fn age(&self) -> nat {
        self.age@
    }

    /// Every sprite was thrown from inside the canvas and is where `age()`
    /// ticks of motion have taken it from there.
    #[verifier::type_invariant]
    pub open spec fn on_course(&self) -> bool {
        &&& in_canvas(self.origin().0, self.origin().1)
        &&& moved_through(self.origin().0, self.origin().1, self.age())
        &&& self@ == run(spawn(self.origin().0, self.origin().1), self.age())
    }

    /// The state of a sprite in closed form: its velocity and its position
    /// follow from the point of its throw and its age alone, and while it is
    /// alive it is inside the canvas.
    pub proof fn lemma_closed_form(&self)
        requires
            self.on_course(),
        ensures
            self@.vx == INITIAL_VELOCITY_X,
            self@.vy == INITIAL_VELOCITY_Y + self.age() * ACCELERATION_Y,
            self@.x == self.origin().0 + self.age() * INITIAL_VELOCITY_X,
            self@.y == self.origin().1 + self.age() * INITIAL_VELOCITY_Y
                + ACCELERATION_Y * triangle(self.age()),
            self@.alive ==> in_canvas(self@.x, self@.y),
    {
        let (px, py) = self.origin();
        lemma_velocity_after(px, py, self.age());
        lemma_position_after(px, py, self.age());
        if self@.alive {
            lemma_alive_is_inside(px, py, self.age());
        }
    }

    /// Whether the bounding box of a sprite at `(pos_x, pos_y)` lies strictly
    /// inside the canvas.
    pub fn is_in_canvas(pos_x: i32, pos_y: i32) -> (inside: bool)
        ensures
            inside == in_canvas(pos_x as int, pos_y as int),
    {
        let inside_x = pos_x > FERRIS_WIDTH / 2 && pos_x < CANVAS_WIDTH - FERRIS_WIDTH / 2;
        let inside_y = pos_y > FERRIS_HEIGHT / 2 && pos_y < CANVAS_HEIGHT - FERRIS_HEIGHT / 2;
        inside_x && inside_y
    }

    /// Whether `thrown` is what a throw from `(px, py)` gives: nothing where
    /// the sprite would not be inside the canvas, else the sprite after its
    /// first tick together with the effect of that tick.
    pub open spec fn is_throw_from(thrown: Option<(Ferris, Effect)>, px: int, py: int) -> bool {
        &&& thrown is Some <==> in_canvas(px, py)
        &&& thrown matches Some((ferris, effect)) ==> {
            &&& ferris@ == step(spawn(px, py))
            &&& ferris.origin() == (px, py)
            &&& ferris.age() == 1
            &&& ferris.on_course()
            &&& effect.of_tick(spawn(px, py))
        }
    }

    /// Throws a sprite from `(px, py)`, given in logical space, and moves it
    /// by one tick at once.
    ///
    /// Outside the canvas nothing is thrown. Inside, the result holds the
    /// sprite after its first tick and what that tick means for its picture,
    /// which the caller has to create before.
    pub fn new(px: i32, py: i32) -> (thrown: Option<(Ferris, Effect)>)
        ensures
            Ferris::is_throw_from(thrown, px as int, py as int),
    {
        if !Ferris::is_in_canvas(px, py) {
            return None;
        }
        let mut ferris = Ferris {
            pos_x: px,
            pos_y: py,
            vel_x: INITIAL_VELOCITY_X,
            vel_y: INITIAL_VELOCITY_Y,
            alive: true,
            origin: Ghost((px as int, py as int)),
            age: Ghost(0),
        };
        let effect = ferris.update();
        Some((ferris, effect))
    }

    /// Throws a sprite from the point of a pointer event on the canvas.
    ///
    /// The event gives the point by its offsets from the top-left corner of
    /// the canvas, `offset_y` growing downward. The rest is as in [`Ferris::new`].
    pub fn at_pointer(offset_x: i32, offset_y: i32) -> (thrown: Option<(Ferris, Effect)>)
        ensures
            Ferris::is_throw_from(thrown, offset_x as int, flip(offset_y as int)),
    {
        match CANVAS_HEIGHT.checked_sub(offset_y) {
            Some(py) => Ferris::new(offset_x, py),
            None => None,
        }
    }

    /// Moves the sprite by one tick and says what that means for its picture.
    ///
    /// A dead sprite stays as it is. A live one gains the acceleration,
    /// moves by its new velocity, and dies if that takes it out of the
    /// canvas; it keeps the position and the velocity it died with.
    pub fn update(&mut self) -> (effect: Effect)
        ensures
            final(self)@ == step(old(self)@),
            effect.of_tick(old(self)@),
            !old(self)@.alive ==> final(self)@ == old(self)@ && effect == Effect::Nothing,
            final(self).origin() == old(self).origin(),
            final(self).age() == old(self).age() + (if old(self)@.alive { 1nat } else { 0nat }),
            final(self).on_course(),
    {
        proof {
            use_type_invariant(&*self);
            self.lemma_closed_form();
        }
        if !self.alive {
            return Effect::Nothing;
        }
        let vel_y = self.vel_y + ACCELERATION_Y;
        let pos_x = self.pos_x + self.vel_x;
        let pos_y = self.pos_y + vel_y;
        let alive = Ferris::is_in_canvas(pos_x, pos_y);
        *self = Ferris {
            pos_x,
            pos_y,
            vel_x: self.vel_x,
            vel_y,
            alive,
            origin: self.origin,
            age: Ghost(self.age@ + 1),
        };
        if alive {
            Effect::Place {
                left: pos_x - FERRIS_WIDTH / 2,
                top: CANVAS_HEIGHT - pos_y - FERRIS_HEIGHT / 2,
            }
        } else {
            Effect::Remove
        }
    }

    /// Whether the sprite is still inside the canvas.
    pub fn is_alive(&self) -> (alive: bool)
        ensures
            alive == self@.alive,
    {
        self.alive
    }

    /// The centre of the sprite, in logical space.
    pub fn position(&self) -> (at: (i32, i32))
        ensures
            at.0 == self@.x,
            at.1 == self@.y,
    {
        (self.pos_x, self.pos_y)
    }

    /// The velocity of the sprite, in pixels per tick.
    pub fn velocity(&self) -> (by: (i32, i32))
        ensures
            by.0 == self@.vx,
            by.1 == self@.vy,
    {
        (self.vel_x, self.vel_y)
    }
}

} // verus!
