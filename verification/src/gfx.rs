//! Render effects, tile collision classes and animation timing.

use vstd::prelude::*;

verus! {

/// How a sprite is mirrored when drawn.
#[derive(Clone, Copy, Debug, PartialEq, Eq, Structural)]
pub enum RenderFx {
    FlipX,
    NoFlip,
}

/// Collision class of a tile: a fixed, closed set of exactly three kinds.
#[derive(Clone, Copy, Debug, PartialEq, Eq, Structural)]
pub enum TileCollision {
    /// A tile which doesn't hinder motion at all.
    Passable,
    /// A completely solid tile that blocks motion from every side.
    Impassable,
    /// A tile that is solid only when approached from above: a character
    /// can jump up through it and move past it sideways, but cannot fall
    /// down through its top.
    Platform,
}

/// Most frames an animation may hold.
pub const MAX_FRAMES: usize = 1_000_000;

/// Longest accepted per-frame delay, in milliseconds.
pub const MAX_FRAME_DELAY: i64 = 1_000_000;

/// Longest accepted full animation cycle, in milliseconds.
pub const MAX_CYCLE: i64 = 1_000_000_000_000;

/// Largest time step an animation clock accepts, in milliseconds.
pub const MAX_TIME_STEP: i64 = 1_000_000_000_000_000;

/// Mathematical model of an animation clock.
pub struct AnimModel {
    pub frames: int,
    pub frame_delay: int,
    pub current_time: int,
    pub max_time: int,
}

impl AnimModel {
    pub open spec fn wf(self) -> bool {
        &&& 1 <= self.frames <= MAX_FRAMES
        &&& 1 <= self.frame_delay <= MAX_FRAME_DELAY
        &&& 1 <= self.max_time <= MAX_CYCLE
        &&& 0 <= self.current_time < self.max_time
    }

    /// Index of the frame shown at the clock's current time.
    pub open spec fn frame_index(self) -> int {
        (self.current_time / self.frame_delay) % self.frames
    }

    /// The clock after `dt` milliseconds: elapsed time accumulates modulo
    /// the total cycle duration, so the playback phase wraps around.
    pub open spec fn advanced(self, dt: int) -> AnimModel {
        AnimModel { current_time: (self.current_time + dt) % self.max_time, ..self }
    }
}

/// Frame playback state of one animation: a frame count, the delay between
/// consecutive frames, and the clock's own persistent time accumulator (the
/// total time the animation has been alive, modulo its cycle), from which
/// the current frame is derived. Each animation keeps its own clock, so
/// resuming one resumes mid-cycle.
#[derive(Clone, Copy, Debug, PartialEq, Eq, Structural)]
pub struct AnimatedSprite {
    pub frames: usize,
    pub frame_delay: i64,
    pub current_time: i64,
    pub max_time: i64,
}

impl View for AnimatedSprite {
    type V = AnimModel;

    open spec fn view(&self) -> AnimModel {
        AnimModel {
            frames: self.frames as int,
            frame_delay: self.frame_delay as int,
            current_time: self.current_time as int,
            max_time: self.max_time as int,
        }
    }
}

impl AnimatedSprite {
    /// A clock over `frames` frames shown `frame_delay` milliseconds each.
    /// Rejects empty or zero-duration (or oversized) cycles outright, so no
    /// invalid playback state can enter the per-frame loop.
    pub fn new(frames: usize, frame_delay: i64) -> (r: Option<AnimatedSprite>)
        ensures
            r.is_some() <==> 1 <= frames <= MAX_FRAMES && 1 <= frame_delay <= MAX_FRAME_DELAY,
            r matches Some(s) ==> s@ == (AnimModel {
                frames: frames as int,
                frame_delay: frame_delay as int,
                current_time: 0,
                max_time: frames * frame_delay,
            }) && s@.wf(),
    {
        if frames < 1 || frames > MAX_FRAMES || frame_delay < 1 || frame_delay > MAX_FRAME_DELAY {
            return None;
        }
        let frame_count: i64 = frames as i64;
        assert(frame_count * frame_delay <= MAX_CYCLE) by (nonlinear_arith)
            requires
                1 <= frame_count <= MAX_FRAMES,
                1 <= frame_delay <= MAX_FRAME_DELAY,
        ;
        assert(frame_count * frame_delay >= 1) by (nonlinear_arith)
            requires
                1 <= frame_count,
                1 <= frame_delay,
        ;
        Some(
            AnimatedSprite {
                frames,
                frame_delay,
                current_time: 0,
                max_time: frame_count * frame_delay,
            },
        )
    }

    /// A clock over `frames` frames played at `fps` frames per second; the
    /// per-frame delay is `1000 / fps` milliseconds, truncated.
    pub fn with_fps(frames: usize, fps: i64) -> (r: Option<AnimatedSprite>)
        ensures
            r.is_some() <==> 1 <= frames <= MAX_FRAMES && 1 <= fps <= 1000,
            r matches Some(s) ==> s@ == (AnimModel {
                frames: frames as int,
                frame_delay: 1000int / fps as int,
                current_time: 0,
                max_time: frames * (1000int / fps as int),
            }) && s@.wf(),
    {
        if fps < 1 || fps > 1000 {
            return None;
        }
        let frame_delay: i64 = 1000 / fps;
        assert(1 <= 1000int / fps as int <= 1000) by (nonlinear_arith)
            requires
                1 <= fps <= 1000,
        ;
        Self::new(frames, frame_delay)
    }

    /// Number of frames composing the animation.
    pub fn frames(&self) -> (n: usize)
        ensures
            n == self@.frames,
    {
        self.frames
    }

    /// The clock's accumulated time, in milliseconds.
    pub fn current_time(&self) -> (t: i64)
        ensures
            t == self@.current_time,
    {
        self.current_time
    }

    /// Sets the time it takes to get from one frame to the next. The total
    /// cycle duration is deliberately left as it was fixed at construction.
    pub fn set_frame_delay(&mut self, frame_delay: i64)
        requires
            old(self)@.wf(),
            1 <= frame_delay <= MAX_FRAME_DELAY,
        ensures
            final(self)@ == (AnimModel { frame_delay: frame_delay as int, ..old(self)@ }),
            final(self)@.wf(),
    {
        self.frame_delay = frame_delay;
    }

    /// Sets the number of frames the animation goes through every second.
    pub fn set_fps(&mut self, fps: i64)
        requires
            old(self)@.wf(),
            1 <= fps <= 1000,
        ensures
            final(self)@ == (AnimModel { frame_delay: 1000int / fps as int, ..old(self)@ }),
            final(self)@.wf(),
    {
        let frame_delay: i64 = 1000 / fps;
        assert(1 <= 1000int / fps as int <= 1000) by (nonlinear_arith)
            requires
                1 <= fps <= 1000,
        ;
        self.set_frame_delay(frame_delay);
    }

    /// Adds `dt` milliseconds (possibly negative, to rewind) to the clock's
    /// accumulated time, wrapping it into the animation's cycle.
    pub fn add_time(&mut self, dt: i64)
        requires
            old(self)@.wf(),
            -MAX_TIME_STEP <= dt <= MAX_TIME_STEP,
        ensures
            final(self)@ == old(self)@.advanced(dt as int),
            final(self)@.wf(),
    {
        let sum: i64 = self.current_time + dt;
        let rem: i64 = sum % self.max_time;
        let wrapped: i64 = if rem < 0 { rem + self.max_time } else { rem };
        proof {
            let s = sum as int;
            let m = self.max_time as int;
            if s < 0 {
                let q = (-s) / m;
                let n = (-s) % m;
                vstd::arithmetic::div_mod::lemma_fundamental_div_mod(-s, m);
                if n == 0 {
                    assert(s == (-q) * m + 0) by (nonlinear_arith)
                        requires
                            -s == m * q + n,
                            n == 0,
                    ;
                    vstd::arithmetic::div_mod::lemma_fundamental_div_mod_converse(s, m, -q, 0);
                } else {
                    assert(s == (-q - 1) * m + (m - n)) by (nonlinear_arith)
                        requires
                            -s == m * q + n,
                    ;
                    vstd::arithmetic::div_mod::lemma_fundamental_div_mod_converse(
                        s,
                        m,
                        -q - 1,
                        m - n,
                    );
                }
            }
        }
        self.current_time = wrapped;
    }

    /// Index of the frame to show now: the number of whole frame delays in
    /// the accumulated time, wrapped around the frame count.
    pub fn current_frame(&self) -> (i: usize)
        requires
            self@.wf(),
        ensures
            i == self@.frame_index(),
            i < self@.frames,
    {
        let idx: i64 = (self.current_time / self.frame_delay) % (self.frames as i64);
        idx as usize
    }
}

} // verus!
