//! The course of one light path: how many times it bounces and how it ends.
//!
//! The colour seen along a ray is defined by recursion on a bounce budget.
//! With no budget left it is black. Otherwise the ray is traced: where it
//! misses the scene the colour is that of the sky behind it; where the
//! surface it hits absorbs it the colour is black; where the surface
//! scatters it the colour is the attenuation times the colour seen along
//! the scattered ray, with one bounce less to spend. So a path is a run of
//! scatterings and an end, and its colour is the product of the
//! attenuations along it, times black or times the sky.

use crate::scalar::Scalar;
use crate::scalar::INFINITY_BITS;
use vstd::prelude::*;

verus! {

/// The encoding of 0.001: hits nearer than this along a ray are taken for
/// the surface the ray has just left.
pub const NEAREST_HIT_BITS: u64 = 0x3F50_624D_D2F1_A9FC;

/// What tracing one ray against the scene found.
#[derive(Clone, Copy, Debug, PartialEq, Eq, Structural)]
pub enum Event {
    /// The ray hits nothing.
    Miss,
    /// The ray hits a surface that absorbs it.
    Absorbed,
    /// The ray hits a surface that scatters it.
    Scattered,
}

/// How a path ends.
#[derive(Clone, Copy, Debug, PartialEq, Eq, Structural)]
pub enum Radiance {
    /// In darkness: the budget ran out, or a surface absorbed the ray.
    Black,
    /// In the sky behind the last ray.
    Sky,
}

/// What to do after a ray has been traced.
#[derive(Clone, Copy, Debug, PartialEq, Eq, Structural)]
pub enum Step {
    /// The path has ended.
    Done(Radiance),
    /// Trace the scattered ray, with this budget.
    Next(i32),
}

/// A path: the number of scatterings along it, and its end.
#[derive(Clone, Copy, Debug, PartialEq, Eq, Structural)]
pub struct Outcome {
    pub bounces: usize,
    pub terminal: Radiance,
}

/// The step that follows a ray traced with budget `depth`.
pub open spec fn spec_step(depth: int, event: Event) -> Step {
    if depth <= 0 {
        Step::Done(Radiance::Black)
    } else {
        match event {
            Event::Miss => Step::Done(Radiance::Sky),
            Event::Absorbed => Step::Done(Radiance::Black),
            Event::Scattered => Step::Next((depth - 1) as i32),
        }
    }
}

/// The path of a ray with budget `depth`, where `events` tells what the
/// ray and each scattered ray after it finds: the number of scatterings and
/// the end. It is none where `events` stops before the path does.
pub open spec fn spec_color(depth: int, events: Seq<Event>) -> Option<(nat, Radiance)>
    decreases events.len(),
{
    if depth <= 0 {
        Some((0nat, Radiance::Black))
    } else if events.len() == 0 {
        None
    } else {
        match events[0] {
            Event::Miss => Some((0nat, Radiance::Sky)),
            Event::Absorbed => Some((0nat, Radiance::Black)),
            Event::Scattered => match spec_color(depth - 1, events.drop_first()) {
                None => None,
                Some((bounces, terminal)) => Some((bounces + 1, terminal)),
            },
        }
    }
}

/// The range of ray parameters in which a path looks for its next hit:
/// from 0.001 to infinity.
pub fn hit_range() -> (range: (Scalar, Scalar))
    ensures
        range.0.bits == NEAREST_HIT_BITS,
        range.1.bits == INFINITY_BITS,
{
    (Scalar::from_bits(NEAREST_HIT_BITS), Scalar::from_bits(INFINITY_BITS))
}

/// Whether a ray with budget `depth` is not traced at all: its colour is
/// black.
pub fn exhausted(depth: i32) -> (r: bool)
    ensures
        r == (depth <= 0),
        r ==> forall|event: Event| spec_step(depth as int, event) == Step::Done(Radiance::Black),
{
    depth <= 0
}

/// Decides what follows a ray that was traced with budget `depth` and
/// found `event`.
pub fn step(depth: i32, event: Event) -> (s: Step)
    ensures
        s == spec_step(depth as int, event),
{
    if depth <= 0 {
        return Step::Done(Radiance::Black);
    }
    match event {
        Event::Miss => Step::Done(Radiance::Sky),
        Event::Absorbed => Step::Done(Radiance::Black),
        Event::Scattered => Step::Next(depth - 1),
    }
}

/// Follows a path through `events` with an explicit loop, so that a large
/// budget costs no stack. The result is the path that the recursive
/// definition gives.
pub fn color(depth: i32, events: &Vec<Event>) -> (out: Option<Outcome>)
    ensures
        match out {
            None => spec_color(depth as int, events@).is_none(),
            Some(o) => spec_color(depth as int, events@) == Some((o.bounces as nat, o.terminal)),
        },
{
    let mut left: i32 = depth;
    let mut k: usize = 0;
    assert(events@.skip(0) == events@);
    loop
        invariant
            k <= events@.len(),
            left <= depth,
            match spec_color(left as int, events@.skip(k as int)) {
                None => spec_color(depth as int, events@).is_none(),
                Some((bounces, terminal)) => spec_color(depth as int, events@) == Some(
                    (bounces + k as nat, terminal),
                ),
            },
        decreases events@.len() - k,
    {
        if exhausted(left) {
            return Some(Outcome { bounces: k, terminal: Radiance::Black });
        }
        if k >= events.len() {
            return None;
        }
        proof {
            assert(events@.skip(k as int).drop_first() == events@.skip(k + 1));
        }
        match step(left, events[k]) {
            Step::Done(terminal) => {
                return Some(Outcome { bounces: k, terminal });
            },
            Step::Next(rest) => {
                left = rest;
                k += 1;
            },
        }
    }
}

/// With no budget, every path is black and has no bounce, whatever the
/// rays would find.
pub proof fn lemma_no_budget_is_black(depth: int, events: Seq<Event>)
    requires
        depth <= 0,
    ensures
        spec_color(depth, events) == Some((0nat, Radiance::Black)),
{
}

/// A path scatters at most as often as its budget allows and as there are
/// events, and one that reaches the sky has budget to spare.
pub proof fn lemma_bounces_within_budget(depth: int, events: Seq<Event>)
    requires
        spec_color(depth, events).is_some(),
    ensures
        ({
            let (bounces, terminal) = spec_color(depth, events).unwrap();
            &&& bounces <= events.len()
            &&& depth <= 0 ==> bounces == 0
            &&& depth > 0 ==> bounces <= depth
            &&& terminal == Radiance::Sky ==> bounces < depth
        }),
    decreases events.len(),
{
    if depth > 0 && events.len() > 0 && events[0] == Event::Scattered {
        lemma_bounces_within_budget(depth - 1, events.drop_first());
    }
}

/// Following a path step by step gives the path of the recursive
/// definition: the first event decides, and where it is a scattering the
/// rest of the path is the path of the scattered ray.
pub proof fn lemma_color_by_steps(depth: int, events: Seq<Event>)
    requires
        events.len() > 0,
        depth <= i32::MAX,
    ensures
        spec_color(depth, events) == match spec_step(depth, events[0]) {
            Step::Done(terminal) => Some((0nat, terminal)),
            Step::Next(rest) => match spec_color(rest as int, events.drop_first()) {
                None => None,
                Some((bounces, terminal)) => Some((bounces + 1, terminal)),
            },
        },
{
}

} // verus!
