use vstd::prelude::*;

verus! {

/// What the scene and the hit material say about one bounce of a ray.
#[derive(PartialEq, Eq, Structural, Clone, Copy, Debug)]
pub enum Surface {
    /// The ray hits no object.
    Missed,
    /// The ray hits an object whose material absorbs it.
    Absorbed,
    /// The ray hits an object whose material sends out a new ray.
    Scattered,
}

/// The radiance that ends a path, before the attenuations of its bounces are applied.
#[derive(PartialEq, Eq, Structural, Clone, Copy, Debug)]
pub enum Terminal {
    /// No light: the ray was absorbed or the bounce cap was reached.
    Black,
    /// The sky gradient in the direction of the last ray.
    Sky,
}

/// The outcome of tracing a ray at `depth` whose successive bounces are `events`:
/// the number of scattering bounces whose attenuations multiply the terminal
/// radiance, and that terminal. `None` when the path needs more events than given.
pub open spec fn trace(events: Seq<Surface>, depth: nat, max_depth: nat) -> Option<(nat, Terminal)>
    decreases events.len(),
{
    if depth >= max_depth {
        Some((0, Terminal::Black))
    } else if events.len() == 0 {
        None
    } else {
        match events[0] {
            Surface::Missed => Some((0, Terminal::Sky)),
            Surface::Absorbed => Some((0, Terminal::Black)),
            Surface::Scattered => match trace(events.subrange(1, events.len() as int), depth + 1, max_depth) {
                Some((bounces, end)) => Some((bounces + 1, end)),
                None => None,
            },
        }
    }
}

/// The state of one path as a model: bounces taken so far, the cap, and the
/// terminal once the path has ended.
pub struct PathModel {
    pub depth: nat,
    pub max_depth: nat,
    pub end: Option<Terminal>,
}

/// A path that has not ended is below the cap, and one that reached the cap
/// ended in black.
pub open spec fn path_ok(m: PathModel) -> bool {
    &&& m.depth <= m.max_depth
    &&& m.end is None ==> m.depth < m.max_depth
    &&& m.depth == m.max_depth ==> m.end == Some(Terminal::Black)
}

/// The path state after one more bounce.
pub open spec fn next_state(m: PathModel, s: Surface) -> PathModel {
    match s {
        Surface::Missed => PathModel { end: Some(Terminal::Sky), ..m },
        Surface::Absorbed => PathModel { end: Some(Terminal::Black), ..m },
        Surface::Scattered => PathModel {
            depth: m.depth + 1,
            end: if m.depth + 1 >= m.max_depth {
                Some(Terminal::Black)
            } else {
                None
            },
            ..m
        },
    }
}

/// The bounded-depth path tracer as a state machine: the caller intersects
/// the scene and scatters the ray, reports what happened with `record`, and
/// stops as soon as `outcome` is known.
pub struct PathState {
    depth: u32,
    max_depth: u32,
    end: Option<Terminal>,
}

impl View for PathState {
    type V = PathModel;

    closed spec fn view(&self) -> PathModel {
        PathModel { depth: self.depth as nat, max_depth: self.max_depth as nat, end: self.end }
    }
}

impl PathState {
    #[verifier::type_invariant]
    closed spec fn inv(&self) -> bool {
        path_ok(self@)
    }

    /// A fresh path at depth zero; with a cap of zero it is black at once.
    pub fn new(max_depth: u32) -> (p: PathState)
        ensures
            p@ == (PathModel {
                depth: 0,
                max_depth: max_depth as nat,
                end: if max_depth == 0 {
                    Some(Terminal::Black)
                } else {
                    None
                },
            }),
    {
        let end = if max_depth == 0 {
            Some(Terminal::Black)
        } else {
            None
        };
        PathState { depth: 0, max_depth, end }
    }

    /// The number of scattering bounces taken so far.
    pub fn depth(&self) -> (d: u32)
        ensures
            d == self@.depth,
    {
        self.depth
    }

    /// The terminal radiance, once the path has ended.
    pub fn outcome(&self) -> (r: Option<Terminal>)
        ensures
            r == self@.end,
            path_ok(self@),
    {
        proof {
            use_type_invariant(self);
        }
        self.end
    }

    /// Whether the scene has to be queried for another bounce.
    pub fn needs_query(&self) -> (r: bool)
        ensures
            r == (self@.end is None),
            r ==> self@.depth < self@.max_depth,
    {
        proof {
            use_type_invariant(self);
        }
        self.end.is_none()
    }

    /// Takes the result of one more bounce.
    pub fn record(&mut self, s: Surface)
        requires
            old(self)@.end is None,
        ensures
            final(self)@ == next_state(old(self)@, s),
            path_ok(final(self)@),
    {
        proof {
            use_type_invariant(&*self);
        }
        match s {
            Surface::Missed => {
                self.end = Some(Terminal::Sky);
            },
            Surface::Absorbed => {
                self.end = Some(Terminal::Black);
            },
            Surface::Scattered => {
                let depth = self.depth + 1;
                let end = if depth >= self.max_depth {
                    Some(Terminal::Black)
                } else {
                    None
                };
                *self = PathState { depth, max_depth: self.max_depth, end };
            },
        }
    }
}

/// Adds `k` earlier bounces to the outcome of a path.
pub open spec fn after_bounces(o: Option<(nat, Terminal)>, k: nat) -> Option<(nat, Terminal)> {
    match o {
        Some((bounces, end)) => Some((bounces + k, end)),
        None => None,
    }
}

/// Runs the bounded path tracer on a recorded sequence of bounce results and
/// returns the number of attenuating bounces and the terminal radiance, or
/// `None` when the path has not ended once the sequence runs out.
pub fn trace_events(events: &Vec<Surface>, max_depth: u32) -> (r: Option<(u32, Terminal)>)
    ensures
        match trace(events@, 0, max_depth as nat) {
            Some((bounces, end)) => r == Some((bounces as u32, end)) && bounces <= max_depth,
            None => r is None,
        },
{
    let mut path = PathState::new(max_depth);
    let mut i: usize = 0;
    proof {
        assert(events@.subrange(0, events@.len() as int) =~= events@);
    }
    while i < events.len() && path.needs_query()
        invariant
            i <= events.len(),
            path@.max_depth == max_depth,
            path_ok(path@),
            path@.end is None ==> path@.depth == i && trace(events@, 0, max_depth as nat)
                == after_bounces(
                trace(events@.subrange(i as int, events@.len() as int), i as nat, max_depth as nat),
                i as nat,
            ),
            path@.end is Some ==> trace(events@, 0, max_depth as nat) == Some(
                (path@.depth, path@.end->0),
            ),
        decreases events.len() - i,
    {
        let ghost rest = events@.subrange(i as int, events@.len() as int);
        proof {
            assert(rest[0] == events@[i as int]);
            assert(rest.subrange(1, rest.len() as int) =~= events@.subrange(
                i + 1,
                events@.len() as int,
            ));
        }
        path.record(events[i]);
        i = i + 1;
    }
    match path.outcome() {
        Some(end) => Some((path.depth(), end)),
        None => {
            proof {
                assert(events@.subrange(i as int, events@.len() as int).len() == 0);
            }
            None
        },
    }
}

/// The path tracer never goes past the bounce cap: a path that ends has taken
/// at most `max_depth - depth` attenuating bounces, one that uses them all ends
/// in black, and a ray traced at the cap is black whatever the scene.
pub proof fn lemma_trace_capped(events: Seq<Surface>, depth: nat, max_depth: nat)
    requires
        depth <= max_depth,
    ensures
        depth == max_depth ==> trace(events, depth, max_depth) == Some((0nat, Terminal::Black)),
        match trace(events, depth, max_depth) {
            Some((bounces, end)) => depth + bounces <= max_depth && (depth + bounces
                == max_depth ==> end == Terminal::Black),
            None => true,
        },
    decreases events.len(),
{
    if depth < max_depth && events.len() > 0 && events[0] == Surface::Scattered {
        lemma_trace_capped(events.subrange(1, events.len() as int), depth + 1, max_depth);
    }
}

} // verus!
