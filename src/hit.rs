use vstd::prelude::*;

verus! {

/// The order key of a 32-bit IEEE float given by its bits: sign and magnitude
/// as one signed integer. For floats that are not NaN, `a < b` exactly when
/// the key of `a` is below the key of `b`; both zeros have key 0.
pub open spec fn order_key_of(bits: u32) -> int {
    if bits >= 0x8000_0000 {
        -(bits - 0x8000_0000)
    } else {
        bits as int
    }
}

/// Computes the order key of a float from its bits.
pub fn order_key(bits: u32) -> (k: i64)
    ensures
        k == order_key_of(bits),
{
    if bits >= 0x8000_0000 {
        -((bits - 0x8000_0000) as i64)
    } else {
        bits as i64
    }
}

/// The bits of the negated float: the sign bit flipped.
pub open spec fn negated_bits(bits: u32) -> u32 {
    if bits >= 0x8000_0000 {
        (bits - 0x8000_0000) as u32
    } else {
        (bits + 0x8000_0000) as u32
    }
}

/// Negating a float negates its order key.
pub proof fn lemma_negated_key(bits: u32)
    ensures
        order_key_of(negated_bits(bits)) == -order_key_of(bits),
{
}

/// Candidate `i` holds a hit at the smallest parameter, and no earlier
/// candidate holds a hit at that same parameter.
pub open spec fn is_nearest(ts: Seq<Option<i64>>, i: int) -> bool {
    &&& 0 <= i < ts.len()
    &&& ts[i] is Some
    &&& forall|j: int|
        0 <= j < ts.len() && ts[j] is Some ==> ts[i]->0 <= ts[j]->0 && (j < i ==> ts[i]->0
            < ts[j]->0)
}

/// Some candidate holds a hit.
pub open spec fn any_hit(ts: Seq<Option<i64>>) -> bool {
    exists|j: int| 0 <= j < ts.len() && ts[j] is Some
}

/// Picks, among the hits of the objects of a scene in scene order (each the
/// order key of its ray parameter, `None` for a miss), the one with the
/// smallest signed parameter; the first such object wins a tie.
pub fn nearest_hit(ts: &Vec<Option<i64>>) -> (r: Option<usize>)
    ensures
        r is Some <==> any_hit(ts@),
        r matches Some(i) ==> is_nearest(ts@, i as int),
{
    let mut best: Option<usize> = None;
    let mut i: usize = 0;
    while i < ts.len()
        invariant
            i <= ts.len(),
            best is None ==> forall|j: int| 0 <= j < i ==> ts@[j] is None,
            best matches Some(b) ==> is_nearest(ts@.subrange(0, i as int), b as int),
        decreases ts.len() - i,
    {
        if let Some(t) = ts[i] {
            let better = match best {
                None => true,
                Some(b) => t < ts[b].unwrap(),
            };
            if better {
                best = Some(i);
            }
        }
        proof {
            let pre = ts@.subrange(0, i as int);
            let cur = ts@.subrange(0, i + 1);
            assert forall|j: int| 0 <= j < i implies cur[j] == pre[j] && cur[j] == ts@[j] by {}
        }
        i = i + 1;
    }
    proof {
        assert(ts@.subrange(0, ts.len() as int) =~= ts@);
    }
    best
}

/// Which root of the ray-sphere quadratic is the hit.
#[derive(PartialEq, Eq, Structural, Clone, Copy, Debug)]
pub enum Root {
    /// The smaller root.
    Near,
    /// The larger root.
    Far,
}

/// The key `t` lies in the closed interval `[t_min, t_max]`.
pub open spec fn within(t: i64, t_min: i64, t_max: i64) -> bool {
    t_min <= t <= t_max
}

/// Decides a ray-sphere intersection from the order keys of the discriminant,
/// the interval and the two roots: a discriminant that is not positive is a
/// miss (tangency included); otherwise the smaller root if it lies in the
/// interval, else the larger root if it does, else a miss.
pub fn sphere_root(discriminant: i64, t_min: i64, t_max: i64, near: i64, far: i64) -> (r: Option<Root>)
    ensures
        r == if discriminant <= 0 {
            None
        } else if within(near, t_min, t_max) {
            Some(Root::Near)
        } else if within(far, t_min, t_max) {
            Some(Root::Far)
        } else {
            None
        },
{
    if discriminant <= 0 {
        None
    } else if t_min <= near && near <= t_max {
        Some(Root::Near)
    } else if t_min <= far && far <= t_max {
        Some(Root::Far)
    } else {
        None
    }
}

/// The side of a surface that a ray meets.
#[derive(PartialEq, Eq, Structural, Clone, Copy, Debug)]
pub enum Face {
    /// The ray comes from outside: it runs against the geometric normal.
    Front,
    /// The ray comes from inside.
    Back,
}

/// The face met by a ray whose direction has dot product `dot` with the
/// geometric normal: the front exactly when the ray runs against the normal.
pub open spec fn face_of(dot: int) -> Face {
    if dot < 0 {
        Face::Front
    } else {
        Face::Back
    }
}

/// The dot product of the ray direction and the stored normal, which is the
/// geometric normal on a front face and its negation on a back face.
pub open spec fn stored_alignment(dot: int) -> int {
    if face_of(dot) == Face::Back {
        -dot
    } else {
        dot
    }
}

/// Negating the geometric normal, as a sphere with a negative radius does,
/// flips the face that a ray meets, while the stored normal stays the same
/// and points against the ray.
pub proof fn lemma_flipped_normal(dot: int)
    requires
        dot != 0,
    ensures
        face_of(-dot) != face_of(dot),
        stored_alignment(-dot) == stored_alignment(dot),
        stored_alignment(dot) < 0,
{
}

impl Face {
    /// The face met by a ray, from the order key of the dot product of its
    /// direction and the geometric normal. The stored normal is the geometric
    /// one on a front face and its negation on a back face.
    pub fn of_alignment(dot: i64) -> (f: Face)
        ensures
            f == face_of(dot as int),
    {
        if dot < 0 {
            Face::Front
        } else {
            Face::Back
        }
    }

    /// Whether the stored normal is the geometric normal negated.
    pub fn flips_normal(&self) -> (r: bool)
        ensures
            r == (*self == Face::Back),
    {
        match self {
            Face::Front => false,
            Face::Back => true,
        }
    }
}

} // verus!
