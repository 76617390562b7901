use vstd::prelude::*;

use crate::ids::IdGenerator;
use crate::vector::Vector2;

verus! {

/// One point mass. `T` is the scalar type of its physical quantities.
#[derive(Clone, Copy, Debug, PartialEq)]
pub struct Body<T> {
    pub position: Vector2<T>,
    pub velocity: Vector2<T>,
    pub mass: T,
    pub radius: T,
    pub id: u16,
}

/// The live bodies, the snapshot they can be restored from, and the source
/// of their identifiers.
///
/// New bodies start with velocity `(rest, rest)` and radius `default_radius`.
/// The scalar type `T` is left open: the step takes its arithmetic from the
/// caller, as `pull` (the acceleration one body gives another) and `plus`.
#[derive(Debug)]
pub struct World<T> {
    pub initial_bodies: Vec<Body<T>>,
    pub bodies: Vec<Body<T>>,
    pub ids: IdGenerator,
    pub rest: T,
    pub default_radius: T,
}

/// Every body in `s` carries an identifier below `bound`.
pub open spec fn ids_below<T>(s: Seq<Body<T>>, bound: nat) -> bool {
    forall|i: int| 0 <= i < s.len() ==> (#[trigger] s[i]).id < bound
}

/// The body that `World::add_body` appends.
pub open spec fn fresh_body<T>(x: T, y: T, mass: T, rest: T, radius: T, id: u16) -> Body<T> {
    Body {
        position: Vector2 { x, y },
        velocity: Vector2 { x: rest, y: rest },
        mass,
        radius,
        id,
    }
}

/// Summing in the pull of body `j` on body `i` takes the running total from
/// `before` to `after`; a body exerts no pull on itself.
pub open spec fn sum_step<T, F: Fn(Body<T>, Body<T>) -> Vector2<T>, G: Fn(T, T) -> T>(
    pull: F,
    plus: G,
    s: Seq<Body<T>>,
    i: int,
    j: int,
    before: Vector2<T>,
    after: Vector2<T>,
) -> bool {
    if i == j {
        after == before
    } else {
        exists|c: Vector2<T>|
            #[trigger] pull.ensures((s[i], s[j]), c) && plus.ensures((before.x, c.x), after.x)
                && plus.ensures((before.y, c.y), after.y)
    }
}

/// `trace` holds the running totals of the pulls on body `i`, taken over the
/// bodies of `s` in order, starting from `(zero, zero)`.
pub open spec fn pull_trace<T, F: Fn(Body<T>, Body<T>) -> Vector2<T>, G: Fn(T, T) -> T>(
    pull: F,
    plus: G,
    zero: T,
    s: Seq<Body<T>>,
    i: int,
    trace: Seq<Vector2<T>>,
) -> bool {
    &&& trace.len() == s.len() + 1
    &&& trace[0] == Vector2 { x: zero, y: zero }
    &&& forall|j: int|
        0 <= j < s.len() ==> #[trigger] sum_step(pull, plus, s, i, j, trace[j], trace[j + 1])
}

/// `acc` is the net pull on body `i` of `s`: the sum, in the order of `s`, of
/// the pull of every other body on it.
pub open spec fn net_pull<T, F: Fn(Body<T>, Body<T>) -> Vector2<T>, G: Fn(T, T) -> T>(
    pull: F,
    plus: G,
    zero: T,
    s: Seq<Body<T>>,
    i: int,
    acc: Vector2<T>,
) -> bool {
    exists|trace: Seq<Vector2<T>>|
        #[trigger] pull_trace(pull, plus, zero, s, i, trace) && trace.last() == acc
}

/// `after` is `before` advanced by `acc`: velocity first, then position by
/// the new velocity; mass, radius and identifier kept.
pub open spec fn advanced<T, G: Fn(T, T) -> T>(
    plus: G,
    before: Body<T>,
    acc: Vector2<T>,
    after: Body<T>,
) -> bool {
    &&& plus.ensures((before.velocity.x, acc.x), after.velocity.x)
    &&& plus.ensures((before.velocity.y, acc.y), after.velocity.y)
    &&& plus.ensures((before.position.x, after.velocity.x), after.position.x)
    &&& plus.ensures((before.position.y, after.velocity.y), after.position.y)
    &&& after.mass == before.mass
    &&& after.radius == before.radius
    &&& after.id == before.id
}

/// `after` is body `i` of `s` after one step: advanced by its net pull.
pub open spec fn stepped<T, F: Fn(Body<T>, Body<T>) -> Vector2<T>, G: Fn(T, T) -> T>(
    pull: F,
    plus: G,
    zero: T,
    s: Seq<Body<T>>,
    i: int,
    after: Body<T>,
) -> bool {
    exists|acc: Vector2<T>|
        #[trigger] net_pull(pull, plus, zero, s, i, acc) && advanced(plus, s[i], acc, after)
}

/// `c` is `b` with its mass replaced by `grow` where `at` holds of `b`, and
/// `b` itself where it does not.
pub open spec fn mass_adjusted<T, F: Fn(Body<T>) -> bool, G: Fn(T) -> T>(
    at: F,
    grow: G,
    b: Body<T>,
    c: Body<T>,
) -> bool {
    ||| at.ensures((b,), true) && grow.ensures((b.mass,), c.mass) && c == (Body { mass: c.mass, ..b })
    ||| at.ensures((b,), false) && c == b
}

/// `c` is `b` with its radius replaced by `grow` where `at` holds of `b`, and
/// `b` itself where it does not.
pub open spec fn radius_adjusted<T, F: Fn(Body<T>) -> bool, G: Fn(T) -> T>(
    at: F,
    grow: G,
    b: Body<T>,
    c: Body<T>,
) -> bool {
    ||| at.ensures((b,), true) && grow.ensures((b.radius,), c.radius) && c == (Body {
        radius: c.radius,
        ..b
    })
    ||| at.ensures((b,), false) && c == b
}

/// A copy of `v`, element for element.
fn copy_bodies<T: Copy>(v: &Vec<Body<T>>) -> (r: Vec<Body<T>>)
    ensures
        r@ == v@,
{
    let mut r: Vec<Body<T>> = Vec::new();
    let mut i: usize = 0;
    while i < v.len()
        invariant
            i <= v@.len(),
            r@ == v@.subrange(0, i as int),
        decreases v@.len() - i,
    {
        r.push(v[i]);
        i = i + 1;
        proof {
            assert(r@ =~= v@.subrange(0, i as int));
        }
    }
    proof {
        assert(r@ =~= v@);
    }
    r
}

impl<T: Copy> World<T> {
    /// Every identifier held, live or in the snapshot, was issued already.
    pub open spec fn wf(&self) -> bool {
        &&& self.ids.wf()
        &&& ids_below(self.bodies@, self.ids.issued())
        &&& ids_below(self.initial_bodies@, self.ids.issued())
    }

    /// An empty world with a fresh identifier source.
    pub fn new(rest: T, default_radius: T) -> (r: World<T>)
        ensures
            r.wf(),
            r.bodies@.len() == 0,
            r.initial_bodies@.len() == 0,
            r.ids.issued() == 0,
            r.rest == rest,
            r.default_radius == default_radius,
    {
        World::with_ids(IdGenerator::new(), rest, default_radius)
    }

    /// An empty world drawing its identifiers from `ids`, so that several
    /// worlds can share one sequence of identifiers.
    pub fn with_ids(ids: IdGenerator, rest: T, default_radius: T) -> (r: World<T>)
        requires
            ids.wf(),
        ensures
            r.wf(),
            r.bodies@.len() == 0,
            r.initial_bodies@.len() == 0,
            r.ids == ids,
            r.rest == rest,
            r.default_radius == default_radius,
    {
        World { initial_bodies: Vec::new(), bodies: Vec::new(), ids, rest, default_radius }
    }

    /// Appends a body at rest at `(x, y)` with the given mass and the default
    /// radius, under the next identifier, which it returns.
    pub fn add_body(&mut self, x: T, y: T, mass: T) -> (id: u16)
        requires
            old(self).wf(),
            old(self).ids.can_issue(),
        ensures
            final(self).wf(),
            id as nat == old(self).ids.issued(),
            final(self).ids.issued() == old(self).ids.issued() + 1,
            final(self).bodies@ == old(self).bodies@.push(
                fresh_body(x, y, mass, old(self).rest, old(self).default_radius, id),
            ),
            final(self).initial_bodies@ == old(self).initial_bodies@,
            final(self).rest == old(self).rest,
            final(self).default_radius == old(self).default_radius,
    {
        let id = self.ids.issue();
        let body = Body {
            position: Vector2::new(x, y),
            velocity: Vector2::new(self.rest, self.rest),
            mass,
            radius: self.default_radius,
            id,
        };
        self.bodies.push(body);
        id
    }

    /// The net pull on each live body, from the live bodies as they stand.
    /// `pull(a, b)` is the acceleration that `b` gives `a`.
    pub fn accelerations<F: Fn(Body<T>, Body<T>) -> Vector2<T>, G: Fn(T, T) -> T>(
        &self,
        pull: &F,
        plus: &G,
        zero: T,
    ) -> (r: Vec<Vector2<T>>)
        requires
            forall|a: Body<T>, b: Body<T>| pull.requires((a, b)),
            forall|a: T, b: T| plus.requires((a, b)),
        ensures
            r@.len() == self.bodies@.len(),
            forall|i: int|
                0 <= i < r@.len() ==> net_pull(*pull, *plus, zero, self.bodies@, i, #[trigger] r@[i]),
    {
        let n = self.bodies.len();
        let ghost s = self.bodies@;
        let mut r: Vec<Vector2<T>> = Vec::new();
        let mut i: usize = 0;
        while i < n
            invariant
                n == s.len(),
                s == self.bodies@,
                i <= n,
                r@.len() == i,
                forall|a: Body<T>, b: Body<T>| pull.requires((a, b)),
                forall|a: T, b: T| plus.requires((a, b)),
                forall|k: int| 0 <= k < i ==> net_pull(*pull, *plus, zero, s, k, #[trigger] r@[k]),
            decreases n - i,
        {
            let mut acc = Vector2::new(zero, zero);
            let ghost mut trace: Seq<Vector2<T>> = seq![acc];
            let mut j: usize = 0;
            while j < n
                invariant
                    n == s.len(),
                    s == self.bodies@,
                    i < n,
                    j <= n,
                    trace.len() == j + 1,
                    trace[0] == (Vector2 { x: zero, y: zero }),
                    trace.last() == acc,
                    forall|a: Body<T>, b: Body<T>| pull.requires((a, b)),
                    forall|a: T, b: T| plus.requires((a, b)),
                    forall|k: int|
                        0 <= k < j ==> #[trigger] sum_step(
                            *pull,
                            *plus,
                            s,
                            i as int,
                            k,
                            trace[k],
                            trace[k + 1],
                        ),
                decreases n - j,
            {
                let before = acc;
                if i != j {
                    let c = pull(self.bodies[i], self.bodies[j]);
                    acc = Vector2::new(plus(acc.x, c.x), plus(acc.y, c.y));
                }
                proof {
                    let t2 = trace.push(acc);
                    assert(sum_step(*pull, *plus, s, i as int, j as int, before, acc));
                    assert forall|k: int| 0 <= k < j + 1 implies #[trigger] sum_step(
                        *pull,
                        *plus,
                        s,
                        i as int,
                        k,
                        t2[k],
                        t2[k + 1],
                    ) by {
                        if k < j {
                            assert(t2[k] == trace[k] && t2[k + 1] == trace[k + 1]);
                        }
                    }
                    trace = t2;
                }
                j = j + 1;
            }
            proof {
                assert(pull_trace(*pull, *plus, zero, s, i as int, trace));
            }
            r.push(acc);
            proof {
                assert(r@[i as int] == acc);
            }
            i = i + 1;
        }
        r
    }

    /// Advances each live body by its entry of `acc`: velocity first, then
    /// position by the new velocity.
    pub fn apply_accelerations<G: Fn(T, T) -> T>(&mut self, acc: &Vec<Vector2<T>>, plus: &G)
        requires
            old(self).wf(),
            acc@.len() == old(self).bodies@.len(),
            forall|a: T, b: T| plus.requires((a, b)),
        ensures
            final(self).wf(),
            final(self).bodies@.len() == old(self).bodies@.len(),
            forall|i: int|
                0 <= i < acc@.len() ==> advanced(
                    *plus,
                    old(self).bodies@[i],
                    acc@[i],
                    #[trigger] final(self).bodies@[i],
                ),
            final(self).initial_bodies@ == old(self).initial_bodies@,
            final(self).ids == old(self).ids,
            final(self).rest == old(self).rest,
            final(self).default_radius == old(self).default_radius,
    {
        let ghost s = self.bodies@;
        let n = self.bodies.len();
        let mut i: usize = 0;
        while i < n
            invariant
                n == s.len(),
                acc@.len() == n,
                i <= n,
                self.bodies@.len() == n,
                self.wf(),
                self.initial_bodies@ == old(self).initial_bodies@,
                self.ids == old(self).ids,
                self.rest == old(self).rest,
                self.default_radius == old(self).default_radius,
                s == old(self).bodies@,
                forall|a: T, b: T| plus.requires((a, b)),
                forall|k: int| 0 <= k < i ==> advanced(*plus, s[k], acc@[k], #[trigger] self.bodies@[k]),
                forall|k: int| i <= k < n ==> #[trigger] self.bodies@[k] == s[k],
            decreases n - i,
        {
            let b = self.bodies[i];
            let a = acc[i];
            let vx = plus(b.velocity.x, a.x);
            let vy = plus(b.velocity.y, a.y);
            let px = plus(b.position.x, vx);
            let py = plus(b.position.y, vy);
            let nb = Body {
                position: Vector2::new(px, py),
                velocity: Vector2::new(vx, vy),
                mass: b.mass,
                radius: b.radius,
                id: b.id,
            };
            self.bodies.set(i, nb);
            i = i + 1;
        }
    }

    /// One step of the simulation: the net pull on every body is taken from
    /// the bodies as they stand, and only then is each body advanced by it.
    pub fn update<F: Fn(Body<T>, Body<T>) -> Vector2<T>, G: Fn(T, T) -> T>(
        &mut self,
        pull: F,
        plus: G,
        zero: T,
    )
        requires
            old(self).wf(),
            forall|a: Body<T>, b: Body<T>| pull.requires((a, b)),
            forall|a: T, b: T| plus.requires((a, b)),
        ensures
            final(self).wf(),
            final(self).bodies@.len() == old(self).bodies@.len(),
            forall|i: int|
                0 <= i < old(self).bodies@.len() ==> stepped(
                    pull,
                    plus,
                    zero,
                    old(self).bodies@,
                    i,
                    #[trigger] final(self).bodies@[i],
                ),
            final(self).initial_bodies@ == old(self).initial_bodies@,
            final(self).ids == old(self).ids,
            final(self).rest == old(self).rest,
            final(self).default_radius == old(self).default_radius,
    {
        let acc = self.accelerations(&pull, &plus, zero);
        self.apply_accelerations(&acc, &plus);
        assert forall|i: int| 0 <= i < old(self).bodies@.len() implies stepped(
            pull,
            plus,
            zero,
            old(self).bodies@,
            i,
            #[trigger] self.bodies@[i],
        ) by {
            assert(net_pull(pull, plus, zero, old(self).bodies@, i, acc@[i]));
            assert(advanced(plus, old(self).bodies@[i], acc@[i], self.bodies@[i]));
        }
    }

    /// The identifier of the last live body on which `hit` holds, or `None`
    /// when it holds on none. Overlapping bodies go to the one added last.
    pub fn find_body_at_point<F: Fn(Body<T>) -> bool>(&self, hit: F) -> (r: Option<u16>)
        requires
            forall|b: Body<T>| hit.requires((b,)),
        ensures
            r is None ==> forall|i: int|
                0 <= i < self.bodies@.len() ==> hit.ensures((#[trigger] self.bodies@[i],), false),
            r is Some ==> exists|k: int|
                0 <= k < self.bodies@.len() && (#[trigger] self.bodies@[k]).id == r->Some_0
                    && hit.ensures((self.bodies@[k],), true) && forall|l: int|
                    k < l < self.bodies@.len() ==> hit.ensures((#[trigger] self.bodies@[l],), false),
    {
        let n = self.bodies.len();
        let mut found: Option<usize> = None;
        let mut i: usize = 0;
        while i < n
            invariant
                n == self.bodies@.len(),
                i <= n,
                forall|b: Body<T>| hit.requires((b,)),
                found is None ==> forall|l: int|
                    0 <= l < i ==> hit.ensures((#[trigger] self.bodies@[l],), false),
                found is Some ==> ({
                    let k = found->Some_0 as int;
                    &&& 0 <= k < i
                    &&& hit.ensures((self.bodies@[k],), true)
                    &&& forall|l: int|
                        k < l < i ==> hit.ensures((#[trigger] self.bodies@[l],), false)
                }),
            decreases n - i,
        {
            if hit(self.bodies[i]) {
                found = Some(i);
            }
            i = i + 1;
        }
        match found {
            Some(k) => {
                proof {
                    let kk = k as int;
                    assert(self.bodies@[kk].id == self.bodies[k as int].id);
                }
                Some(self.bodies[k].id)
            },
            None => None,
        }
    }

    /// Replaces the mass `m` of each live body on which `at` holds with
    /// `grow(m)`; the other bodies stay as they are.
    pub fn adjust_mass_where<F: Fn(Body<T>) -> bool, G: Fn(T) -> T>(&mut self, at: F, grow: G)
        requires
            old(self).wf(),
            forall|b: Body<T>| at.requires((b,)),
            forall|m: T| grow.requires((m,)),
        ensures
            final(self).wf(),
            final(self).bodies@.len() == old(self).bodies@.len(),
            forall|i: int|
                0 <= i < old(self).bodies@.len() ==> mass_adjusted(
                    at,
                    grow,
                    old(self).bodies@[i],
                    #[trigger] final(self).bodies@[i],
                ),
            final(self).initial_bodies@ == old(self).initial_bodies@,
            final(self).ids == old(self).ids,
            final(self).rest == old(self).rest,
            final(self).default_radius == old(self).default_radius,
    {
        let ghost s = self.bodies@;
        let n = self.bodies.len();
        let mut i: usize = 0;
        while i < n
            invariant
                n == s.len(),
                i <= n,
                self.bodies@.len() == n,
                self.wf(),
                self.initial_bodies@ == old(self).initial_bodies@,
                self.ids == old(self).ids,
                self.rest == old(self).rest,
                self.default_radius == old(self).default_radius,
                s == old(self).bodies@,
                forall|b: Body<T>| at.requires((b,)),
                forall|m: T| grow.requires((m,)),
                forall|k: int|
                    0 <= k < i ==> mass_adjusted(at, grow, s[k], #[trigger] self.bodies@[k]),
                forall|k: int| i <= k < n ==> #[trigger] self.bodies@[k] == s[k],
            decreases n - i,
        {
            let ghost prev = self.bodies@;
            let b = self.bodies[i];
            if at(b) {
                let m = grow(b.mass);
                self.bodies.set(i, Body { mass: m, ..b });
            }
            proof {
                assert forall|k: int| 0 <= k < i + 1 implies mass_adjusted(
                    at,
                    grow,
                    s[k],
                    #[trigger] self.bodies@[k],
                ) by {
                    if k < i {
                        assert(self.bodies@[k] == prev[k]);
                    }
                }
            }
            i = i + 1;
        }
    }

    /// Replaces the radius `r` of each live body on which `at` holds with
    /// `grow(r)`; the other bodies stay as they are.
    pub fn adjust_radius_where<F: Fn(Body<T>) -> bool, G: Fn(T) -> T>(&mut self, at: F, grow: G)
        requires
            old(self).wf(),
            forall|b: Body<T>| at.requires((b,)),
            forall|r: T| grow.requires((r,)),
        ensures
            final(self).wf(),
            final(self).bodies@.len() == old(self).bodies@.len(),
            forall|i: int|
                0 <= i < old(self).bodies@.len() ==> radius_adjusted(
                    at,
                    grow,
                    old(self).bodies@[i],
                    #[trigger] final(self).bodies@[i],
                ),
            final(self).initial_bodies@ == old(self).initial_bodies@,
            final(self).ids == old(self).ids,
            final(self).rest == old(self).rest,
            final(self).default_radius == old(self).default_radius,
    {
        let ghost s = self.bodies@;
        let n = self.bodies.len();
        let mut i: usize = 0;
        while i < n
            invariant
                n == s.len(),
                i <= n,
                self.bodies@.len() == n,
                self.wf(),
                self.initial_bodies@ == old(self).initial_bodies@,
                self.ids == old(self).ids,
                self.rest == old(self).rest,
                self.default_radius == old(self).default_radius,
                s == old(self).bodies@,
                forall|b: Body<T>| at.requires((b,)),
                forall|r: T| grow.requires((r,)),
                forall|k: int|
                    0 <= k < i ==> radius_adjusted(at, grow, s[k], #[trigger] self.bodies@[k]),
                forall|k: int| i <= k < n ==> #[trigger] self.bodies@[k] == s[k],
            decreases n - i,
        {
            let ghost prev = self.bodies@;
            let b = self.bodies[i];
            if at(b) {
                let r = grow(b.radius);
                self.bodies.set(i, Body { radius: r, ..b });
            }
            proof {
                assert forall|k: int| 0 <= k < i + 1 implies radius_adjusted(
                    at,
                    grow,
                    s[k],
                    #[trigger] self.bodies@[k],
                ) by {
                    if k < i {
                        assert(self.bodies@[k] == prev[k]);
                    }
                }
            }
            i = i + 1;
        }
    }

    /// Makes the snapshot an independent copy of the live bodies.
    pub fn save_state(&mut self)
        requires
            old(self).wf(),
        ensures
            final(self).wf(),
            final(self).initial_bodies@ == old(self).bodies@,
            final(self).bodies@ == old(self).bodies@,
            final(self).ids == old(self).ids,
            final(self).rest == old(self).rest,
            final(self).default_radius == old(self).default_radius,
    {
        self.initial_bodies = copy_bodies(&self.bodies);
    }

    /// Replaces the live bodies with a copy of the snapshot.
    pub fn reset(&mut self)
        requires
            old(self).wf(),
        ensures
            final(self).wf(),
            final(self).bodies@ == old(self).initial_bodies@,
            final(self).initial_bodies@ == old(self).initial_bodies@,
            final(self).ids == old(self).ids,
            final(self).rest == old(self).rest,
            final(self).default_radius == old(self).default_radius,
    {
        self.bodies = copy_bodies(&self.initial_bodies);
    }

    /// Empties the live bodies and the snapshot; identifiers go on from
    /// where they were.
    pub fn clear(&mut self)
        requires
            old(self).wf(),
        ensures
            final(self).wf(),
            final(self).bodies@.len() == 0,
            final(self).initial_bodies@.len() == 0,
            final(self).ids == old(self).ids,
            final(self).rest == old(self).rest,
            final(self).default_radius == old(self).default_radius,
    {
        self.bodies.clear();
        self.initial_bodies.clear();
    }
}

} // verus!
