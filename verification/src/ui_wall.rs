//! Moving the ends of a wall by hand.

use crate::scalar::Scalar;
use crate::vector::Vector2;
use vstd::prelude::*;

verus! {

/// One half.
pub open spec fn spec_half<T: Scalar>() -> T {
    T::spec_one().spec_div(T::spec_from_usize(2))
}

/// One half.
pub fn half<T: Scalar>() -> (r: T)
    ensures
        r == spec_half::<T>(),
{
    T::one().div(T::from_usize(2))
}

/// Whether the two points compare unequal in either part.
pub open spec fn differs<T: Scalar>(u: Vector2<T>, v: Vector2<T>) -> bool {
    !u.x.spec_same(v.x) || !u.y.spec_same(v.y)
}

fn is_other<T: Scalar>(u: Vector2<T>, v: Vector2<T>) -> (r: bool)
    ensures
        r == differs(u, v),
{
    !u.x.same(v.x) || !u.y.same(v.y)
}

/// The nearest point to `wp` found on the first `n` of the lines through
/// `origin` along `dirs`, with the square of its distance. A later line
/// wins only where it is strictly nearer; before any line is tried the
/// origin of the plane stands in, at the greatest distance there is.
pub open spec fn snap_best<T: Scalar>(
    origin: Vector2<T>,
    wp: Vector2<T>,
    dirs: Seq<Vector2<T>>,
    n: nat,
) -> (T, Vector2<T>)
    decreases n,
{
    if n == 0 {
        (T::spec_max_value(), Vector2::spec_zero())
    } else {
        let prev = snap_best(origin, wp, dirs, (n - 1) as nat);
        let dir = dirs[n - 1];
        let t = wp.spec_sub(origin).spec_dot(dir);
        let p = origin.spec_add(dir.spec_scale(t));
        let d = wp.spec_squared_distance(p);
        if d.spec_lt(prev.0) {
            (d, p)
        } else {
            prev
        }
    }
}

/// The point nearest to `wp` on any of the lines through `origin` along
/// the directions `dirs`, which are taken to be of unit length.
pub fn snap_point<T: Scalar>(origin: Vector2<T>, wp: Vector2<T>, dirs: &[Vector2<T>]) -> (r:
    Vector2<T>)
    ensures
        r == snap_best(origin, wp, dirs@, dirs@.len()).1,
{
    let mut dist = T::max_value();
    let mut np = Vector2::<T>::zero();
    let mut i: usize = 0;
    while i < dirs.len()
        invariant
            i <= dirs@.len(),
            (dist, np) == snap_best(origin, wp, dirs@, i as nat),
        decreases dirs@.len() - i,
    {
        let dir = dirs[i];
        let t = wp.sub(origin).dot(dir);
        let p = origin.add(dir.scale(t));
        let d = wp.squared_distance(p);
        if d.lt(dist) {
            dist = d;
            np = p;
        }
        i += 1;
    }
    np
}

/// The end `p` brought to the distance from `origin` that the ends `before`
/// have from each other, in the direction it has from `origin`.
pub open spec fn at_length<T: Scalar>(
    origin: Vector2<T>,
    p: Vector2<T>,
    before: (Vector2<T>, Vector2<T>),
) -> Vector2<T> {
    let nd = p.spec_sub(origin);
    origin.spec_add(
        nd.spec_scale(
            before.0.spec_squared_distance(before.1).spec_div(nd.spec_squared_length()).spec_sqrt(),
        ),
    )
}

/// The ends after one of them is dragged to `p` while the other is held
/// where `before` has it. With `ab` set the first end is held and the
/// second dragged, else the other way round; with `fixed_len` the wall
/// keeps the length it had in `before` and only turns.
pub open spec fn with_point<T: Scalar>(
    ends: (Vector2<T>, Vector2<T>),
    ab: bool,
    p: Vector2<T>,
    before: (Vector2<T>, Vector2<T>),
    fixed_len: bool,
) -> (Vector2<T>, Vector2<T>) {
    let origin = if ab {
        before.0
    } else {
        before.1
    };
    let q = if fixed_len {
        at_length(origin, p, before)
    } else {
        p
    };
    if ab {
        (
            if differs(before.0, ends.0) {
                before.0
            } else {
                ends.0
            },
            q,
        )
    } else {
        (
            q,
            if differs(before.1, ends.1) {
                before.1
            } else {
                ends.1
            },
        )
    }
}

/// The ends after one of them is dragged to `wp` and the other moves the
/// opposite way, so that the middle of `before` stays the middle. With `ab`
/// set it is the second end that is dragged; with `fixed_len` the wall
/// keeps the length it had in `before` and only turns about its middle.
pub open spec fn with_points<T: Scalar>(
    ab: bool,
    wp: Vector2<T>,
    before: (Vector2<T>, Vector2<T>),
    fixed_len: bool,
) -> (Vector2<T>, Vector2<T>) {
    let ends = if ab {
        (before.0.spec_sub(wp.spec_sub(before.1)), wp)
    } else {
        (wp, before.1.spec_sub(wp.spec_sub(before.0)))
    };
    if fixed_len {
        let nd = ends.1.spec_sub(ends.0);
        let sd = nd.spec_scale(
            before.0.spec_squared_distance(before.1).spec_div(nd.spec_squared_length()).spec_sqrt(),
        ).spec_scale(spec_half::<T>());
        let mid = ends.0.spec_add(ends.1).spec_scale(spec_half::<T>());
        (mid.spec_sub(sd), mid.spec_add(sd))
    } else {
        ends
    }
}

/// Something with two ends that can be moved: a wall, or the screen.
///
/// An implementation says what its ends are and how one is read and set;
/// the gestures are built on that.
pub trait UIWall<T: Scalar>: Sized {
    /// The first and the second end.
    spec fn ends(&self) -> (Vector2<T>, Vector2<T>);

    /// Whether the ends are there to be moved.
    spec fn wf(&self) -> bool;

    fn set_a(&mut self, a: Vector2<T>)
        requires
            old(self).wf(),
        ensures
            final(self).wf(),
            final(self).ends() == (a, old(self).ends().1),
    ;

    fn set_b(&mut self, b: Vector2<T>)
        requires
            old(self).wf(),
        ensures
            final(self).wf(),
            final(self).ends() == (old(self).ends().0, b),
    ;

    fn get_a(&self) -> (r: Vector2<T>)
        requires
            self.wf(),
        ensures
            r == self.ends().0,
    ;

    fn get_b(&self) -> (r: Vector2<T>)
        requires
            self.wf(),
        ensures
            r == self.ends().1,
    ;

    fn set_a_b(&mut self, a: Vector2<T>, b: Vector2<T>)
        requires
            old(self).wf(),
        ensures
            final(self).wf(),
            final(self).ends() == (a, b),
    {
        self.set_a(a);
        self.set_b(b);
    }

    fn get_a_b(&self) -> (r: (Vector2<T>, Vector2<T>))
        requires
            self.wf(),
        ensures
            r == self.ends(),
    {
        (self.get_a(), self.get_b())
    }

    /// Moves the first end to `a` and the second along with it.
    fn shift_whole_wall(&mut self, a: Vector2<T>)
        requires
            old(self).wf(),
        ensures
            final(self).wf(),
            final(self).ends() == (a, old(self).ends().1.spec_add(a).spec_sub(old(self).ends().0)),
    {
        let ends = self.get_a_b();
        self.set_a_b(a, ends.1.add(a).sub(ends.0));
    }

    /// As `set_wall_point`, with the dragged end brought onto the nearest
    /// of the lines through the held end along `dirs`.
    fn snap_wall_point(
        &mut self,
        ab: bool,
        wp: Vector2<T>,
        before: (Vector2<T>, Vector2<T>),
        fixed_len: bool,
        dirs: &[Vector2<T>],
    )
        requires
            old(self).wf(),
        ensures
            final(self).wf(),
            final(self).ends() == with_point(
                old(self).ends(),
                ab,
                snap_best(
                    if ab {
                        before.0
                    } else {
                        before.1
                    },
                    wp,
                    dirs@,
                    dirs@.len(),
                ).1,
                before,
                fixed_len,
            ),
    {
        let origin = if ab {
            before.0
        } else {
            before.1
        };
        self.set_wall_point(ab, snap_point(origin, wp, dirs), before, fixed_len);
    }

    /// Drags one end to `p` and holds the other where `before` has it; see
    /// `with_point`.
    fn set_wall_point(
        &mut self,
        ab: bool,
        p: Vector2<T>,
        before: (Vector2<T>, Vector2<T>),
        fixed_len: bool,
    )
        requires
            old(self).wf(),
        ensures
            final(self).wf(),
            final(self).ends() == with_point(old(self).ends(), ab, p, before, fixed_len),
    {
        let mut p = p;
        if ab {
            if is_other(before.0, self.get_a()) {
                self.set_a(before.0);
            }
        } else {
            if is_other(before.1, self.get_b()) {
                self.set_b(before.1);
            }
        }
        if fixed_len {
            let origin = if ab {
                before.0
            } else {
                before.1
            };
            let nd = p.sub(origin);
            let sd = nd.scale(before.0.squared_distance(before.1).div(nd.squared_length()).sqrt());
            p = origin.add(sd);
        }
        if ab {
            self.set_b(p);
            return ;
        }
        self.set_a(p);
    }

    /// As `set_wall_points`, with the dragged end brought onto the
    /// nearest of the lines through the middle of `before` along `dirs`.
    fn snap_wall_points(
        &mut self,
        ab: bool,
        wp: Vector2<T>,
        before: (Vector2<T>, Vector2<T>),
        fixed_len: bool,
        dirs: &[Vector2<T>],
    )
        requires
            old(self).wf(),
        ensures
            final(self).wf(),
            final(self).ends() == with_points(
                ab,
                snap_best(
                    before.0.spec_add(before.1).spec_scale(spec_half::<T>()),
                    wp,
                    dirs@,
                    dirs@.len(),
                ).1,
                before,
                fixed_len,
            ),
    {
        let origin = before.0.add(before.1).scale(half());
        self.set_wall_points(ab, snap_point(origin, wp, dirs), before, fixed_len);
    }

    /// Drags one end to `wp` and moves the other the opposite way; see
    /// `with_points`.
    fn set_wall_points(
        &mut self,
        ab: bool,
        wp: Vector2<T>,
        before: (Vector2<T>, Vector2<T>),
        fixed_len: bool,
    )
        requires
            old(self).wf(),
        ensures
            final(self).wf(),
            final(self).ends() == with_points(ab, wp, before, fixed_len),
    {
        let (mut a, mut b) = if ab {
            let off = wp.sub(before.1);
            (before.0.sub(off), wp)
        } else {
            let off = wp.sub(before.0);
            (wp, before.1.sub(off))
        };
        if fixed_len {
            let nd = b.sub(a);
            let sd = nd.scale(before.0.squared_distance(before.1).div(nd.squared_length()).sqrt()).scale(
                half(),
            );
            let mid = a.add(b).scale(half());
            a = mid.sub(sd);
            b = mid.add(sd);
        }
        self.set_a_b(a, b);
    }
}

impl<T: Scalar> UIWall<T> for (Vector2<T>, Vector2<T>) {
    open spec fn ends(&self) -> (Vector2<T>, Vector2<T>) {
        *self
    }

    open spec fn wf(&self) -> bool {
        true
    }

    fn set_a(&mut self, a: Vector2<T>) {
        self.0 = a;
    }

    fn set_b(&mut self, b: Vector2<T>) {
        self.1 = b;
    }

    fn get_a(&self) -> (r: Vector2<T>) {
        self.0
    }

    fn get_b(&self) -> (r: Vector2<T>) {
        self.1
    }
}

} // verus!
