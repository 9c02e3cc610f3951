//! Walls with slits, the waves that fall on them, and the screen behind.

use crate::diffraction::{Slit, SlitView, Wave};
use crate::em_env::{views, EMEnv};
use crate::scalar::Scalar;
use crate::ui_wall::{half, spec_half, UIWall};
use crate::util::copy_of;
use crate::vector::{Vector2, Vector3};
use crate::wave_data::WaveData;
use vstd::prelude::*;

verus! {

/// A slit as a wall holds it: its width and how far along the wall its
/// centre lies.
#[derive(Debug)]
pub struct SceneSlit<T> {
    pub width: T,
    pub position: T,
}

impl<T: Copy> Copy for SceneSlit<T> {

}

impl<T: Copy> Clone for SceneSlit<T> {
    fn clone(&self) -> (r: Self)
        ensures
            r == *self,
    {
        *self
    }
}

impl<T: Scalar> Default for SceneSlit<T> {
    /// A slit of no width at the start of its wall.
    fn default() -> (r: Self)
        ensures
            r == (SceneSlit { width: T::spec_zero(), position: T::spec_zero() }),
    {
        SceneSlit { width: T::zero(), position: T::zero() }
    }
}

/// A wall from `a` to `b` with its slits, in the order in which they
/// were put along it.
///
/// A slit is placed by the distance of its centre from `a` alone:
/// `insert_slit` puts it before the first slit that lies beyond it and
/// turns nothing away, so slits may share a place, overlap, or reach past
/// the ends of the wall. Only dragging a slit (`set_slit_pos`) holds it
/// between its neighbours and the ends.
#[derive(Debug)]
pub struct Wall<T> {
    a: Vector2<T>,
    b: Vector2<T>,
    dir: Vector2<T>,
    slits: Vec<SceneSlit<T>>,
}

/// A wall as the contracts see it.
pub struct WallView<T> {
    pub a: Vector2<T>,
    pub b: Vector2<T>,
    /// The direction from `a` to `b`, of unit length.
    pub dir: Vector2<T>,
    pub slits: Seq<SceneSlit<T>>,
}

impl<T: Scalar> View for Wall<T> {
    type V = WallView<T>;

    closed spec fn view(&self) -> WallView<T> {
        WallView { a: self.a, b: self.b, dir: self.dir, slits: self.slits@ }
    }
}

/// The first position from `from` on whose slit lies beyond `pos`; the
/// number of slits if none does.
pub open spec fn first_beyond<T: Scalar>(slits: Seq<SceneSlit<T>>, pos: T, from: int) -> int
    decreases slits.len() - from,
{
    if from < 0 || from >= slits.len() {
        slits.len() as int
    } else if pos.spec_lt(slits[from].position) {
        from
    } else {
        first_beyond(slits, pos, from + 1)
    }
}

/// `first_beyond` stays within the slits; the slit it finds lies beyond
/// `pos` and none before it does.
pub proof fn lemma_first_beyond<T: Scalar>(slits: Seq<SceneSlit<T>>, pos: T, from: int)
    requires
        0 <= from <= slits.len(),
    ensures
        from <= first_beyond(slits, pos, from) <= slits.len(),
        first_beyond(slits, pos, from) < slits.len() ==> pos.spec_lt(
            slits[first_beyond(slits, pos, from)].position,
        ),
        forall|k: int|
            from <= k < first_beyond(slits, pos, from) ==> !pos.spec_lt(
                (#[trigger] slits[k]).position,
            ),
    decreases slits.len() - from,
{
    if from < slits.len() && !pos.spec_lt(slits[from].position) {
        lemma_first_beyond(slits, pos, from + 1);
    }
}

impl<T: Scalar> SceneSlit<T> {
    /// Where the slit begins, as a distance along its wall.
    pub open spec fn spec_left(self) -> T {
        self.position.spec_sub(self.width.spec_mul(spec_half::<T>()))
    }

    /// Where the slit ends, as a distance along its wall.
    pub open spec fn spec_right(self) -> T {
        self.position.spec_add(self.width.spec_mul(spec_half::<T>()))
    }

    pub fn get_left(&self) -> (r: T)
        ensures
            r == self.spec_left(),
    {
        self.position.sub(self.width.mul(half()))
    }

    pub fn get_right(&self) -> (r: T)
        ensures
            r == self.spec_right(),
    {
        self.position.add(self.width.mul(half()))
    }
}

/// `v` held between `lo` and `hi`: `lo` where `v` lies below it, else
/// `hi` where `v` lies above, else `v` itself.
pub open spec fn clamped<T: Scalar>(v: T, lo: T, hi: T) -> T {
    if v.spec_lt(lo) {
        lo
    } else if hi.spec_lt(v) {
        hi
    } else {
        v
    }
}

fn clamp<T: Scalar>(v: T, lo: T, hi: T) -> (r: T)
    ensures
        r == clamped(v, lo, hi),
{
    if v.lt(lo) {
        lo
    } else if hi.lt(v) {
        hi
    } else {
        v
    }
}

impl<T: Scalar> WallView<T> {
    /// The wall with its first end at `a`.
    pub open spec fn with_a(self, a: Vector2<T>) -> Self {
        WallView { a, dir: self.b.spec_sub(a).spec_normalised(), ..self }
    }

    /// The wall with its second end at `b`.
    pub open spec fn with_b(self, b: Vector2<T>) -> Self {
        WallView { b, dir: b.spec_sub(self.a).spec_normalised(), ..self }
    }

    /// The length of the wall.
    pub open spec fn len(self) -> T {
        self.b.spec_sub(self.a).spec_length()
    }

    /// How far along the wall the point `wp` lies, as seen at a right
    /// angle to it.
    pub open spec fn along(self, wp: Vector2<T>) -> T {
        wp.spec_sub(self.a).spec_dot(self.dir)
    }

    /// The least and the greatest distance along the wall at which the
    /// centre of slit `j` may lie: it has to clear the slit before it, or
    /// the wall's first end, and the slit after it, or the wall's second
    /// end.
    pub open spec fn room(self, j: int) -> (T, T) {
        let hw = self.slits[j].width.spec_mul(spec_half::<T>());
        (
            if j == 0 {
                hw
            } else {
                self.slits[j - 1].spec_right().spec_add(hw)
            },
            if j == self.slits.len() - 1 {
                self.len().spec_sub(hw)
            } else {
                self.slits[j + 1].spec_left().spec_sub(hw)
            },
        )
    }

    /// The wall after slit `j` is dragged to the point `wp`: the slit
    /// goes as far along the wall as `wp` lies, within the room it has.
    pub open spec fn with_slit_at(self, j: int, wp: Vector2<T>) -> Self {
        let room = self.room(j);
        WallView {
            slits: self.slits.update(
                j,
                SceneSlit {
                    width: self.slits[j].width,
                    position: clamped(self.along(wp), room.0, room.1),
                },
            ),
            ..self
        }
    }

    /// The point of the wall at the distance `position` from `a`.
    pub open spec fn point_at(self, position: T) -> Vector2<T> {
        self.a.spec_add(self.dir.spec_scale(position))
    }

    /// The slit `slit` of this wall as the simulation takes it: at its
    /// point of the wall, facing to the left of the way from `a` to `b`.
    pub open spec fn slit_view(self, slit: SceneSlit<T>, waves: Seq<Wave<T>>) -> SlitView<T> {
        SlitView {
            width: slit.width,
            position: self.point_at(slit.position),
            direction: self.dir.spec_rotated_90().spec_normalised(),
            waves,
        }
    }

    /// The first `n` slits of this wall as the simulation takes them.
    pub open spec fn slit_views(self, waves: Seq<Wave<T>>, n: nat) -> Seq<SlitView<T>>
        decreases n,
    {
        if n == 0 {
            Seq::empty()
        } else {
            self.slit_views(waves, (n - 1) as nat).push(self.slit_view(self.slits[n - 1], waves))
        }
    }
}

impl<T: Scalar> Clone for Wall<T> {
    fn clone(&self) -> (r: Self)
        ensures
            r@ == self@,
    {
        Wall { a: self.a, b: self.b, dir: self.dir, slits: copy_of(&self.slits) }
    }
}

impl<T: Scalar> Default for Wall<T> {
    /// A wall without slits whose ends lie at the origin and which has
    /// no direction.
    fn default() -> (r: Self)
        ensures
            r@ == (WallView {
                a: Vector2::<T>::spec_zero(),
                b: Vector2::<T>::spec_zero(),
                dir: Vector2::<T>::spec_zero(),
                slits: Seq::empty(),
            }),
    {
        Wall { a: Vector2::zero(), b: Vector2::zero(), dir: Vector2::zero(), slits: Vec::new() }
    }
}

impl<T: Scalar> Wall<T> {
    /// A wall without slits.
    pub fn new(a: Vector2<T>, b: Vector2<T>) -> (r: Self)
        ensures
            r@ == (WallView { a, b, dir: b.spec_sub(a).spec_normalised(), slits: Seq::empty() }),
    {
        Wall { a, b, dir: b.sub(a).normalised(), slits: Vec::new() }
    }

    /// Moves the first end; the direction follows.
    pub fn set_a(&mut self, a: Vector2<T>)
        ensures
            final(self)@ == (WallView {
                a,
                dir: old(self)@.b.spec_sub(a).spec_normalised(),
                ..old(self)@
            }),
    {
        self.a = a;
        self.dir = self.b.sub(a).normalised();
    }

    /// Moves the second end; the direction follows.
    pub fn set_b(&mut self, b: Vector2<T>)
        ensures
            final(self)@ == (WallView {
                b,
                dir: b.spec_sub(old(self)@.a).spec_normalised(),
                ..old(self)@
            }),
    {
        self.b = b;
        self.dir = b.sub(self.a).normalised();
    }

    pub fn get_a_b(&self) -> (r: (Vector2<T>, Vector2<T>))
        ensures
            r == (self@.a, self@.b),
    {
        (self.a, self.b)
    }

    /// Takes slit `j` out of the wall.
    pub fn remove_slit(&mut self, j: usize) -> (r: SceneSlit<T>)
        requires
            j < old(self)@.slits.len(),
        ensures
            r == old(self)@.slits[j as int],
            final(self)@ == (WallView {
                slits: old(self)@.slits.remove(j as int),
                ..old(self)@
            }),
    {
        self.slits.remove(j)
    }

    /// The length of the wall.
    pub fn len(&self) -> (r: T)
        ensures
            r == self@.len(),
    {
        self.b.sub(self.a).length()
    }

    /// Drags slit `j` to the point `wp`: it goes as far along the wall
    /// as `wp` lies, but not into its neighbours nor past the ends of the
    /// wall.
    pub fn set_slit_pos(&mut self, j: usize, wp: Vector2<T>)
        requires
            j < old(self)@.slits.len(),
        ensures
            final(self)@ == old(self)@.with_slit_at(j as int, wp),
    {
        let slit = self.slits[j];
        let hw = slit.width.mul(half());
        let min = if j == 0 {
            hw
        } else {
            self.slits[j - 1].get_right().add(hw)
        };
        let end = self.slits.len() - 1;
        let max = if j == end {
            self.len().sub(hw)
        } else {
            self.slits[j + 1].get_left().sub(hw)
        };
        let dist = wp.sub(self.a).dot(self.dir);
        self.slits.set(j, SceneSlit { width: slit.width, position: clamp(dist, min, max) });
    }

    /// The position of the first slit that lies beyond `pos`, if any.
    fn find_beyond(&self, pos: T) -> (r: usize)
        ensures
            r == first_beyond(self@.slits, pos, 0),
            r <= self@.slits.len(),
    {
        let mut i: usize = 0;
        while i < self.slits.len()
            invariant
                i <= self.slits@.len(),
                first_beyond(self.slits@, pos, 0) == first_beyond(self.slits@, pos, i as int),
            decreases self.slits@.len() - i,
        {
            if pos.lt(self.slits[i].position) {
                return i;
            }
            i += 1;
        }
        i
    }

    /// Cuts the wall at the distance `pos` from `a`. This wall keeps the
    /// part up to the cut, with the slits up to the first that lies
    /// beyond `pos`; the part after the cut is returned with the others,
    /// which keep their distances as they were.
    pub fn split(&mut self, pos: T) -> (r: Wall<T>)
        ensures
            ({
                let at = first_beyond(old(self)@.slits, pos, 0);
                let cut = old(self)@.point_at(pos);
                &&& final(self)@ == (WallView {
                    b: cut,
                    slits: old(self)@.slits.subrange(0, at),
                    ..old(self)@
                })
                &&& r@ == (WallView {
                    a: cut,
                    b: old(self)@.b,
                    dir: old(self)@.dir,
                    slits: old(self)@.slits.subrange(at, old(self)@.slits.len() as int),
                })
            }),
    {
        let at = self.find_beyond(pos);
        let b = self.b;
        self.b = self.a.add(self.dir.scale(pos));
        let v = self.slits.split_off(at);
        Wall { a: self.b, b, dir: self.dir, slits: v }
    }

    /// Puts a slit into the wall, before the first slit that lies beyond
    /// its position, and says at which place it now stands.
    pub fn insert_slit(&mut self, width: T, position: T) -> (r: usize)
        ensures
            r == first_beyond(old(self)@.slits, position, 0),
            r <= old(self)@.slits.len(),
            r < old(self)@.slits.len() ==> position.spec_lt(old(self)@.slits[r as int].position),
            forall|k: int| 0 <= k < r ==> !position.spec_lt((#[trigger] old(self)@.slits[k]).position),
            final(self)@ == (WallView {
                slits: old(self)@.slits.insert(r as int, SceneSlit { width, position }),
                ..old(self)@
            }),
    {
        proof {
            lemma_first_beyond(self@.slits, position, 0);
        }
        let i = self.find_beyond(position);
        self.slits.insert(i, SceneSlit { width, position });
        i
    }
}

impl<T: Scalar> SceneSlit<T> {
    /// Where the centre of this slit lies, on the wall `wall`.
    pub fn get_position(&self, wall: &Wall<T>) -> (r: Vector2<T>)
        ensures
            r == wall@.point_at(self.position),
    {
        wall.a.add(wall.dir.scale(self.position))
    }

    /// This slit of the wall `wall` as the simulation takes it.
    pub fn get_slit<'a>(&self, wall: &Wall<T>, waves: &'a [Wave<T>]) -> (r: Slit<'a, T>)
        ensures
            r@ == wall@.slit_view(*self, waves@),
    {
        Slit::new(self.width, self.get_position(wall), wall.dir.rotated_90(), waves)
    }
}

/// The waves of the first `n` bins that are shown with an amplitude above
/// zero: each with its wavelength from the wave map and its amplitude
/// taken back from the scale at which it is shown.
pub open spec fn shown_waves<T: Scalar>(
    spectrum: Seq<Seq<T>>,
    wave_map: Seq<(T, Vector3<T>)>,
    scale: T,
    n: nat,
) -> Seq<Wave<T>>
    decreases n,
{
    if n == 0 {
        Seq::empty()
    } else {
        let before = shown_waves(spectrum, wave_map, scale, (n - 1) as nat);
        let amp = spectrum[n - 1][0];
        if T::spec_zero().spec_lt(amp) {
            before.push(Wave { amplitude: amp.spec_div(scale), lambda: wave_map[n - 1].0 })
        } else {
            before
        }
    }
}

/// The slits of the first `n` walls as the simulation takes them, wall
/// by wall.
pub open spec fn scene_slits<T: Scalar>(walls: Seq<WallView<T>>, waves: Seq<Wave<T>>, n: nat) -> Seq<
    SlitView<T>,
>
    decreases n,
{
    if n == 0 {
        Seq::empty()
    } else {
        scene_slits(walls, waves, (n - 1) as nat) + walls[n - 1].slit_views(
            waves,
            walls[n - 1].slits.len(),
        )
    }
}

/// The whole arrangement: the walls in order, the waves that fall on
/// them, and the screen.
#[derive(Debug)]
pub struct Scene<T> {
    env: EMEnv<T>,
    waves: Vec<Wave<T>>,
    walls: Vec<Wall<T>>,
}

/// A scene as the contracts see it.
pub struct SceneView<T> {
    pub screen: (Vector2<T>, Vector2<T>),
    pub waves: Seq<Wave<T>>,
    pub walls: Seq<WallView<T>>,
}

impl<T: Scalar> View for Scene<T> {
    type V = SceneView<T>;

    closed spec fn view(&self) -> SceneView<T> {
        SceneView {
            screen: self.env.screen,
            waves: self.waves@,
            walls: self.walls@.map_values(|w: Wall<T>| w@),
        }
    }
}

impl<T: Scalar> SceneView<T> {
    /// The scene with the first end of wall `i` at `a`. The walls hang
    /// together: the wall before it, if there is one, ends there too.
    pub open spec fn with_wall_a(self, i: int, a: Vector2<T>) -> Self {
        let moved = self.walls.update(i, self.walls[i].with_a(a));
        SceneView {
            walls: if i > 0 {
                moved.update(i - 1, self.walls[i - 1].with_b(a))
            } else {
                moved
            },
            ..self
        }
    }

    /// The scene with the second end of wall `i` at `b`, and with it the
    /// first end of the wall after it, if there is one.
    pub open spec fn with_wall_b(self, i: int, b: Vector2<T>) -> Self {
        let moved = self.walls.update(i, self.walls[i].with_b(b));
        SceneView {
            walls: if i + 1 < self.walls.len() {
                moved.update(i + 1, self.walls[i + 1].with_a(b))
            } else {
                moved
            },
            ..self
        }
    }

    /// All slits of the scene as the simulation takes them.
    pub open spec fn slits(self) -> Seq<SlitView<T>> {
        scene_slits(self.walls, self.waves, self.walls.len())
    }
}

/// What of a scene the user points at.
#[derive(Clone, Copy, Debug, PartialEq, Eq, Structural)]
pub enum SceneUIRef {
    /// Nothing.
    Nothing,
    /// The slit at the second position in the wall at the first.
    Slit(usize, usize),
    /// The wall at this position.
    Wall(usize),
    /// An end of the wall at this position: its second end if the flag
    /// is set, else its first.
    Point(usize, bool),
    /// An end of the screen: its second end if the flag is set, else its
    /// first.
    Screen(bool),
}

impl Default for SceneUIRef {
    fn default() -> (r: Self)
        ensures
            r == SceneUIRef::Nothing,
    {
        SceneUIRef::Nothing
    }
}

/// How a wall or a slit is drawn.
#[derive(Clone, Copy, Debug, PartialEq, Eq, Structural)]
pub enum Highlight {
    /// As any other.
    Normal,
    /// As the one the pointer is over.
    Hover,
    /// As the one that is selected.
    Select,
}

/// Whether `r` points at wall `i` itself, where `j` is `None`, or at the
/// slit `j` of wall `i`.
pub open spec fn points_at(r: SceneUIRef, i: usize, j: Option<usize>) -> bool {
    match (r, j) {
        (SceneUIRef::Slit(a, b), Some(j)) => a == i && b == j,
        (SceneUIRef::Wall(a), None) => a == i,
        _ => false,
    }
}

fn is_at(r: SceneUIRef, i: usize, j: Option<usize>) -> (b: bool)
    ensures
        b == points_at(r, i, j),
{
    match (r, j) {
        (SceneUIRef::Slit(a, b), Some(j)) => a == i && b == j,
        (SceneUIRef::Wall(a), None) => a == i,
        _ => false,
    }
}

/// How to draw wall `i`, where `j` is `None`, or its slit `j`: selection
/// goes before hovering.
pub fn get_colour(i: usize, j: Option<usize>, select: SceneUIRef, hover: SceneUIRef) -> (r:
    Highlight)
    ensures
        r == if points_at(select, i, j) {
            Highlight::Select
        } else if points_at(hover, i, j) {
            Highlight::Hover
        } else {
            Highlight::Normal
        },
{
    if is_at(select, i, j) {
        return Highlight::Select;
    }
    if is_at(hover, i, j) {
        return Highlight::Hover;
    }
    Highlight::Normal
}

impl<T: Scalar> SceneView<T> {
    /// Whether `r` points at something that is there.
    pub open spec fn has(self, r: SceneUIRef) -> bool {
        match r {
            SceneUIRef::Nothing => true,
            SceneUIRef::Slit(i, j) => i < self.walls.len() && j < self.walls[i as int].slits.len(),
            SceneUIRef::Wall(i) => i < self.walls.len(),
            SceneUIRef::Point(i, _) => i < self.walls.len(),
            SceneUIRef::Screen(_) => true,
        }
    }

    /// The point by which the thing that `r` points at is held when it is
    /// dragged.
    pub open spec fn ref_pos(self, r: SceneUIRef) -> Vector2<T> {
        match r {
            SceneUIRef::Nothing => Vector2::spec_zero(),
            SceneUIRef::Slit(i, j) => self.walls[i as int].point_at(
                self.walls[i as int].slits[j as int].position,
            ),
            SceneUIRef::Wall(i) => self.walls[i as int].a,
            SceneUIRef::Point(i, ab) => if ab {
                self.walls[i as int].b
            } else {
                self.walls[i as int].a
            },
            SceneUIRef::Screen(lr) => if lr {
                self.screen.1
            } else {
                self.screen.0
            },
        }
    }
}

impl<T: Scalar> Scene<T> {
    /// A scene of the given walls before the given screen, without waves.
    pub fn new(env: EMEnv<T>, walls: Vec<Wall<T>>) -> (r: Self)
        ensures
            r@ == (SceneView {
                screen: env.screen,
                waves: Seq::empty(),
                walls: walls@.map_values(|w: Wall<T>| w@),
            }),
    {
        Scene { env, waves: Vec::new(), walls }
    }

    /// Moves the first end of wall `i`, and the second end of the wall
    /// before it along with it.
    pub fn set_wall_a(&mut self, i: usize, a: Vector2<T>)
        requires
            i < old(self)@.walls.len(),
        ensures
            final(self)@ == old(self)@.with_wall_a(i as int, a),
    {
        let ghost v0 = self@;
        if i > 0 {
            self.walls[i - 1].set_b(a);
        }
        self.walls[i].set_a(a);
        assert(self@.walls =~= v0.with_wall_a(i as int, a).walls);
    }

    /// Moves the second end of wall `i`, and the first end of the wall
    /// after it along with it.
    pub fn set_wall_b(&mut self, i: usize, b: Vector2<T>)
        requires
            i < old(self)@.walls.len(),
        ensures
            final(self)@ == old(self)@.with_wall_b(i as int, b),
    {
        let ghost v0 = self@;
        let count = self.walls.len();
        if i + 1 < count {
            self.walls[i + 1].set_a(b);
        }
        self.walls[i].set_b(b);
        assert(self@.walls =~= v0.with_wall_b(i as int, b).walls);
    }

    /// How many walls there are.
    pub fn wall_count(&self) -> (r: usize)
        ensures
            r == self@.walls.len(),
    {
        self.walls.len()
    }

    /// How many slits wall `i` has.
    pub fn slit_count(&self, i: usize) -> (r: usize)
        requires
            i < self@.walls.len(),
        ensures
            r == self@.walls[i as int].slits.len(),
    {
        self.walls[i].slits.len()
    }

    /// The two ends of wall `i`.
    pub fn get_wall_a_b(&self, i: usize) -> (r: (Vector2<T>, Vector2<T>))
        requires
            i < self@.walls.len(),
        ensures
            r == (self@.walls[i as int].a, self@.walls[i as int].b),
    {
        self.walls[i].get_a_b()
    }

    /// Drags slit `j` of wall `i` to the point `wp`; see
    /// `Wall::set_slit_pos`.
    pub fn set_slit_pos(&mut self, i: usize, j: usize, wp: Vector2<T>)
        requires
            i < old(self)@.walls.len(),
            j < old(self)@.walls[i as int].slits.len(),
        ensures
            final(self)@ == (SceneView {
                walls: old(self)@.walls.update(
                    i as int,
                    old(self)@.walls[i as int].with_slit_at(j as int, wp),
                ),
                ..old(self)@
            }),
    {
        let ghost v0 = self@;
        self.walls[i].set_slit_pos(j, wp);
        assert(self@.walls =~= v0.walls.update(i as int, v0.walls[i as int].with_slit_at(j as int, wp)));
    }

    /// Puts a slit into wall `i`; see `Wall::insert_slit`.
    pub fn insert_slit(&mut self, i: usize, width: T, position: T) -> (r: usize)
        requires
            i < old(self)@.walls.len(),
        ensures
            r == first_beyond(old(self)@.walls[i as int].slits, position, 0),
            final(self)@ == (SceneView {
                walls: old(self)@.walls.update(
                    i as int,
                    WallView {
                        slits: old(self)@.walls[i as int].slits.insert(
                            r as int,
                            SceneSlit { width, position },
                        ),
                        ..old(self)@.walls[i as int]
                    },
                ),
                ..old(self)@
            }),
    {
        let ghost v0 = self@;
        let r = self.walls[i].insert_slit(width, position);
        assert(self@.walls =~= v0.walls.update(
            i as int,
            WallView {
                slits: v0.walls[i as int].slits.insert(r as int, SceneSlit { width, position }),
                ..v0.walls[i as int]
            },
        ));
        r
    }

    /// Takes slit `j` out of wall `i`.
    pub fn delete_slit(&mut self, i: usize, j: usize)
        requires
            i < old(self)@.walls.len(),
            j < old(self)@.walls[i as int].slits.len(),
        ensures
            final(self)@ == (SceneView {
                walls: old(self)@.walls.update(
                    i as int,
                    WallView {
                        slits: old(self)@.walls[i as int].slits.remove(j as int),
                        ..old(self)@.walls[i as int]
                    },
                ),
                ..old(self)@
            }),
    {
        let ghost v0 = self@;
        let _ = self.walls[i].remove_slit(j);
        assert(self@.walls =~= v0.walls.update(
            i as int,
            WallView {
                slits: v0.walls[i as int].slits.remove(j as int),
                ..v0.walls[i as int]
            },
        ));
    }

    /// The two ends of the screen.
    pub fn get_screen(&self) -> (r: (Vector2<T>, Vector2<T>))
        ensures
            r == self@.screen,
    {
        self.env.screen
    }

    /// Moves the two ends of the screen.
    pub fn set_screen(&mut self, screen: (Vector2<T>, Vector2<T>))
        ensures
            final(self)@ == (SceneView { screen, ..old(self)@ }),
    {
        self.env.screen = screen;
    }

    /// The point by which the thing that `sur` points at is held.
    pub fn get_ref_pos(&self, sur: SceneUIRef) -> (r: Vector2<T>)
        requires
            self@.has(sur),
        ensures
            r == self@.ref_pos(sur),
    {
        match sur {
            SceneUIRef::Nothing => Vector2::zero(),
            SceneUIRef::Slit(i, j) => {
                let w = &self.walls[i];
                w.slits[j].get_position(w)
            },
            SceneUIRef::Wall(i) => {
                self.walls[i].a
            },
            SceneUIRef::Point(i, ab) => {
                if ab {
                    self.walls[i].b
                } else {
                    self.walls[i].a
                }
            },
            SceneUIRef::Screen(lr) => {
                if lr {
                    self.env.screen.1
                } else {
                    self.env.screen.0
                }
            },
        }
    }

    /// Takes the waves from what `wd` shows: one for each bin shown with
    /// an amplitude above zero, as far as the wave map has a wavelength
    /// for it.
    pub fn compute_waves(&mut self, wd: &WaveData<T>)
        ensures
            final(self)@ == (SceneView {
                waves: shown_waves(
                    wd@.spectrum,
                    wd@.wave_map,
                    wd@.scale,
                    if wd@.spectrum.len() <= wd@.wave_map.len() {
                        wd@.spectrum.len()
                    } else {
                        wd@.wave_map.len()
                    },
                ),
                ..old(self)@
            }),
    {
        let scale = wd.get_scale();
        let n = if wd.spectrum.len() <= wd.wave_map.len() {
            wd.spectrum.len()
        } else {
            wd.wave_map.len()
        };
        let mut waves: Vec<Wave<T>> = Vec::new();
        let mut i: usize = 0;
        while i < n
            invariant
                i <= n,
                n <= wd.spectrum@.len(),
                n <= wd.wave_map@.len(),
                scale == wd@.scale,
                waves@ == shown_waves(wd@.spectrum, wd@.wave_map, wd@.scale, i as nat),
            decreases n - i,
        {
            let a = wd.spectrum[i];
            if T::zero().lt(a[0]) {
                waves.push(Wave::new(wd.wave_map[i].0, a[0].div(scale)));
            }
            i += 1;
        }
        self.waves = waves;
    }

    /// The slits of all walls as the simulation takes them.
    fn get_slits(&self) -> (r: Vec<Slit<'_, T>>)
        ensures
            views(r@) == self@.slits(),
    {
        let mut sim_slits: Vec<Slit<'_, T>> = Vec::new();
        let ghost walls = self@.walls;
        let mut i: usize = 0;
        while i < self.walls.len()
            invariant
                i <= self.walls@.len(),
                walls == self@.walls,
                walls.len() == self.walls@.len(),
                views(sim_slits@) == scene_slits(walls, self.waves@, i as nat),
            decreases self.walls@.len() - i,
        {
            let w = &self.walls[i];
            let ghost before = sim_slits@;
            let mut j: usize = 0;
            while j < w.slits.len()
                invariant
                    j <= w.slits@.len(),
                    w@.slits == w.slits@,
                    views(sim_slits@) == views(before) + w@.slit_views(self.waves@, j as nat),
                decreases w.slits@.len() - j,
            {
                let ghost so_far = sim_slits@;
                let slit = w.slits[j].get_slit(w, self.waves.as_slice());
                sim_slits.push(slit);
                assert(views(sim_slits@) =~= views(so_far).push(slit@));
                assert(views(sim_slits@) =~= views(before) + w@.slit_views(
                    self.waves@,
                    (j + 1) as nat,
                ));
                j += 1;
            }
            i += 1;
        }
        sim_slits
    }

    /// Fills `samples` with the colours along the screen, each as
    /// `convert` hands it back.
    pub fn simulate<S, C: Fn(Vector3<T>) -> S>(
        &self,
        wave_map: &[(T, Vector3<T>)],
        samples: &mut Vec<S>,
        convert: C,
    )
        requires
            forall|v: Vector3<T>| call_requires(convert, (v,)),
        ensures
            final(samples)@.len() == old(samples)@.len(),
            forall|k: int|
                0 <= k < final(samples)@.len() ==> call_ensures(
                    convert,
                    ((EMEnv { screen: self@.screen }).sample_at(
                        self@.slits(),
                        wave_map@,
                        old(samples)@.len(),
                        k as nat,
                    ),),
                    #[trigger] final(samples)@[k],
                ),
    {
        let sim_slits = self.get_slits();
        self.env.generate_pattern(sim_slits.as_slice(), wave_map, samples, convert);
    }
}

impl<T: Scalar> Clone for Scene<T> {
    fn clone(&self) -> (r: Self)
        ensures
            r@ == self@,
    {
        let mut walls: Vec<Wall<T>> = Vec::new();
        let mut i: usize = 0;
        while i < self.walls.len()
            invariant
                i <= self.walls@.len(),
                walls@.len() == i,
                forall|k: int| 0 <= k < i ==> (#[trigger] walls@[k])@ == self.walls@[k]@,
            decreases self.walls@.len() - i,
        {
            walls.push(self.walls[i].clone());
            i += 1;
        }
        let r = Scene {
            env: EMEnv { screen: self.env.screen },
            waves: copy_of(&self.waves),
            walls,
        };
        assert(r@.walls =~= self@.walls);
        r
    }
}

impl<T: Scalar> Default for Scene<T> {
    /// One wall two thousand million long with one slit at its middle,
    /// 1560 wide, and a screen twice as long the same distance above, no
    /// waves.
    fn default() -> (r: Self)
        ensures
            ({
                let g = T::spec_from_usize(1_000_000_000);
                let g2 = T::spec_from_usize(2_000_000_000);
                r@ == (SceneView {
                    screen: (Vector2 { x: g2.spec_neg(), y: g }, Vector2 { x: g2, y: g }),
                    waves: Seq::empty(),
                    walls: seq![
                        WallView {
                            a: Vector2 { x: g.spec_neg(), y: g.spec_neg() },
                            b: Vector2 { x: g, y: g.spec_neg() },
                            dir: Vector2 { x: T::spec_one(), y: T::spec_zero() },
                            slits: seq![SceneSlit { width: T::spec_from_usize(1560), position: g }],
                        },
                    ],
                })
            }),
    {
        let g = T::from_usize(1_000_000_000);
        let g2 = T::from_usize(2_000_000_000);
        let mut slits: Vec<SceneSlit<T>> = Vec::new();
        slits.push(SceneSlit { width: T::from_usize(1560), position: g });
        let wall = Wall {
            a: Vector2::new(g.neg(), g.neg()),
            b: Vector2::new(g, g.neg()),
            dir: Vector2::new(T::one(), T::zero()),
            slits,
        };
        let mut walls: Vec<Wall<T>> = Vec::new();
        walls.push(wall);
        let r = Scene {
            env: EMEnv::new(Vector2::new(g2.neg(), g), Vector2::new(g2, g)),
            waves: Vec::new(),
            walls,
        };
        assert(r@.walls =~= seq![wall@]);
        r
    }
}

} // verus!
