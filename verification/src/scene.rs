//! The scene behind the user interface: a cube that turns by a step at every press of the
//! button, between two palettes in turns.
use crate::geometry::PhysicalSize;
use core::ops::Add;
use core::ops::Sub;
use vstd::prelude::*;
use vstd::std_specs::ops::AddSpec;
use vstd::std_specs::ops::SubSpec;

verus! {

/// What of the scene changes.
#[derive(Clone, Copy, Debug, PartialEq)]
pub struct DemoScene<T> {
    /// How far the cube has turned.
    pub angle: T,
    /// How much of the second palette is in the colors: none or all.
    pub palette_mix: T,
}

/// How the scene changes.
#[derive(Clone, Copy, Debug, PartialEq)]
pub struct Rotation<T> {
    /// The angle of one step.
    pub step: T,
    /// The angle at which the cube is where it began.
    pub full_turn: T,
    /// The whole of a palette.
    pub whole: T,
}

impl<T: Add<Output = T> + Sub<Output = T> + PartialOrd> DemoScene<T> {
    /// One step is defined.
    pub open spec fn can_advance(self, rotation: Rotation<T>) -> bool {
        &&& self.angle.add_req(rotation.step)
        &&& forall|turned: T| #[trigger]
            call_ensures(<T as Add>::add, (self.angle, rotation.step), turned) && call_ensures(
                T::gt,
                (&turned, &rotation.full_turn),
                true,
            ) ==> turned.sub_req(rotation.full_turn)
        &&& rotation.whole.sub_req(self.palette_mix)
    }

    /// `after` is the scene one step on: the angle is a step more, less a full turn where it
    /// would be beyond one, and the palettes have changed places.
    pub open spec fn advanced(self, rotation: Rotation<T>, after: Self) -> bool {
        &&& exists|turned: T| #[trigger]
            call_ensures(<T as Add>::add, (self.angle, rotation.step), turned) && {
                ||| {
                    &&& call_ensures(T::gt, (&turned, &rotation.full_turn), true)
                    &&& call_ensures(
                        <T as Sub>::sub,
                        (turned, rotation.full_turn),
                        after.angle,
                    )
                }
                ||| {
                    &&& call_ensures(T::gt, (&turned, &rotation.full_turn), false)
                    &&& after.angle == turned
                }
            }
        &&& call_ensures(
            <T as Sub>::sub,
            (rotation.whole, self.palette_mix),
            after.palette_mix,
        )
    }

    /// That many steps, one after the other, are defined.
    pub open spec fn can_advance_by(self, rotation: Rotation<T>, steps: nat) -> bool
        decreases steps,
    {
        steps > 0 ==> {
            &&& self.can_advance(rotation)
            &&& forall|after: Self| #[trigger]
                self.advanced(rotation, after) ==> after.can_advance_by(
                    rotation,
                    (steps - 1) as nat,
                )
        }
    }

    /// `after` is the scene that many steps on.
    pub open spec fn advanced_by(self, rotation: Rotation<T>, steps: nat, after: Self) -> bool
        decreases steps,
    {
        if steps == 0 {
            after == self
        } else {
            exists|before: Self|
                self.advanced_by(rotation, (steps - 1) as nat, before)
                    && #[trigger] before.advanced(rotation, after)
        }
    }
}

impl<T: Copy + Add<Output = T> + Sub<Output = T> + PartialOrd> DemoScene<T> {
    /// Goes one step on.
    pub fn advance(&mut self, rotation: Rotation<T>)
        requires
            old(self).can_advance(rotation),
        ensures
            old(self).advanced(rotation, *final(self)),
    {
        let turned = self.angle + rotation.step;
        if turned > rotation.full_turn {
            self.angle = turned - rotation.full_turn;
        } else {
            self.angle = turned;
        }
        self.palette_mix = rotation.whole - self.palette_mix;
    }
}

/// A length, or a single pixel in place of none.
pub open spec fn at_least_one(length: u32) -> u32 {
    if length == 0 {
        1
    } else {
        length
    }
}

/// The width and the height whose quotient is the aspect ratio of a picture of this size; the
/// height is never zero.
pub fn aspect_terms(size: PhysicalSize) -> (terms: (u32, u32))
    ensures
        terms == (size.width, at_least_one(size.height)),
        terms.1 > 0,
{
    (size.width, raise_to_one(size.height))
}

/// The size of the depth texture for a picture of this size: a texture has at least one pixel.
pub fn depth_size(size: PhysicalSize) -> (depth: PhysicalSize)
    ensures
        depth == (PhysicalSize {
            width: at_least_one(size.width),
            height: at_least_one(size.height),
        }),
        depth.drawable(),
        size.drawable() ==> depth == size,
{
    PhysicalSize { width: raise_to_one(size.width), height: raise_to_one(size.height) }
}

fn raise_to_one(length: u32) -> (raised: u32)
    ensures
        raised == at_least_one(length),
{
    if length == 0 {
        1
    } else {
        length
    }
}

/// What every step keeps of the scene holds after any number of steps, if it held before.
pub proof fn law_steps_keep_what_each_keeps<T: Add<Output = T> + Sub<Output = T> + PartialOrd>(
    scene: DemoScene<T>,
    rotation: Rotation<T>,
    kept: spec_fn(DemoScene<T>) -> bool,
    steps: nat,
    after: DemoScene<T>,
)
    requires
        kept(scene),
        forall|one: DemoScene<T>, next: DemoScene<T>|
            kept(one) && #[trigger] one.advanced(rotation, next) ==> kept(next),
        scene.advanced_by(rotation, steps, after),
    ensures
        kept(after),
    decreases steps,
{
    if steps > 0 {
        let before = choose|before: DemoScene<T>|
            scene.advanced_by(rotation, (steps - 1) as nat, before)
                && #[trigger] before.advanced(rotation, after);
        law_steps_keep_what_each_keeps(scene, rotation, kept, (steps - 1) as nat, before);
    }
}

/// The palettes change places with every step, where the whole without the one is `other` and
/// the whole without `other` is the one: after an even number of steps each is where it was,
/// after an odd number where the other was.
pub proof fn law_palette_alternates<T: Add<Output = T> + Sub<Output = T> + PartialOrd>(
    scene: DemoScene<T>,
    rotation: Rotation<T>,
    other: T,
    steps: nat,
    after: DemoScene<T>,
)
    requires
        forall|mix: T| #[trigger]
            call_ensures(<T as Sub>::sub, (rotation.whole, scene.palette_mix), mix) ==> mix
                == other,
        forall|mix: T| #[trigger]
            call_ensures(<T as Sub>::sub, (rotation.whole, other), mix) ==> mix
                == scene.palette_mix,
        scene.advanced_by(rotation, steps, after),
    ensures
        after.palette_mix == if steps % 2 == 0 {
            scene.palette_mix
        } else {
            other
        },
    decreases steps,
{
    if steps > 0 {
        let before = choose|before: DemoScene<T>|
            scene.advanced_by(rotation, (steps - 1) as nat, before)
                && #[trigger] before.advanced(rotation, after);
        law_palette_alternates(scene, rotation, other, (steps - 1) as nat, before);
    }
}

/// On integers the palettes change places with every step: after an even number of steps each
/// is where it was, after an odd number where the other was.
pub proof fn law_palette_alternates_on_integers(
    scene: DemoScene<i64>,
    rotation: Rotation<i64>,
    steps: nat,
    after: DemoScene<i64>,
)
    requires
        scene.can_advance_by(rotation, steps),
        scene.advanced_by(rotation, steps, after),
    ensures
        after.palette_mix == if steps % 2 == 0 {
            scene.palette_mix as int
        } else {
            rotation.whole - scene.palette_mix
        },
{
    if steps > 0 {
        let other: i64 = (rotation.whole - scene.palette_mix) as i64;
        law_palette_alternates(scene, rotation, other, steps, after);
    }
}

/// On integers steps that add up to a full turn bring the angle back to where it was.
pub proof fn law_full_turn_restores_angle(
    scene: DemoScene<i64>,
    rotation: Rotation<i64>,
    steps: nat,
    after: DemoScene<i64>,
)
    requires
        0 < scene.angle <= rotation.full_turn,
        steps * rotation.step == rotation.full_turn,
        scene.can_advance_by(rotation, steps),
        scene.advanced_by(rotation, steps, after),
    ensures
        after.angle == scene.angle,
{
    lemma_angle_within_first_turn(scene, rotation, steps, after, steps);
}

/// Where the angle is after as many of the steps of a full turn as `taken`.
proof fn lemma_angle_within_first_turn(
    scene: DemoScene<i64>,
    rotation: Rotation<i64>,
    taken: nat,
    after: DemoScene<i64>,
    steps: nat,
)
    requires
        0 < scene.angle <= rotation.full_turn,
        steps * rotation.step == rotation.full_turn,
        scene.can_advance_by(rotation, steps),
        scene.advanced_by(rotation, taken, after),
        taken <= steps,
    ensures
        after.angle == if scene.angle + taken * rotation.step <= rotation.full_turn {
            scene.angle + taken * rotation.step
        } else {
            scene.angle + taken * rotation.step - rotation.full_turn
        },
    decreases taken,
{
    let step: int = rotation.step as int;
    if taken == 0 {
        assert(taken * step == 0) by (nonlinear_arith)
            requires
                taken == 0,
        ;
    } else {
        let fewer: nat = (taken - 1) as nat;
        let before = choose|before: DemoScene<i64>|
            scene.advanced_by(rotation, fewer, before) && #[trigger] before.advanced(
                rotation,
                after,
            );
        lemma_angle_within_first_turn(scene, rotation, fewer, before, steps);
        lemma_remaining_steps_are_defined(scene, rotation, fewer, before, steps);
        assert(step > 0) by (nonlinear_arith)
            requires
                steps * step > 0,
        ;
        assert(taken * step == fewer * step + step) by (nonlinear_arith)
            requires
                taken == fewer + 1,
        ;
        assert(taken * step <= steps * step) by (nonlinear_arith)
            requires
                taken <= steps,
                step > 0,
        ;
    }
}

/// Where `steps` steps are defined, those that are left after `taken` of them are.
proof fn lemma_remaining_steps_are_defined(
    scene: DemoScene<i64>,
    rotation: Rotation<i64>,
    taken: nat,
    after: DemoScene<i64>,
    steps: nat,
)
    requires
        taken <= steps,
        scene.can_advance_by(rotation, steps),
        scene.advanced_by(rotation, taken, after),
    ensures
        after.can_advance_by(rotation, (steps - taken) as nat),
    decreases taken,
{
    if taken > 0 {
        let fewer: nat = (taken - 1) as nat;
        let before = choose|before: DemoScene<i64>|
            scene.advanced_by(rotation, fewer, before) && #[trigger] before.advanced(
                rotation,
                after,
            );
        lemma_remaining_steps_are_defined(scene, rotation, fewer, before, steps);
    }
}

/// The angle is within one turn, and of the second palette none or all is in the colors.
pub open spec fn within_turn(scene: DemoScene<i64>, rotation: Rotation<i64>) -> bool {
    &&& 0 <= scene.angle <= rotation.full_turn
    &&& scene.palette_mix == 0 || scene.palette_mix == rotation.whole
}

/// On integers the angle stays within one turn and the colors those of one palette, however
/// often the button is pressed, and no step along the way overflows.
pub proof fn law_scene_stays_within_turn(
    scene: DemoScene<i64>,
    rotation: Rotation<i64>,
    steps: nat,
)
    requires
        within_turn(scene, rotation),
        0 < rotation.step <= rotation.full_turn,
        rotation.full_turn + rotation.step <= i64::MAX,
    ensures
        scene.can_advance_by(rotation, steps),
        forall|after: DemoScene<i64>| #[trigger]
            scene.advanced_by(rotation, steps, after) ==> within_turn(after, rotation),
    decreases steps,
{
    if steps > 0 {
        assert forall|after: DemoScene<i64>| #[trigger]
            scene.advanced(rotation, after) implies after.can_advance_by(
            rotation,
            (steps - 1) as nat,
        ) by {
            lemma_step_stays_within_turn(scene, rotation, after);
            law_scene_stays_within_turn(after, rotation, (steps - 1) as nat);
        }
    }
    assert forall|after: DemoScene<i64>| #[trigger]
        scene.advanced_by(rotation, steps, after) implies within_turn(after, rotation) by {
        assert forall|one: DemoScene<i64>, next: DemoScene<i64>|
            within_turn(one, rotation) && #[trigger] one.advanced(
                rotation,
                next,
            ) implies within_turn(next, rotation) by {
            lemma_step_stays_within_turn(one, rotation, next);
        }
        law_steps_keep_what_each_keeps(
            scene,
            rotation,
            |kept: DemoScene<i64>| within_turn(kept, rotation),
            steps,
            after,
        );
    }
}

proof fn lemma_step_stays_within_turn(
    scene: DemoScene<i64>,
    rotation: Rotation<i64>,
    after: DemoScene<i64>,
)
    requires
        within_turn(scene, rotation),
        0 < rotation.step <= rotation.full_turn,
        rotation.full_turn + rotation.step <= i64::MAX,
        scene.advanced(rotation, after),
    ensures
        within_turn(after, rotation),
{
}

/// On integers one step turns the cube by the angle of a step, less a full turn if and only if
/// it would else be turned by more than one, and what the palettes were and are makes up the
/// whole.
pub proof fn law_step_turns_and_swaps(scene: &mut DemoScene<i64>, rotation: Rotation<i64>)
    requires
        old(scene).can_advance(rotation),
        call_ensures(DemoScene::<i64>::advance, (scene, rotation), ()),
    ensures
        final(scene).angle - old(scene).angle == if old(scene).angle + rotation.step
            <= rotation.full_turn {
            rotation.step as int
        } else {
            rotation.step - rotation.full_turn
        },
        old(scene).palette_mix + final(scene).palette_mix == rotation.whole,
{
}

/// The same of whatever numbers the angles are: the angle is the sum with a step where that
/// does not compare as more than a full turn, and that sum less a full turn where it does.
pub proof fn law_step_compares_with_a_full_turn<
    T: Copy + Add<Output = T> + Sub<Output = T> + PartialOrd,
>(scene: &mut DemoScene<T>, rotation: Rotation<T>)
    requires
        call_ensures(DemoScene::<T>::advance, (scene, rotation), ()),
    ensures
        exists|turned: T|
            {
                &&& #[trigger] call_ensures(
                    <T as Add>::add,
                    (old(scene).angle, rotation.step),
                    turned,
                )
                &&& {
                    ||| {
                        &&& call_ensures(T::gt, (&turned, &rotation.full_turn), false)
                        &&& final(scene).angle == turned
                    }
                    ||| {
                        &&& call_ensures(T::gt, (&turned, &rotation.full_turn), true)
                        &&& call_ensures(
                            <T as Sub>::sub,
                            (turned, rotation.full_turn),
                            final(scene).angle,
                        )
                    }
                }
            },
        call_ensures(
            <T as Sub>::sub,
            (rotation.whole, old(scene).palette_mix),
            final(scene).palette_mix,
        ),
{
    let turned = choose|turned: T| #[trigger]
        call_ensures(<T as Add>::add, (old(scene).angle, rotation.step), turned) && {
            ||| {
                &&& call_ensures(T::gt, (&turned, &rotation.full_turn), true)
                &&& call_ensures(<T as Sub>::sub, (turned, rotation.full_turn), final(scene).angle)
            }
            ||| {
                &&& call_ensures(T::gt, (&turned, &rotation.full_turn), false)
                &&& final(scene).angle == turned
            }
        };
    assert(call_ensures(<T as Add>::add, (old(scene).angle, rotation.step), turned));
}

/// On integers the cube has turned, after any number of steps, by the angle of a step as often,
/// but for full turns.
pub proof fn law_angle_counts_the_steps(
    scene: DemoScene<i64>,
    rotation: Rotation<i64>,
    steps: nat,
    after: DemoScene<i64>,
)
    requires
        scene.can_advance_by(rotation, steps),
        scene.advanced_by(rotation, steps, after),
    ensures
        exists|turns: int|
            0 <= turns <= steps && after.angle == scene.angle + steps * rotation.step
                - #[trigger] (turns * rotation.full_turn),
{
    lemma_angle_counts_the_steps(scene, rotation, steps, after, steps);
}

proof fn lemma_angle_counts_the_steps(
    scene: DemoScene<i64>,
    rotation: Rotation<i64>,
    taken: nat,
    after: DemoScene<i64>,
    steps: nat,
)
    requires
        taken <= steps,
        scene.can_advance_by(rotation, steps),
        scene.advanced_by(rotation, taken, after),
    ensures
        exists|turns: int|
            0 <= turns <= taken && after.angle == scene.angle + taken * rotation.step
                - #[trigger] (turns * rotation.full_turn),
    decreases taken,
{
    let step: int = rotation.step as int;
    let full_turn: int = rotation.full_turn as int;
    if taken == 0 {
        assert(0 * step == 0 && 0 * full_turn == 0);
        assert(after.angle == scene.angle + taken * rotation.step - 0int * rotation.full_turn);
    } else {
        let fewer: nat = (taken - 1) as nat;
        let before = choose|before: DemoScene<i64>|
            scene.advanced_by(rotation, fewer, before) && #[trigger] before.advanced(
                rotation,
                after,
            );
        lemma_angle_counts_the_steps(scene, rotation, fewer, before, steps);
        lemma_remaining_steps_are_defined(scene, rotation, fewer, before, steps);
        let turns = choose|turns: int|
            0 <= turns <= fewer && before.angle == scene.angle + fewer * rotation.step
                - #[trigger] (turns * rotation.full_turn);
        assert(taken * step == fewer * step + step) by (nonlinear_arith)
            requires
                taken == fewer + 1,
        ;
        assert((turns + 1) * full_turn == turns * full_turn + full_turn) by (nonlinear_arith);
        if before.angle + step > full_turn {
            assert(after.angle == scene.angle + taken * rotation.step - (turns + 1)
                * rotation.full_turn);
        } else {
            assert(after.angle == scene.angle + taken * rotation.step - turns
                * rotation.full_turn);
        }
    }
}

/// No step leaves the scene as it is, one step is a step, and some steps and then some more are
/// as many as both together.
pub proof fn law_steps_add_up<T: Add<Output = T> + Sub<Output = T> + PartialOrd>(
    scene: DemoScene<T>,
    rotation: Rotation<T>,
    some: nat,
    middle: DemoScene<T>,
    more: nat,
    after: DemoScene<T>,
)
    ensures
        scene.advanced_by(rotation, 0, after) <==> after == scene,
        scene.advanced_by(rotation, 1, after) <==> scene.advanced(rotation, after),
        scene.advanced_by(rotation, some, middle) && middle.advanced_by(rotation, more, after)
            ==> scene.advanced_by(rotation, some + more, after),
    decreases more,
{
    if scene.advanced(rotation, after) {
        assert(scene.advanced_by(rotation, 0, scene));
        assert(scene.advanced_by(rotation, 1, after));
    }
    if scene.advanced_by(rotation, 1, after) {
        let before = choose|before: DemoScene<T>|
            scene.advanced_by(rotation, 0, before) && #[trigger] before.advanced(rotation, after);
        assert(before == scene);
    }
    if more > 0 && scene.advanced_by(rotation, some, middle) && middle.advanced_by(
        rotation,
        more,
        after,
    ) {
        let fewer: nat = (more - 1) as nat;
        let before = choose|before: DemoScene<T>|
            middle.advanced_by(rotation, fewer, before) && #[trigger] before.advanced(
                rotation,
                after,
            );
        law_steps_add_up(scene, rotation, some, middle, fewer, before);
        assert((some + more - 1) as nat == some + fewer);
        assert(scene.advanced_by(rotation, some + more, after));
    }
}

/// On integers a step is defined where neither the angle, with and without a full turn, nor what
/// the palette leaves of the whole is too large or too small for the numbers at hand.
pub proof fn law_step_is_defined_in_range(scene: DemoScene<i64>, rotation: Rotation<i64>)
    requires
        i64::MIN <= scene.angle + rotation.step <= i64::MAX,
        i64::MIN <= scene.angle + rotation.step - rotation.full_turn <= i64::MAX,
        i64::MIN <= rotation.whole - scene.palette_mix <= i64::MAX,
    ensures
        scene.can_advance(rotation),
{
}

/// The aspect ratio is that of the picture's width and height, in this order, with a height of
/// one in place of none.
pub proof fn law_aspect_is_width_over_height(size: PhysicalSize, terms: (u32, u32))
    requires
        call_ensures(aspect_terms, (size,), terms),
    ensures
        terms.0 == size.width,
        size.height > 0 ==> terms.1 == size.height,
        size.height == 0 ==> terms.1 == 1,
{
}

/// The depth texture is the smallest that has a pixel and covers the picture.
pub proof fn law_depth_covers_the_picture(
    size: PhysicalSize,
    depth: PhysicalSize,
    other: PhysicalSize,
)
    requires
        call_ensures(depth_size, (size,), depth),
    ensures
        depth.width > 0 && depth.height > 0,
        depth.width >= size.width && depth.height >= size.height,
        other.width > 0 && other.width >= size.width ==> depth.width <= other.width,
        other.height > 0 && other.height >= size.height ==> depth.height <= other.height,
{
}

} // verus!
