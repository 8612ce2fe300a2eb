//! Where the embedded user interface lies on the window, in physical pixels.
//!
//! Positions are generic in their coordinate. Of a coordinate the functions here ask only
//! for the operators they use, and their contracts speak of the outcome of exactly those
//! operators, so they hold of a coordinate that rounds as well as of an integer. What they
//! come to on integers is the subject of the laws at the end.
use core::ops::Add;
use core::ops::Div;
use core::ops::Sub;
use vstd::prelude::*;
use vstd::std_specs::ops::AddSpec;
use vstd::std_specs::ops::DivSpec;
use vstd::std_specs::ops::SubSpec;

verus! {

/// A position in physical pixels.
#[derive(Clone, Copy, Debug, PartialEq)]
pub struct PhysicalPosition<T> {
    pub x: T,
    pub y: T,
}

/// A size in physical pixels.
#[derive(Clone, Copy, Debug, PartialEq, Eq, Structural)]
pub struct PhysicalSize {
    pub width: u32,
    pub height: u32,
}

impl PhysicalSize {
    /// A surface of this size has at least one pixel.
    pub open spec fn drawable(self) -> bool {
        self.width > 0 && self.height > 0
    }

    /// Whether a surface of this size has at least one pixel.
    pub fn is_drawable(self) -> (answer: bool)
        ensures
            answer == self.drawable(),
    {
        self.width > 0 && self.height > 0
    }
}

/// The part of the window that the embedded user interface covers.
#[derive(Clone, Copy, Debug, PartialEq)]
pub struct OverlayRect<T> {
    pub origin: PhysicalPosition<T>,
    pub size: PhysicalSize,
}

/// `start + extent` is defined.
pub open spec fn far_edge_defined<T: Add<Output = T> + From<u32>>(start: T, extent: u32) -> bool {
    forall|length: T| #[trigger]
        call_ensures(<T as From<u32>>::from, (extent,), length) ==> start.add_req(length)
}

/// `edge` is what `start + extent` gives.
pub open spec fn far_edge<T: Add<Output = T> + From<u32>>(start: T, extent: u32, edge: T) -> bool {
    exists|length: T| #[trigger]
        call_ensures(<T as From<u32>>::from, (extent,), length) && call_ensures(
            <T as Add>::add,
            (start, length),
            edge,
        )
}

/// Comparing `value` with `start + extent` says `answer` to the question whether it is less.
pub open spec fn before_far_edge<T: PartialOrd + Add<Output = T> + From<u32>>(
    value: T,
    start: T,
    extent: u32,
    answer: bool,
) -> bool {
    exists|edge: T| #[trigger]
        far_edge(start, extent, edge) && call_ensures(T::lt, (&value, &edge), answer)
}

/// Comparing `value` with `start` says `answer` to the question whether it is at least that.
pub open spec fn at_or_after<T: PartialOrd>(value: T, start: T, answer: bool) -> bool {
    call_ensures(T::ge, (&value, &start), answer)
}

impl<T: PartialOrd + Add<Output = T> + From<u32>> OverlayRect<T> {
    /// The far edges of the rectangle are defined.
    pub open spec fn edges_defined(self) -> bool {
        far_edge_defined(self.origin.x, self.size.width) && far_edge_defined(
            self.origin.y,
            self.size.height,
        )
    }

    /// `answer` is what the four comparisons of `position` with the edges come to: the near
    /// edges belong to the rectangle and the far ones do not.
    pub open spec fn hit(self, position: PhysicalPosition<T>, answer: bool) -> bool {
        if answer {
            &&& at_or_after(position.x, self.origin.x, true)
            &&& at_or_after(position.y, self.origin.y, true)
            &&& before_far_edge(position.x, self.origin.x, self.size.width, true)
            &&& before_far_edge(position.y, self.origin.y, self.size.height, true)
        } else {
            ||| at_or_after(position.x, self.origin.x, false)
            ||| at_or_after(position.y, self.origin.y, false)
            ||| before_far_edge(position.x, self.origin.x, self.size.width, false)
            ||| before_far_edge(position.y, self.origin.y, self.size.height, false)
        }
    }
}

impl<T: Copy + PartialOrd + Add<Output = T> + From<u32>> OverlayRect<T> {
    /// Whether `position` lies on the overlay.
    pub fn contains(self, position: PhysicalPosition<T>) -> (answer: bool)
        requires
            self.edges_defined(),
        ensures
            self.hit(position, answer),
    {
        if !(position.x >= self.origin.x) {
            return false;
        }
        if !(position.y >= self.origin.y) {
            return false;
        }
        let right = self.origin.x + T::from(self.size.width);
        assert(far_edge(self.origin.x, self.size.width, right));
        if !(position.x < right) {
            return false;
        }
        let bottom = self.origin.y + T::from(self.size.height);
        assert(far_edge(self.origin.y, self.size.height, bottom));
        position.y < bottom
    }
}

/// `position - origin` is defined.
pub open spec fn difference_defined<T: Sub<Output = T>>(
    position: PhysicalPosition<T>,
    origin: PhysicalPosition<T>,
) -> bool {
    position.x.sub_req(origin.x) && position.y.sub_req(origin.y)
}

/// `local` is what `position - origin` gives.
pub open spec fn difference<T: Sub<Output = T>>(
    position: PhysicalPosition<T>,
    origin: PhysicalPosition<T>,
    local: PhysicalPosition<T>,
) -> bool {
    call_ensures(<T as Sub>::sub, (position.x, origin.x), local.x) && call_ensures(
        <T as Sub>::sub,
        (position.y, origin.y),
        local.y,
    )
}

/// The position as seen from `origin`.
pub fn translate_position<T: Copy + Sub<Output = T>>(
    position: PhysicalPosition<T>,
    origin: PhysicalPosition<T>,
) -> (local: PhysicalPosition<T>)
    requires
        difference_defined(position, origin),
    ensures
        difference(position, origin, local),
{
    PhysicalPosition { x: position.x - origin.x, y: position.y - origin.y }
}

/// The pixels of `window` that `content` leaves free.
pub open spec fn free_space(window: u32, content: u32) -> u32 {
    if window >= content {
        (window - content) as u32
    } else {
        0
    }
}

/// Half of `space` is defined.
pub open spec fn half_defined<T: Div<Output = T> + From<u32>>(space: u32) -> bool {
    forall|whole: T, two: T|
        #![trigger call_ensures(<T as From<u32>>::from, (space,), whole), call_ensures(<T as From<u32>>::from, (2u32,), two)]
        call_ensures(<T as From<u32>>::from, (space,), whole) && call_ensures(
            <T as From<u32>>::from,
            (2u32,),
            two,
        ) ==> whole.div_req(two)
}

/// `half` is what halving `space` gives.
pub open spec fn half<T: Div<Output = T> + From<u32>>(space: u32, half: T) -> bool {
    exists|whole: T, two: T| #[trigger]
        call_ensures(<T as From<u32>>::from, (space,), whole) && #[trigger] call_ensures(
            <T as From<u32>>::from,
            (2u32,),
            two,
        ) && call_ensures(<T as Div>::div, (whole, two), half)
}

/// The offset that leaves half of `space` on either side.
pub fn centering_offset<T: Div<Output = T> + From<u32>>(space: u32) -> (offset: T)
    requires
        half_defined::<T>(space),
    ensures
        half(space, offset),
{
    let whole = T::from(space);
    let two = T::from(2u32);
    whole / two
}

/// On integers a position lies on the overlay if and only if both its coordinates lie in the
/// half-open ranges that start at the origin and are as long as the size says.
pub proof fn law_hit_is_half_open(
    rect: OverlayRect<u64>,
    position: PhysicalPosition<u64>,
    answer: bool,
)
    requires
        rect.edges_defined(),
        rect.hit(position, answer),
    ensures
        answer == (rect.origin.x <= position.x < rect.origin.x + rect.size.width && rect.origin.y
            <= position.y < rect.origin.y + rect.size.height),
{
}

/// On integers a position on the overlay is, seen from the overlay's origin, a pixel of the
/// user interface: nothing that a hit test lets through falls outside what it was drawn in.
pub proof fn law_hit_is_local_pixel(
    rect: OverlayRect<u64>,
    position: PhysicalPosition<u64>,
    local: PhysicalPosition<u64>,
)
    requires
        rect.edges_defined(),
        rect.hit(position, true),
        difference(position, rect.origin, local),
    ensures
        difference_defined(position, rect.origin),
        local.x < rect.size.width,
        local.y < rect.size.height,
{
    law_hit_is_half_open(rect, position, true);
}

/// On integers the offset that centers `content` in `window` leaves as much before the
/// content as after it, but for the odd pixel, and is zero where the content does not fit.
pub proof fn law_offset_centers(window: u32, content: u32, offset: u64)
    requires
        half(free_space(window, content), offset),
    ensures
        content <= window ==> {
            let after = window - content - offset;
            offset <= after <= offset + 1
        },
        window < content ==> offset == 0,
{
    let space = free_space(window, content);
    let two: u64 = 2;
    assert(offset == (space as u64) / two);
}

/// On integers halving gives one result.
pub proof fn law_half_is_unique(space: u32, left: u64, right: u64)
    requires
        half(space, left),
        half(space, right),
    ensures
        left == right,
{
    let two: u64 = 2;
    assert(left == (space as u64) / two);
    assert(right == (space as u64) / two);
}

/// On integers the hit test finds exactly the pixels of the overlay: as many columns from its
/// origin on as it is wide, and as many rows as it is high.
pub proof fn law_contains_finds_the_pixels(
    rect: OverlayRect<u64>,
    position: PhysicalPosition<u64>,
    answer: bool,
)
    requires
        rect.origin.x + rect.size.width <= u64::MAX,
        rect.origin.y + rect.size.height <= u64::MAX,
        call_ensures(OverlayRect::<u64>::contains, (rect, position), answer),
    ensures
        answer <==> {
            &&& 0 <= position.x - rect.origin.x < rect.size.width
            &&& 0 <= position.y - rect.origin.y < rect.size.height
        },
{
}

/// A position on the overlay compares as not before the near edges and as before the far ones,
/// and of a position beside it one of these comparisons says otherwise, whatever the
/// coordinates are and however they compare.
pub proof fn law_contains_asks_the_edges<T: Copy + PartialOrd + Add<Output = T> + From<u32>>(
    rect: OverlayRect<T>,
    position: PhysicalPosition<T>,
    answer: bool,
)
    requires
        call_ensures(OverlayRect::<T>::contains, (rect, position), answer),
    ensures
        answer ==> {
            &&& call_ensures(T::ge, (&position.x, &rect.origin.x), true)
            &&& call_ensures(T::ge, (&position.y, &rect.origin.y), true)
            &&& exists|right: T, width: T| #[trigger]
                call_ensures(<T as From<u32>>::from, (rect.size.width,), width)
                    && #[trigger] call_ensures(<T as Add>::add, (rect.origin.x, width), right)
                    && call_ensures(T::lt, (&position.x, &right), true)
            &&& exists|bottom: T, height: T| #[trigger]
                call_ensures(<T as From<u32>>::from, (rect.size.height,), height)
                    && #[trigger] call_ensures(<T as Add>::add, (rect.origin.y, height), bottom)
                    && call_ensures(T::lt, (&position.y, &bottom), true)
        },
        !answer ==> {
            ||| call_ensures(T::ge, (&position.x, &rect.origin.x), false)
            ||| call_ensures(T::ge, (&position.y, &rect.origin.y), false)
            ||| exists|right: T, width: T| #[trigger]
                call_ensures(<T as From<u32>>::from, (rect.size.width,), width)
                    && #[trigger] call_ensures(<T as Add>::add, (rect.origin.x, width), right)
                    && call_ensures(T::lt, (&position.x, &right), false)
            ||| exists|bottom: T, height: T| #[trigger]
                call_ensures(<T as From<u32>>::from, (rect.size.height,), height)
                    && #[trigger] call_ensures(<T as Add>::add, (rect.origin.y, height), bottom)
                    && call_ensures(T::lt, (&position.y, &bottom), false)
        },
{
    let (x, y) = (position.x, position.y);
    let (start, size) = (rect.origin, rect.size);
    if before_far_edge(x, start.x, size.width, answer) {
        let edge = choose|edge: T| #[trigger]
            far_edge(start.x, size.width, edge) && call_ensures(T::lt, (&x, &edge), answer);
        let length = choose|length: T| #[trigger]
            call_ensures(<T as From<u32>>::from, (size.width,), length) && call_ensures(
                <T as Add>::add,
                (start.x, length),
                edge,
            );
        assert(call_ensures(<T as From<u32>>::from, (size.width,), length));
        assert(call_ensures(<T as Add>::add, (start.x, length), edge));
    }
    if before_far_edge(y, start.y, size.height, answer) {
        let edge = choose|edge: T| #[trigger]
            far_edge(start.y, size.height, edge) && call_ensures(T::lt, (&y, &edge), answer);
        let length = choose|length: T| #[trigger]
            call_ensures(<T as From<u32>>::from, (size.height,), length) && call_ensures(
                <T as Add>::add,
                (start.y, length),
                edge,
            );
        assert(call_ensures(<T as From<u32>>::from, (size.height,), length));
        assert(call_ensures(<T as Add>::add, (start.y, length), edge));
    }
}

/// On integers the origin and the position as seen from it add up to the position, in both
/// directions.
pub proof fn law_local_position_adds_up(
    position: PhysicalPosition<i64>,
    origin: PhysicalPosition<i64>,
    local: PhysicalPosition<i64>,
)
    requires
        difference_defined(position, origin),
        call_ensures(translate_position::<i64>, (position, origin), local),
    ensures
        origin.x + local.x == position.x,
        origin.y + local.y == position.y,
{
}

/// On integers two differences are defined if and only if neither is too large for the numbers
/// at hand.
pub proof fn law_difference_is_defined_in_range(
    position: PhysicalPosition<i64>,
    origin: PhysicalPosition<i64>,
)
    ensures
        difference_defined(position, origin) <==> {
            &&& i64::MIN <= position.x - origin.x <= i64::MAX
            &&& i64::MIN <= position.y - origin.y <= i64::MAX
        },
{
}

/// On integers the offset and as much again make up the space, but for the odd pixel.
pub proof fn law_offset_is_half(space: u32, offset: u64)
    requires
        call_ensures(centering_offset::<u64>, (space,), offset),
    ensures
        offset + offset <= space <= offset + offset + 1,
{
    let two: u64 = 2;
    assert(offset == (space as u64) / two);
}

/// A size is one to draw on if and only if neither of its lengths is zero.
pub proof fn law_drawable_has_a_pixel(size: PhysicalSize, answer: bool)
    requires
        call_ensures(PhysicalSize::is_drawable, (size,), answer),
    ensures
        answer <==> size.width != 0 && size.height != 0,
        answer <==> size.width * size.height > 0,
{
    assert(size.width * size.height > 0 <==> size.width != 0 && size.height != 0)
        by (nonlinear_arith);
}

} // verus!
