//! Axis-aware sizes, edge offsets and rectangles.
//!
//! Layout code speaks of a main axis and a cross axis and never of width or
//! height. Which physical field a logical name stands for is decided here,
//! from the [`FlexDirection`] alone:
//!
//! | query         | row directions   | column directions |
//! |---------------|------------------|-------------------|
//! | `main`        | width, left + right | height, top + bottom |
//! | `cross`       | height, top + bottom | width, left + right |
//! | `main_start`  | left             | top               |
//! | `main_end`    | right            | bottom            |
//! | `cross_start` | top              | left              |
//! | `cross_end`   | bottom           | right             |
//!
//! A reversed direction selects the same fields as its forward counterpart.

use crate::number::Number;
use crate::style::FlexDirection;
use std::ops::Add;
use vstd::prelude::*;
use vstd::std_specs::cmp::PartialEqSpec;
use vstd::std_specs::ops::AddSpec;

verus! {

/// A rectangle in layout space: where a box is and how large it is.
#[derive(Debug)]
pub struct Rect<T> {
    pub origin: RectOrigin<T>,
    pub size: RectSize<T>,
}

impl<T> Rect<T> {
    /// None of the four scalars of the rectangle has been computed.
    pub open spec fn is_undefined(&self) -> bool {
        self.origin.is_undefined() && self.size.is_undefined()
    }

    /// A rectangle of which nothing has been computed yet.
    pub fn undefined() -> (r: Self)
        ensures
            r.is_undefined(),
    {
        Rect { origin: RectOrigin::undefined(), size: RectSize::undefined() }
    }
}

impl<T: Clone> Clone for Rect<T> {
    fn clone(&self) -> (r: Self)
        ensures
            cloned(self.origin, r.origin),
            cloned(self.size, r.size),
    {
        Rect { origin: self.origin.clone(), size: self.size.clone() }
    }
}

impl<T: Copy> Copy for Rect<T> {}

impl<T: PartialEq> PartialEq for Rect<T> {
    /// Two rectangles are equal when their origins and their sizes are.
    fn eq(&self, other: &Self) -> (r: bool)
        ensures
            self.is_undefined() && other.is_undefined() ==> r,
            self.is_undefined() != other.is_undefined() ==> !r,
    {
        self.origin == other.origin && self.size == other.size
    }
}

impl<T: PartialEq> vstd::std_specs::cmp::PartialEqSpecImpl for Rect<T> {
    open spec fn obeys_eq_spec() -> bool {
        T::obeys_eq_spec()
    }

    open spec fn eq_spec(&self, other: &Self) -> bool {
        self.equals(other)
    }
}

impl<T: PartialEq> Rect<T> {
    /// What `==` computes on two rectangles.
    pub open spec fn equals(&self, other: &Self) -> bool {
        self.origin.equals(&other.origin) && self.size.equals(&other.size)
    }
}

/// The position of a rectangle.
#[derive(Debug)]
pub struct RectOrigin<T> {
    pub x: Number<T>,
    pub y: Number<T>,
}

impl<T> RectOrigin<T> {
    /// Neither coordinate has been computed.
    pub open spec fn is_undefined(&self) -> bool {
        self.x is Undefined && self.y is Undefined
    }

    /// A position of which nothing has been computed yet.
    pub fn undefined() -> (r: Self)
        ensures
            r.is_undefined(),
    {
        RectOrigin { x: Number::Undefined, y: Number::Undefined }
    }
}

impl<T: Clone> Clone for RectOrigin<T> {
    fn clone(&self) -> (r: Self)
        ensures
            cloned(self.x, r.x),
            cloned(self.y, r.y),
    {
        RectOrigin { x: self.x.clone(), y: self.y.clone() }
    }
}

impl<T: Copy> Copy for RectOrigin<T> {}

impl<T: PartialEq> PartialEq for RectOrigin<T> {
    /// Two positions are equal when both of their coordinates are.
    fn eq(&self, other: &Self) -> (r: bool)
        ensures
            self.is_undefined() && other.is_undefined() ==> r,
            self.is_undefined() != other.is_undefined() ==> !r,
    {
        self.x == other.x && self.y == other.y
    }
}

impl<T: PartialEq> vstd::std_specs::cmp::PartialEqSpecImpl for RectOrigin<T> {
    open spec fn obeys_eq_spec() -> bool {
        T::obeys_eq_spec()
    }

    open spec fn eq_spec(&self, other: &Self) -> bool {
        self.equals(other)
    }
}

impl<T: PartialEq> RectOrigin<T> {
    /// What `==` computes on two positions.
    pub open spec fn equals(&self, other: &Self) -> bool {
        self.x.equals(&other.x) && self.y.equals(&other.y)
    }
}

/// The extent of a rectangle.
#[derive(Debug)]
pub struct RectSize<T> {
    pub width: Number<T>,
    pub height: Number<T>,
}

impl<T> RectSize<T> {
    /// Neither extent has been computed.
    pub open spec fn is_undefined(&self) -> bool {
        self.width is Undefined && self.height is Undefined
    }

    /// The extent along the main axis of `direction`.
    pub open spec fn spec_main(self, direction: FlexDirection) -> Number<T> {
        if direction.is_row() {
            self.width
        } else {
            self.height
        }
    }

    /// The extent along the cross axis of `direction`.
    pub open spec fn spec_cross(self, direction: FlexDirection) -> Number<T> {
        if direction.is_row() {
            self.height
        } else {
            self.width
        }
    }

    /// An extent of which nothing has been computed yet.
    pub fn undefined() -> (r: Self)
        ensures
            r.is_undefined(),
    {
        RectSize { width: Number::Undefined, height: Number::Undefined }
    }

    /// The extent along the main axis: the width in a row, the height in a
    /// column.
    #[verifier::when_used_as_spec(spec_main)]
    pub fn main(self, direction: FlexDirection) -> (r: Number<T>)
        ensures
            r == self.spec_main(direction),
    {
        if direction.is_row() {
            self.width
        } else {
            self.height
        }
    }

    /// The extent along the cross axis: the height in a row, the width in a
    /// column.
    #[verifier::when_used_as_spec(spec_cross)]
    pub fn cross(self, direction: FlexDirection) -> (r: Number<T>)
        ensures
            r == self.spec_cross(direction),
    {
        if direction.is_row() {
            self.height
        } else {
            self.width
        }
    }
}

impl<T: Clone> Clone for RectSize<T> {
    fn clone(&self) -> (r: Self)
        ensures
            cloned(self.width, r.width),
            cloned(self.height, r.height),
    {
        RectSize { width: self.width.clone(), height: self.height.clone() }
    }
}

impl<T: Copy> Copy for RectSize<T> {}

impl<T: PartialEq> PartialEq for RectSize<T> {
    /// Two extents are equal when their widths and their heights are.
    fn eq(&self, other: &Self) -> (r: bool)
        ensures
            self.is_undefined() && other.is_undefined() ==> r,
            self.is_undefined() != other.is_undefined() ==> !r,
    {
        self.width == other.width && self.height == other.height
    }
}

impl<T: PartialEq> vstd::std_specs::cmp::PartialEqSpecImpl for RectSize<T> {
    open spec fn obeys_eq_spec() -> bool {
        T::obeys_eq_spec()
    }

    open spec fn eq_spec(&self, other: &Self) -> bool {
        self.equals(other)
    }
}

impl<T: PartialEq> RectSize<T> {
    /// What `==` computes on two extents.
    pub open spec fn equals(&self, other: &Self) -> bool {
        self.width.equals(&other.width) && self.height.equals(&other.height)
    }
}

/// Four edge values of one type, each independent of the other three.
#[derive(Debug)]
pub struct Offsets<T> {
    pub top: T,
    pub left: T,
    pub bottom: T,
    pub right: T,
}

impl<T> Offsets<T> {
    /// These offsets with the function `g` applied to each edge.
    pub open spec fn spec_map<R>(self, g: spec_fn(T) -> R) -> Offsets<R> {
        Offsets { top: g(self.top), left: g(self.left), bottom: g(self.bottom), right: g(self.right) }
    }

    /// Applies `f` to each of the four edges on its own.
    pub fn map<R, F: Fn(T) -> R>(self, f: F) -> (r: Offsets<R>)
        requires
            f.requires((self.top,)),
            f.requires((self.left,)),
            f.requires((self.bottom,)),
            f.requires((self.right,)),
        ensures
            f.ensures((self.top,), r.top),
            f.ensures((self.left,), r.left),
            f.ensures((self.bottom,), r.bottom),
            f.ensures((self.right,), r.right),
            forall|g: spec_fn(T) -> R|
                (forall|x: T, y: R| #[trigger] f.ensures((x,), y) ==> y == g(x)) ==> r
                    == #[trigger] self.spec_map(g),
    {
        Offsets {
            left: f(self.left),
            right: f(self.right),
            top: f(self.top),
            bottom: f(self.bottom),
        }
    }
}

impl<T> Offsets<T> where T: Add<Output = T> + Copy + Clone {
    /// The sum of the left and the right edge.
    pub open spec fn spec_horizontal(&self) -> T {
        self.left.add_spec(self.right)
    }

    /// The sum of the top and the bottom edge.
    pub open spec fn spec_vertical(&self) -> T {
        self.top.add_spec(self.bottom)
    }

    /// The sum of the two edges that lie on the main axis of `direction`.
    pub open spec fn spec_main(&self, direction: FlexDirection) -> T {
        if direction.is_row() {
            self.spec_horizontal()
        } else {
            self.spec_vertical()
        }
    }

    /// The sum of the two edges that lie on the cross axis of `direction`.
    pub open spec fn spec_cross(&self, direction: FlexDirection) -> T {
        if direction.is_row() {
            self.spec_vertical()
        } else {
            self.spec_horizontal()
        }
    }

    /// The total along the horizontal axis, `left + right`, whatever the
    /// direction of flow is.
    pub fn horizontal(&self) -> (r: T)
        requires
            self.left.add_req(self.right),
        ensures
            call_ensures(T::add, (self.left, self.right), r),
            T::obeys_add_spec() ==> r == self.spec_horizontal(),
    {
        self.left + self.right
    }

    /// The total along the vertical axis, `top + bottom`, whatever the
    /// direction of flow is.
    pub fn vertical(&self) -> (r: T)
        requires
            self.top.add_req(self.bottom),
        ensures
            call_ensures(T::add, (self.top, self.bottom), r),
            T::obeys_add_spec() ==> r == self.spec_vertical(),
    {
        self.top + self.bottom
    }

    /// The total along the main axis: `left + right` in a row,
    /// `top + bottom` in a column.
    pub fn main(&self, direction: FlexDirection) -> (r: T)
        requires
            direction.is_row() ==> self.left.add_req(self.right),
            direction.is_column() ==> self.top.add_req(self.bottom),
        ensures
            direction.is_row() ==> call_ensures(T::add, (self.left, self.right), r),
            direction.is_column() ==> call_ensures(T::add, (self.top, self.bottom), r),
            T::obeys_add_spec() ==> r == self.spec_main(direction),
    {
        if direction.is_row() {
            self.horizontal()
        } else {
            self.vertical()
        }
    }

    /// The total along the cross axis: `top + bottom` in a row,
    /// `left + right` in a column.
    pub fn cross(&self, direction: FlexDirection) -> (r: T)
        requires
            direction.is_row() ==> self.top.add_req(self.bottom),
            direction.is_column() ==> self.left.add_req(self.right),
        ensures
            direction.is_row() ==> call_ensures(T::add, (self.top, self.bottom), r),
            direction.is_column() ==> call_ensures(T::add, (self.left, self.right), r),
            T::obeys_add_spec() ==> r == self.spec_cross(direction),
    {
        if direction.is_row() {
            self.vertical()
        } else {
            self.horizontal()
        }
    }
}

impl<T> Offsets<T> where T: Copy + Clone {
    /// The edge at which the main axis of `direction` begins.
    pub open spec fn spec_main_start(&self, direction: FlexDirection) -> T {
        if direction.is_row() {
            self.left
        } else {
            self.top
        }
    }

    /// The edge at which the main axis of `direction` ends.
    pub open spec fn spec_main_end(&self, direction: FlexDirection) -> T {
        if direction.is_row() {
            self.right
        } else {
            self.bottom
        }
    }

    /// The edge at which the cross axis of `direction` begins.
    pub open spec fn spec_cross_start(&self, direction: FlexDirection) -> T {
        if direction.is_row() {
            self.top
        } else {
            self.left
        }
    }

    /// The edge at which the cross axis of `direction` ends.
    pub open spec fn spec_cross_end(&self, direction: FlexDirection) -> T {
        if direction.is_row() {
            self.bottom
        } else {
            self.right
        }
    }

    /// The edge at the start of the main axis: left in a row, top in a
    /// column.
    #[verifier::when_used_as_spec(spec_main_start)]
    pub fn main_start(&self, direction: FlexDirection) -> (r: T)
        ensures
            r == self.spec_main_start(direction),
    {
        if direction.is_row() {
            self.left
        } else {
            self.top
        }
    }

    /// The edge at the end of the main axis: right in a row, bottom in a
    /// column.
    #[verifier::when_used_as_spec(spec_main_end)]
    pub fn main_end(&self, direction: FlexDirection) -> (r: T)
        ensures
            r == self.spec_main_end(direction),
    {
        if direction.is_row() {
            self.right
        } else {
            self.bottom
        }
    }

    /// The edge at the start of the cross axis: top in a row, left in a
    /// column.
    #[verifier::when_used_as_spec(spec_cross_start)]
    pub fn cross_start(&self, direction: FlexDirection) -> (r: T)
        ensures
            r == self.spec_cross_start(direction),
    {
        if direction.is_row() {
            self.top
        } else {
            self.left
        }
    }

    /// The edge at the end of the cross axis: bottom in a row, right in a
    /// column.
    #[verifier::when_used_as_spec(spec_cross_end)]
    pub fn cross_end(&self, direction: FlexDirection) -> (r: T)
        ensures
            r == self.spec_cross_end(direction),
    {
        if direction.is_row() {
            self.bottom
        } else {
            self.right
        }
    }
}

impl<T: Clone> Clone for Offsets<T> {
    fn clone(&self) -> (r: Self)
        ensures
            cloned(self.top, r.top),
            cloned(self.left, r.left),
            cloned(self.bottom, r.bottom),
            cloned(self.right, r.right),
    {
        Offsets {
            top: self.top.clone(),
            left: self.left.clone(),
            bottom: self.bottom.clone(),
            right: self.right.clone(),
        }
    }
}

impl<T: Copy> Copy for Offsets<T> {}

impl<T: PartialEq> PartialEq for Offsets<T> {
    /// Two sets of offsets are equal when each edge equals its counterpart.
    fn eq(&self, other: &Self) -> (r: bool) {
        self.top == other.top && self.left == other.left && self.bottom == other.bottom
            && self.right == other.right
    }
}

impl<T: PartialEq> vstd::std_specs::cmp::PartialEqSpecImpl for Offsets<T> {
    open spec fn obeys_eq_spec() -> bool {
        T::obeys_eq_spec()
    }

    open spec fn eq_spec(&self, other: &Self) -> bool {
        &&& self.top.eq_spec(&other.top)
        &&& self.left.eq_spec(&other.left)
        &&& self.bottom.eq_spec(&other.bottom)
        &&& self.right.eq_spec(&other.right)
    }
}

/// A width and a height, two independent values of one type.
#[derive(Debug)]
pub struct Size<T> {
    pub width: T,
    pub height: T,
}

impl<T> Size<T> {
    /// The extent along the main axis of `direction`.
    pub open spec fn spec_main(self, direction: FlexDirection) -> T {
        if direction.is_row() {
            self.width
        } else {
            self.height
        }
    }

    /// The extent along the cross axis of `direction`.
    pub open spec fn spec_cross(self, direction: FlexDirection) -> T {
        if direction.is_row() {
            self.height
        } else {
            self.width
        }
    }

    /// This size with its main-axis extent replaced by `value`.
    pub open spec fn with_main(self, direction: FlexDirection, value: T) -> Size<T> {
        if direction.is_row() {
            Size { width: value, height: self.height }
        } else {
            Size { width: self.width, height: value }
        }
    }

    /// This size with its cross-axis extent replaced by `value`.
    pub open spec fn with_cross(self, direction: FlexDirection, value: T) -> Size<T> {
        if direction.is_row() {
            Size { width: self.width, height: value }
        } else {
            Size { width: value, height: self.height }
        }
    }

    /// This size with the function `g` applied to each extent.
    pub open spec fn spec_map<R>(self, g: spec_fn(T) -> R) -> Size<R> {
        Size { width: g(self.width), height: g(self.height) }
    }

    /// Applies `f` to the width and to the height, each on its own.
    pub fn map<R, F>(self, f: F) -> (r: Size<R>) where F: Fn(T) -> R
        requires
            f.requires((self.width,)),
            f.requires((self.height,)),
        ensures
            f.ensures((self.width,), r.width),
            f.ensures((self.height,), r.height),
            forall|g: spec_fn(T) -> R|
                (forall|x: T, y: R| #[trigger] f.ensures((x,), y) ==> y == g(x)) ==> r
                    == #[trigger] self.spec_map(g),
    {
        Size { width: f(self.width), height: f(self.height) }
    }

    /// Writes the extent along the main axis: the width in a row, the
    /// height in a column. The other extent stays as it was.
    pub fn set_main(&mut self, direction: FlexDirection, value: T)
        ensures
            *final(self) == old(self).with_main(direction, value),
    {
        if direction.is_row() {
            self.width = value;
        } else {
            self.height = value;
        }
    }

    /// Writes the extent along the cross axis: the height in a row, the
    /// width in a column. The other extent stays as it was.
    pub fn set_cross(&mut self, direction: FlexDirection, value: T)
        ensures
            *final(self) == old(self).with_cross(direction, value),
    {
        if direction.is_row() {
            self.height = value;
        } else {
            self.width = value;
        }
    }

    /// The extent along the main axis: the width in a row, the height in a
    /// column.
    #[verifier::when_used_as_spec(spec_main)]
    pub fn main(self, direction: FlexDirection) -> (r: T)
        ensures
            r == self.spec_main(direction),
    {
        if direction.is_row() {
            self.width
        } else {
            self.height
        }
    }

    /// The extent along the cross axis: the height in a row, the width in a
    /// column.
    #[verifier::when_used_as_spec(spec_cross)]
    pub fn cross(self, direction: FlexDirection) -> (r: T)
        ensures
            r == self.spec_cross(direction),
    {
        if direction.is_row() {
            self.height
        } else {
            self.width
        }
    }
}

impl<T: Clone> Clone for Size<T> {
    fn clone(&self) -> (r: Self)
        ensures
            cloned(self.width, r.width),
            cloned(self.height, r.height),
    {
        Size { width: self.width.clone(), height: self.height.clone() }
    }
}

impl<T: Copy> Copy for Size<T> {}

impl<T: PartialEq> PartialEq for Size<T> {
    /// Two sizes are equal when their widths and their heights are.
    fn eq(&self, other: &Self) -> (r: bool) {
        self.width == other.width && self.height == other.height
    }
}

impl<T: PartialEq> vstd::std_specs::cmp::PartialEqSpecImpl for Size<T> {
    open spec fn obeys_eq_spec() -> bool {
        T::obeys_eq_spec()
    }

    open spec fn eq_spec(&self, other: &Self) -> bool {
        self.width.eq_spec(&other.width) && self.height.eq_spec(&other.height)
    }
}

/// Under a row direction, reversed or not, the main extent of a size is its
/// width and the cross extent its height; under a column direction,
/// reversed or not, the main extent is its height and the cross extent its
/// width.
pub proof fn lemma_size_axes<T>(size: Size<T>, direction: FlexDirection)
    ensures
        direction == FlexDirection::Row || direction == FlexDirection::RowReverse ==> {
            &&& size.main(direction) == size.width
            &&& size.cross(direction) == size.height
        },
        direction == FlexDirection::Column || direction == FlexDirection::ColumnReverse ==> {
            &&& size.main(direction) == size.height
            &&& size.cross(direction) == size.width
        },
{
}

/// Reading the main extent after writing it, under the same direction,
/// gives the value written, and the write leaves the cross extent alone:
/// the height under a row direction, the width under a column direction.
pub proof fn lemma_set_main_then_main<T>(size: Size<T>, direction: FlexDirection, value: T)
    ensures
        size.with_main(direction, value).main(direction) == value,
        size.with_main(direction, value).cross(direction) == size.cross(direction),
        direction.is_row() ==> size.with_main(direction, value).height == size.height,
        direction.is_column() ==> size.with_main(direction, value).width == size.width,
{
}

/// Reading the cross extent after writing it, under the same direction,
/// gives the value written, and the write leaves the main extent alone:
/// the width under a row direction, the height under a column direction.
pub proof fn lemma_set_cross_then_cross<T>(size: Size<T>, direction: FlexDirection, value: T)
    ensures
        size.with_cross(direction, value).cross(direction) == value,
        size.with_cross(direction, value).main(direction) == size.main(direction),
        direction.is_row() ==> size.with_cross(direction, value).width == size.width,
        direction.is_column() ==> size.with_cross(direction, value).height == size.height,
{
}

/// Mapping a size maps its width and its height, each by itself.
pub proof fn lemma_size_map_fieldwise<T, R>(size: Size<T>, g: spec_fn(T) -> R)
    ensures
        size.spec_map(g).width == g(size.width),
        size.spec_map(g).height == g(size.height),
{
}

/// The main and cross extents of a rectangle's size follow the same table
/// as those of any other size.
pub proof fn lemma_rect_size_axes<T>(size: RectSize<T>, direction: FlexDirection)
    ensures
        direction == FlexDirection::Row || direction == FlexDirection::RowReverse ==> {
            &&& size.main(direction) == size.width
            &&& size.cross(direction) == size.height
        },
        direction == FlexDirection::Column || direction == FlexDirection::ColumnReverse ==> {
            &&& size.main(direction) == size.height
            &&& size.cross(direction) == size.width
        },
{
}

/// The horizontal total is `left + right` and the vertical total is
/// `top + bottom`, and no direction enters into either. The main total is
/// the horizontal one under a row direction and the vertical one under a
/// column direction; the cross total is the other of the two.
pub proof fn lemma_offsets_totals<T: Add<Output = T> + Copy>(
    offsets: Offsets<T>,
    direction: FlexDirection,
)
    ensures
        offsets.spec_horizontal() == offsets.left.add_spec(offsets.right),
        offsets.spec_vertical() == offsets.top.add_spec(offsets.bottom),
        direction == FlexDirection::Row || direction == FlexDirection::RowReverse ==> {
            &&& offsets.spec_main(direction) == offsets.spec_horizontal()
            &&& offsets.spec_cross(direction) == offsets.spec_vertical()
        },
        direction == FlexDirection::Column || direction == FlexDirection::ColumnReverse ==> {
            &&& offsets.spec_main(direction) == offsets.spec_vertical()
            &&& offsets.spec_cross(direction) == offsets.spec_horizontal()
        },
{
}

/// Under a row direction, reversed or not, the main axis runs from the left
/// edge to the right edge and the cross axis from the top edge to the
/// bottom edge; under a column direction, reversed or not, the main axis
/// runs from top to bottom and the cross axis from left to right.
pub proof fn lemma_offsets_edges<T: Copy>(offsets: Offsets<T>, direction: FlexDirection)
    ensures
        direction == FlexDirection::Row || direction == FlexDirection::RowReverse ==> {
            &&& offsets.main_start(direction) == offsets.left
            &&& offsets.main_end(direction) == offsets.right
            &&& offsets.cross_start(direction) == offsets.top
            &&& offsets.cross_end(direction) == offsets.bottom
        },
        direction == FlexDirection::Column || direction == FlexDirection::ColumnReverse ==> {
            &&& offsets.main_start(direction) == offsets.top
            &&& offsets.main_end(direction) == offsets.bottom
            &&& offsets.cross_start(direction) == offsets.left
            &&& offsets.cross_end(direction) == offsets.right
        },
{
}

/// Mapping offsets maps each of the four edges by itself.
pub proof fn lemma_offsets_map_fieldwise<T, R>(offsets: Offsets<T>, g: spec_fn(T) -> R)
    ensures
        offsets.spec_map(g).top == g(offsets.top),
        offsets.spec_map(g).left == g(offsets.left),
        offsets.spec_map(g).bottom == g(offsets.bottom),
        offsets.spec_map(g).right == g(offsets.right),
{
}

/// An undefined rectangle has all four of its scalars undefined. There is
/// one such rectangle: any two are the same value, and `==` holds of them
/// whatever the equality of `T` is.
pub proof fn lemma_undefined_rect_unique<T: PartialEq>(a: Rect<T>, b: Rect<T>)
    requires
        a.is_undefined(),
        b.is_undefined(),
    ensures
        a.origin.x is Undefined,
        a.origin.y is Undefined,
        a.size.width is Undefined,
        a.size.height is Undefined,
        a == b,
        a.equals(&b),
        a.eq_spec(&b),
{
}

} // verus!
