use vstd::prelude::*;

verus! {

/// A fixed-arity tuple of components.
pub trait Tuple {
    /// The number of components, as a mathematical value.
    spec fn dimensions_spec() -> nat;

    /// The number of components.
    fn n_dimensions(&self) -> (n: usize)
        ensures
            n == Self::dimensions_spec(),
    ;
}

/// `v` fits in an `i32`.
pub open spec fn fits_i32(v: int) -> bool {
    i32::MIN <= v <= i32::MAX
}

/// A two-component tuple.
#[derive(Debug)]
pub struct Tuple2<T> {
    pub x: T,
    pub y: T,
}

impl<T> Tuple2<T> {
    pub fn new(x: T, y: T) -> (r: Self)
        ensures
            r.x == x,
            r.y == y,
    {
        Self { x, y }
    }
}

impl<T> Tuple for Tuple2<T> {
    open spec fn dimensions_spec() -> nat {
        2
    }

    fn n_dimensions(&self) -> (n: usize) {
        2
    }
}

impl Tuple2<i32> {
    /// The dot product `x·x' + y·y'`.
    pub fn dot(&self, other: &Self) -> (r: i32)
        requires
            fits_i32(self.x * other.x),
            fits_i32(self.y * other.y),
            fits_i32(self.x * other.x + self.y * other.y),
        ensures
            r == self.x * other.x + self.y * other.y,
    {
        self.x * other.x + self.y * other.y
    }
}

impl PartialEq for Tuple2<i32> {
    fn eq(&self, other: &Self) -> (r: bool) {
        self.x == other.x && self.y == other.y
    }
}

impl vstd::std_specs::cmp::PartialEqSpecImpl for Tuple2<i32> {
    open spec fn obeys_eq_spec() -> bool {
        true
    }

    open spec fn eq_spec(&self, other: &Self) -> bool {
        self.x == other.x && self.y == other.y
    }
}

impl std::ops::Add for Tuple2<i32> {
    type Output = Self;

    /// Component-wise sum.
    fn add(self, other: Self) -> (r: Self) {
        Tuple2 { x: self.x + other.x, y: self.y + other.y }
    }
}

impl vstd::std_specs::ops::AddSpecImpl for Tuple2<i32> {
    open spec fn obeys_add_spec() -> bool {
        true
    }

    open spec fn add_req(self, other: Self) -> bool {
        fits_i32(self.x + other.x) && fits_i32(self.y + other.y)
    }

    open spec fn add_spec(self, other: Self) -> Self {
        Tuple2 { x: (self.x + other.x) as i32, y: (self.y + other.y) as i32 }
    }
}

impl std::ops::Sub for Tuple2<i32> {
    type Output = Self;

    /// Component-wise difference.
    fn sub(self, other: Self) -> (r: Self) {
        Tuple2 { x: self.x - other.x, y: self.y - other.y }
    }
}

impl vstd::std_specs::ops::SubSpecImpl for Tuple2<i32> {
    open spec fn obeys_sub_spec() -> bool {
        true
    }

    open spec fn sub_req(self, other: Self) -> bool {
        fits_i32(self.x - other.x) && fits_i32(self.y - other.y)
    }

    open spec fn sub_spec(self, other: Self) -> Self {
        Tuple2 { x: (self.x - other.x) as i32, y: (self.y - other.y) as i32 }
    }
}

impl std::ops::Mul for Tuple2<i32> {
    type Output = Self;

    /// Component-wise product.
    fn mul(self, other: Self) -> (r: Self) {
        Tuple2 { x: self.x * other.x, y: self.y * other.y }
    }
}

impl vstd::std_specs::ops::MulSpecImpl for Tuple2<i32> {
    open spec fn obeys_mul_spec() -> bool {
        true
    }

    open spec fn mul_req(self, other: Self) -> bool {
        fits_i32(self.x * other.x) && fits_i32(self.y * other.y)
    }

    open spec fn mul_spec(self, other: Self) -> Self {
        Tuple2 { x: (self.x * other.x) as i32, y: (self.y * other.y) as i32 }
    }
}

/// A three-component tuple.
#[derive(Debug)]
pub struct Tuple3<T> {
    pub x: T,
    pub y: T,
    pub z: T,
}

impl<T> Tuple3<T> {
    pub fn new(x: T, y: T, z: T) -> (r: Self)
        ensures
            r.x == x,
            r.y == y,
            r.z == z,
    {
        Self { x, y, z }
    }
}

impl<T: Copy> Tuple3<T> {
    /// The component at position `i`: 0 for x, 1 for y, 2 for z.
    pub fn index(&self, i: usize) -> (r: T)
        requires
            i < 3,
        ensures
            i == 0 ==> r == self.x,
            i == 1 ==> r == self.y,
            i == 2 ==> r == self.z,
    {
        if i == 0 {
            self.x
        } else if i == 1 {
            self.y
        } else {
            self.z
        }
    }
}

impl<T> Tuple for Tuple3<T> {
    open spec fn dimensions_spec() -> nat {
        3
    }

    fn n_dimensions(&self) -> (n: usize) {
        3
    }
}

impl Tuple3<i32> {
    /// The products of the x and of the y components, plus both z
    /// components: `x·x' + y·y' + z + z'`.
    pub fn dot(&self, other: &Self) -> (r: i32)
        requires
            fits_i32(self.x * other.x),
            fits_i32(self.y * other.y),
            fits_i32(self.x * other.x + self.y * other.y),
            fits_i32(self.x * other.x + self.y * other.y + self.z),
            fits_i32(self.x * other.x + self.y * other.y + self.z + other.z),
        ensures
            r == self.x * other.x + self.y * other.y + self.z + other.z,
    {
        self.x * other.x + self.y * other.y + self.z + other.z
    }
}

impl PartialEq for Tuple3<i32> {
    fn eq(&self, other: &Self) -> (r: bool) {
        self.x == other.x && self.y == other.y && self.z == other.z
    }
}

impl vstd::std_specs::cmp::PartialEqSpecImpl for Tuple3<i32> {
    open spec fn obeys_eq_spec() -> bool {
        true
    }

    open spec fn eq_spec(&self, other: &Self) -> bool {
        self.x == other.x && self.y == other.y && self.z == other.z
    }
}

impl std::ops::Add for Tuple3<i32> {
    type Output = Self;

    /// Component-wise sum.
    fn add(self, other: Self) -> (r: Self) {
        Tuple3 { x: self.x + other.x, y: self.y + other.y, z: self.z + other.z }
    }
}

impl vstd::std_specs::ops::AddSpecImpl for Tuple3<i32> {
    open spec fn obeys_add_spec() -> bool {
        true
    }

    open spec fn add_req(self, other: Self) -> bool {
        fits_i32(self.x + other.x) && fits_i32(self.y + other.y) && fits_i32(self.z + other.z)
    }

    open spec fn add_spec(self, other: Self) -> Self {
        Tuple3 {
            x: (self.x + other.x) as i32,
            y: (self.y + other.y) as i32,
            z: (self.z + other.z) as i32,
        }
    }
}

impl std::ops::Sub for Tuple3<i32> {
    type Output = Self;

    /// Component-wise difference.
    fn sub(self, other: Self) -> (r: Self) {
        Tuple3 { x: self.x - other.x, y: self.y - other.y, z: self.z - other.z }
    }
}

impl vstd::std_specs::ops::SubSpecImpl for Tuple3<i32> {
    open spec fn obeys_sub_spec() -> bool {
        true
    }

    open spec fn sub_req(self, other: Self) -> bool {
        fits_i32(self.x - other.x) && fits_i32(self.y - other.y) && fits_i32(self.z - other.z)
    }

    open spec fn sub_spec(self, other: Self) -> Self {
        Tuple3 {
            x: (self.x - other.x) as i32,
            y: (self.y - other.y) as i32,
            z: (self.z - other.z) as i32,
        }
    }
}

impl std::ops::Mul for Tuple3<i32> {
    type Output = Self;

    /// Component-wise product.
    fn mul(self, other: Self) -> (r: Self) {
        Tuple3 { x: self.x * other.x, y: self.y * other.y, z: self.z * other.z }
    }
}

impl vstd::std_specs::ops::MulSpecImpl for Tuple3<i32> {
    open spec fn obeys_mul_spec() -> bool {
        true
    }

    open spec fn mul_req(self, other: Self) -> bool {
        fits_i32(self.x * other.x) && fits_i32(self.y * other.y) && fits_i32(self.z * other.z)
    }

    open spec fn mul_spec(self, other: Self) -> Self {
        Tuple3 {
            x: (self.x * other.x) as i32,
            y: (self.y * other.y) as i32,
            z: (self.z * other.z) as i32,
        }
    }
}

} // verus!
