//! A 3-component vector value type with a hidden fourth padding component.
//!
//! The components are IEEE-754 single-precision values kept as their 32-bit
//! words: the verifier has no theory of floating point, so this module
//! verifies the structural contract of the type — which word lands in which
//! slot, that the padding slot is written as zero, never observed by
//! equality, and cleared by a round trip through the strict three-component
//! form [`FitVec3`] — while floating-point arithmetic on the components is
//! left to unverified callers.

use vstd::prelude::*;

verus! {

/// Bit pattern of the scalar one (IEEE-754 single precision).
pub const ONE_BITS: u32 = 0x3F80_0000;

/// Represent a vector which holds 3 components.
///
/// The storage is 4 components wide, for alignment; the last word is
/// padding, written as zero by every constructor and never observable
/// through equality or the component accessor.
///
/// To get a vector which holds only its 3 real components, convert it into
/// [`FitVec3`].
#[derive(Clone, Copy, Debug)]
pub struct Vec3 {
    arr: [u32; 4],
}

impl Vec3 {
    /// The first component's word.
    pub closed spec fn x(self) -> u32 {
        self.arr[0]
    }

    /// The second component's word.
    pub closed spec fn y(self) -> u32 {
        self.arr[1]
    }

    /// The third component's word.
    pub closed spec fn z(self) -> u32 {
        self.arr[2]
    }

    /// The hidden padding word.
    pub closed spec fn pad(self) -> u32 {
        self.arr[3]
    }

    /// Create a new `Vec3` value; the padding word is zero.
    pub fn new(x: u32, y: u32, z: u32) -> (r: Self)
        ensures
            r.x() == x,
            r.y() == y,
            r.z() == z,
            r.pad() == 0,
    {
        Self { arr: [x, y, z, 0] }
    }

    /// Create a new `Vec3` value from an array of 3 component words.
    pub fn from_array(arr: [u32; 3]) -> (r: Self)
        ensures
            r.x() == arr[0],
            r.y() == arr[1],
            r.z() == arr[2],
            r.pad() == 0,
    {
        Self { arr: [arr[0], arr[1], arr[2], 0] }
    }

    /// Create the x unit vector `(1, 0, 0)`.
    pub fn unit_x() -> (r: Self)
        ensures
            r.x() == ONE_BITS,
            r.y() == 0,
            r.z() == 0,
            r.pad() == 0,
    {
        Self::new(ONE_BITS, 0, 0)
    }

    /// Create the y unit vector `(0, 1, 0)`.
    pub fn unit_y() -> (r: Self)
        ensures
            r.x() == 0,
            r.y() == ONE_BITS,
            r.z() == 0,
            r.pad() == 0,
    {
        Self::new(0, ONE_BITS, 0)
    }

    /// Create the z unit vector `(0, 0, 1)`.
    pub fn unit_z() -> (r: Self)
        ensures
            r.x() == 0,
            r.y() == 0,
            r.z() == ONE_BITS,
            r.pad() == 0,
    {
        Self::new(0, 0, ONE_BITS)
    }

    /// The component word at position 0, 1 or 2; any other position is an
    /// out-of-range access and is ruled out by the precondition.
    pub fn component(&self, index: usize) -> (r: u32)
        requires
            index < 3,
        ensures
            r == if index == 0 {
                self.x()
            } else if index == 1 {
                self.y()
            } else {
                self.z()
            },
    {
        self.arr[index]
    }
}

impl Default for Vec3 {
    /// Create the zero vector.
    fn default() -> (r: Self)
        ensures
            r.x() == 0,
            r.y() == 0,
            r.z() == 0,
            r.pad() == 0,
    {
        Self::new(0, 0, 0)
    }
}

/// A word encodes an IEEE-754 single-precision NaN: its exponent bits are
/// all ones and its mantissa is nonzero.
pub open spec fn word_is_nan(w: u32) -> bool {
    (w / 0x80_0000) % 0x100 == 0xFF && w % 0x80_0000 != 0
}

/// IEEE-754 `==` of the values two component words encode: false when
/// either is a NaN; otherwise true when the words are equal or both encode
/// a zero (`+0.0 == -0.0`, the two words that differ only in their sign
/// bit over a zero magnitude).
pub open spec fn words_ieee_eq(a: u32, b: u32) -> bool {
    &&& !word_is_nan(a)
    &&& !word_is_nan(b)
    &&& (a == b || (a % 0x8000_0000 == 0 && b % 0x8000_0000 == 0))
}

/// IEEE-754 `==` of two component words, decided on the words alone.
fn word_eq(a: u32, b: u32) -> (r: bool)
    ensures
        r == words_ieee_eq(a, b),
{
    let a_nan = (a / 0x80_0000) % 0x100 == 0xFF && a % 0x80_0000 != 0;
    let b_nan = (b / 0x80_0000) % 0x100 == 0xFF && b % 0x80_0000 != 0;
    !a_nan && !b_nan && (a == b || (a % 0x8000_0000 == 0 && b % 0x8000_0000 == 0))
}

impl PartialEq for Vec3 {
    /// Two vectors are equal when their 3 real components compare equal
    /// under IEEE-754 `==` (a NaN component compares unequal even to
    /// itself, and `+0.0` equals `-0.0`); the padding word takes no part.
    fn eq(&self, other: &Self) -> (r: bool) {
        word_eq(self.arr[0], other.arr[0]) && word_eq(self.arr[1], other.arr[1]) && word_eq(
            self.arr[2],
            other.arr[2],
        )
    }
}

impl vstd::std_specs::cmp::PartialEqSpecImpl for Vec3 {
    open spec fn obeys_eq_spec() -> bool {
        true
    }

    open spec fn eq_spec(&self, other: &Self) -> bool {
        &&& words_ieee_eq(self.x(), other.x())
        &&& words_ieee_eq(self.y(), other.y())
        &&& words_ieee_eq(self.z(), other.z())
    }
}

/// What converting a `FitVec3` into a `Vec3` yields: the same 3 components
/// over a zero padding word.
pub closed spec fn vec3_of_fit(vec: FitVec3) -> Vec3 {
    Vec3 { arr: [vec.spec_x(), vec.spec_y(), vec.spec_z(), 0] }
}

/// What converting a `Vec3` into a `FitVec3` yields: the 3 real components,
/// the padding word dropped.
pub closed spec fn fit_of_vec3(vec: Vec3) -> FitVec3 {
    FitVec3 { arr: [vec.x(), vec.y(), vec.z()] }
}

impl From<FitVec3> for Vec3 {
    fn from(vec: FitVec3) -> (r: Self)
        ensures
            r == vec3_of_fit(vec),
            r.x() == vec.spec_x(),
            r.y() == vec.spec_y(),
            r.z() == vec.spec_z(),
            r.pad() == 0,
    {
        let r = Self::from_array(vec.arr);
        proof {
            assert(r.arr =~= vec3_of_fit(vec).arr);
        }
        r
    }
}

impl vstd::std_specs::convert::FromSpecImpl<FitVec3> for Vec3 {
    open spec fn obeys_from_spec() -> bool {
        true
    }

    open spec fn from_spec(vec: FitVec3) -> Vec3 {
        vec3_of_fit(vec)
    }
}

/// Represent a vector type which holds only 3 components, unlike `Vec3`.
#[derive(Clone, Copy, Debug)]
pub struct FitVec3 {
    arr: [u32; 3],
}

impl FitVec3 {
    /// The first component's word.
    pub closed spec fn spec_x(self) -> u32 {
        self.arr[0]
    }

    /// The second component's word.
    pub closed spec fn spec_y(self) -> u32 {
        self.arr[1]
    }

    /// The third component's word.
    pub closed spec fn spec_z(self) -> u32 {
        self.arr[2]
    }
}

impl From<Vec3> for FitVec3 {
    fn from(vec: Vec3) -> (r: Self)
        ensures
            r == fit_of_vec3(vec),
            r.spec_x() == vec.x(),
            r.spec_y() == vec.y(),
            r.spec_z() == vec.z(),
    {
        Self { arr: [vec.arr[0], vec.arr[1], vec.arr[2]] }
    }
}

impl vstd::std_specs::convert::FromSpecImpl<Vec3> for FitVec3 {
    open spec fn obeys_from_spec() -> bool {
        true
    }

    open spec fn from_spec(vec: Vec3) -> FitVec3 {
        fit_of_vec3(vec)
    }
}

/// Converting a vector to its strict three-component form and back keeps
/// the three real components exactly and leaves the padding word zero,
/// whatever padding word the vector carried before.
pub proof fn lemma_fit_round_trip(vec: Vec3)
    ensures
        vec3_of_fit(fit_of_vec3(vec)).x() == vec.x(),
        vec3_of_fit(fit_of_vec3(vec)).y() == vec.y(),
        vec3_of_fit(fit_of_vec3(vec)).z() == vec.z(),
        vec3_of_fit(fit_of_vec3(vec)).pad() == 0,
{
}

} // verus!
