use std::ops::{Add, Div, Mul, Sub};
use vstd::prelude::*;
use vstd::std_specs::ops::{
    AddSpec, AddSpecImpl, DivSpec, DivSpecImpl, MulSpec, MulSpecImpl, SubSpec, SubSpecImpl,
};

verus! {

/// An ordered, fixed-length sequence of coordinates of one scalar type.
///
/// Every arithmetic operation returns a new point; none changes its operands. The operators
/// work in `T`'s own arithmetic: where `T`'s operator follows vstd's specification of it (as the
/// integer types' do), each result is stated exactly; its length is stated for every `T`.
/// Operators between two points ask for points of one dimension.
#[derive(Debug, Clone)]
pub struct Point<T> {
    p: Vec<T>,
}

impl<T> View for Point<T> {
    type V = Seq<T>;

    closed spec fn view(&self) -> Seq<T> {
        self.p@
    }
}

impl<T: Copy> Point<T> {
    /// Wraps the given coordinates as they are, whatever their number.
    pub fn new(p: Vec<T>) -> (r: Self)
        ensures
            r@ == p@,
    {
        Point { p }
    }

    /// The number of coordinates.
    pub fn dim(&self) -> (r: usize)
        ensures
            r == self@.len(),
    {
        self.p.len()
    }

    /// The coordinates, in order.
    pub fn coordinates(&self) -> (r: &[T])
        ensures
            r@ == self@,
    {
        self.p.as_slice()
    }

    /// Hands a read-only view of the coordinates to `f` and returns what it returns.
    pub fn apply<R, F: Fn(&[T]) -> R>(&self, f: F) -> (r: R)
        requires
            forall|c: &[T]| c@ == self@ ==> #[trigger] f.requires((c,)),
        ensures
            exists|c: &[T]| c@ == self@ && #[trigger] f.ensures((c,), r),
    {
        let c = self.p.as_slice();
        f(c)
    }
}

/// `a` with `s` added to each coordinate, in `T`'s own arithmetic.
pub open spec fn add_scalar_seq<T: Add<Output = T>>(a: Seq<T>, s: T) -> Seq<T> {
    Seq::new(a.len(), |i: int| a[i].add_spec(s))
}

/// `T`'s `+` is defined on each coordinate of `a` with `s`.
pub open spec fn add_scalar_ok<T: Add<Output = T>>(a: Seq<T>, s: T) -> bool {
    forall|i: int| 0 <= i < a.len() ==> #[trigger] a[i].add_req(s)
}

/// The sums of the coordinates of `a` and `b` at each index of `a`.
pub open spec fn add_each_seq<T: Add<Output = T>>(a: Seq<T>, b: Seq<T>) -> Seq<T> {
    Seq::new(a.len(), |i: int| a[i].add_spec(b[i]))
}

/// `a` and `b` have one dimension, and `T`'s `+` is defined on each pair of coordinates.
pub open spec fn add_each_ok<T: Add<Output = T>>(a: Seq<T>, b: Seq<T>) -> bool {
    &&& a.len() == b.len()
    &&& forall|i: int| 0 <= i < a.len() ==> #[trigger] a[i].add_req(b[i])
}

/// `a` with `s` subtracted from each coordinate, in `T`'s own arithmetic.
pub open spec fn sub_scalar_seq<T: Sub<Output = T>>(a: Seq<T>, s: T) -> Seq<T> {
    Seq::new(a.len(), |i: int| a[i].sub_spec(s))
}

/// `T`'s `-` is defined on each coordinate of `a` with `s`.
pub open spec fn sub_scalar_ok<T: Sub<Output = T>>(a: Seq<T>, s: T) -> bool {
    forall|i: int| 0 <= i < a.len() ==> #[trigger] a[i].sub_req(s)
}

/// The differences of the coordinates of `a` and `b` at each index of `a`.
pub open spec fn sub_each_seq<T: Sub<Output = T>>(a: Seq<T>, b: Seq<T>) -> Seq<T> {
    Seq::new(a.len(), |i: int| a[i].sub_spec(b[i]))
}

/// `a` and `b` have one dimension, and `T`'s `-` is defined on each pair of coordinates.
pub open spec fn sub_each_ok<T: Sub<Output = T>>(a: Seq<T>, b: Seq<T>) -> bool {
    &&& a.len() == b.len()
    &&& forall|i: int| 0 <= i < a.len() ==> #[trigger] a[i].sub_req(b[i])
}

/// `a` with each coordinate multiplied by `s`, in `T`'s own arithmetic.
pub open spec fn mul_scalar_seq<T: Mul<Output = T>>(a: Seq<T>, s: T) -> Seq<T> {
    Seq::new(a.len(), |i: int| a[i].mul_spec(s))
}

/// `T`'s `*` is defined on each coordinate of `a` with `s`.
pub open spec fn mul_scalar_ok<T: Mul<Output = T>>(a: Seq<T>, s: T) -> bool {
    forall|i: int| 0 <= i < a.len() ==> #[trigger] a[i].mul_req(s)
}

/// The products of the coordinates of `a` and `b` at each index of `a`.
pub open spec fn mul_each_seq<T: Mul<Output = T>>(a: Seq<T>, b: Seq<T>) -> Seq<T> {
    Seq::new(a.len(), |i: int| a[i].mul_spec(b[i]))
}

/// `a` and `b` have one dimension, and `T`'s `*` is defined on each pair of coordinates.
pub open spec fn mul_each_ok<T: Mul<Output = T>>(a: Seq<T>, b: Seq<T>) -> bool {
    &&& a.len() == b.len()
    &&& forall|i: int| 0 <= i < a.len() ==> #[trigger] a[i].mul_req(b[i])
}

/// `a` with each coordinate divided by `s`, in `T`'s own arithmetic.
pub open spec fn div_scalar_seq<T: Div<Output = T>>(a: Seq<T>, s: T) -> Seq<T> {
    Seq::new(a.len(), |i: int| a[i].div_spec(s))
}

/// `T`'s `/` is defined on each coordinate of `a` with `s`.
pub open spec fn div_scalar_ok<T: Div<Output = T>>(a: Seq<T>, s: T) -> bool {
    forall|i: int| 0 <= i < a.len() ==> #[trigger] a[i].div_req(s)
}

impl<T: Add<Output = T> + Copy> Point<T> {
    /// Adds `s` to each coordinate.
    fn add_scalar(&self, s: T) -> (r: Point<T>)
        requires
            add_scalar_ok(self@, s),
        ensures
            r@.len() == self@.len(),
            T::obeys_add_spec() ==> r@ == add_scalar_seq(self@, s),
    {
        let mut p: Vec<T> = Vec::new();
        let mut i: usize = 0;
        while i < self.p.len()
            invariant
                i <= self@.len(),
                add_scalar_ok(self@, s),
                p@.len() == i,
                T::obeys_add_spec() ==> forall|j: int|
                    0 <= j < i ==> p@[j] == #[trigger] self@[j].add_spec(s),
            decreases self@.len() - i,
        {
            p.push(self.p[i] + s);
            i = i + 1;
        }
        proof {
            if T::obeys_add_spec() {
                assert(p@ =~= add_scalar_seq(self@, s));
            }
        }
        Point { p }
    }

    /// Adds to each coordinate the coordinate of `o` at the same index.
    fn add_each(&self, o: &Point<T>) -> (r: Point<T>)
        requires
            add_each_ok(self@, o@),
        ensures
            r@.len() == self@.len(),
            T::obeys_add_spec() ==> r@ == add_each_seq(self@, o@),
    {
        let mut p: Vec<T> = Vec::new();
        let mut i: usize = 0;
        while i < self.p.len()
            invariant
                i <= self@.len(),
                add_each_ok(self@, o@),
                p@.len() == i,
                T::obeys_add_spec() ==> forall|j: int|
                    0 <= j < i ==> p@[j] == #[trigger] self@[j].add_spec(o@[j]),
            decreases self@.len() - i,
        {
            p.push(self.p[i] + o.p[i]);
            i = i + 1;
        }
        proof {
            if T::obeys_add_spec() {
                assert(p@ =~= add_each_seq(self@, o@));
            }
        }
        Point { p }
    }
}

impl<T: Sub<Output = T> + Copy> Point<T> {
    /// Subtracts `s` from each coordinate.
    fn sub_scalar(&self, s: T) -> (r: Point<T>)
        requires
            sub_scalar_ok(self@, s),
        ensures
            r@.len() == self@.len(),
            T::obeys_sub_spec() ==> r@ == sub_scalar_seq(self@, s),
    {
        let mut p: Vec<T> = Vec::new();
        let mut i: usize = 0;
        while i < self.p.len()
            invariant
                i <= self@.len(),
                sub_scalar_ok(self@, s),
                p@.len() == i,
                T::obeys_sub_spec() ==> forall|j: int|
                    0 <= j < i ==> p@[j] == #[trigger] self@[j].sub_spec(s),
            decreases self@.len() - i,
        {
            p.push(self.p[i] - s);
            i = i + 1;
        }
        proof {
            if T::obeys_sub_spec() {
                assert(p@ =~= sub_scalar_seq(self@, s));
            }
        }
        Point { p }
    }

    /// Subtracts from each coordinate the coordinate of `o` at the same index.
    fn sub_each(&self, o: &Point<T>) -> (r: Point<T>)
        requires
            sub_each_ok(self@, o@),
        ensures
            r@.len() == self@.len(),
            T::obeys_sub_spec() ==> r@ == sub_each_seq(self@, o@),
    {
        let mut p: Vec<T> = Vec::new();
        let mut i: usize = 0;
        while i < self.p.len()
            invariant
                i <= self@.len(),
                sub_each_ok(self@, o@),
                p@.len() == i,
                T::obeys_sub_spec() ==> forall|j: int|
                    0 <= j < i ==> p@[j] == #[trigger] self@[j].sub_spec(o@[j]),
            decreases self@.len() - i,
        {
            p.push(self.p[i] - o.p[i]);
            i = i + 1;
        }
        proof {
            if T::obeys_sub_spec() {
                assert(p@ =~= sub_each_seq(self@, o@));
            }
        }
        Point { p }
    }
}

impl<T: Mul<Output = T> + Copy> Point<T> {
    /// Multiplies each coordinate by `s`.
    fn mul_scalar(&self, s: T) -> (r: Point<T>)
        requires
            mul_scalar_ok(self@, s),
        ensures
            r@.len() == self@.len(),
            T::obeys_mul_spec() ==> r@ == mul_scalar_seq(self@, s),
    {
        let mut p: Vec<T> = Vec::new();
        let mut i: usize = 0;
        while i < self.p.len()
            invariant
                i <= self@.len(),
                mul_scalar_ok(self@, s),
                p@.len() == i,
                T::obeys_mul_spec() ==> forall|j: int|
                    0 <= j < i ==> p@[j] == #[trigger] self@[j].mul_spec(s),
            decreases self@.len() - i,
        {
            p.push(self.p[i] * s);
            i = i + 1;
        }
        proof {
            if T::obeys_mul_spec() {
                assert(p@ =~= mul_scalar_seq(self@, s));
            }
        }
        Point { p }
    }

    /// Multiplies each coordinate by the coordinate of `o` at the same index.
    fn mul_each(&self, o: &Point<T>) -> (r: Point<T>)
        requires
            mul_each_ok(self@, o@),
        ensures
            r@.len() == self@.len(),
            T::obeys_mul_spec() ==> r@ == mul_each_seq(self@, o@),
    {
        let mut p: Vec<T> = Vec::new();
        let mut i: usize = 0;
        while i < self.p.len()
            invariant
                i <= self@.len(),
                mul_each_ok(self@, o@),
                p@.len() == i,
                T::obeys_mul_spec() ==> forall|j: int|
                    0 <= j < i ==> p@[j] == #[trigger] self@[j].mul_spec(o@[j]),
            decreases self@.len() - i,
        {
            p.push(self.p[i] * o.p[i]);
            i = i + 1;
        }
        proof {
            if T::obeys_mul_spec() {
                assert(p@ =~= mul_each_seq(self@, o@));
            }
        }
        Point { p }
    }
}

impl<T: Div<Output = T> + Copy> Point<T> {
    /// Divides each coordinate by `s`.
    fn div_scalar(&self, s: T) -> (r: Point<T>)
        requires
            div_scalar_ok(self@, s),
        ensures
            r@.len() == self@.len(),
            T::obeys_div_spec() ==> r@ == div_scalar_seq(self@, s),
    {
        let mut p: Vec<T> = Vec::new();
        let mut i: usize = 0;
        while i < self.p.len()
            invariant
                i <= self@.len(),
                div_scalar_ok(self@, s),
                p@.len() == i,
                T::obeys_div_spec() ==> forall|j: int|
                    0 <= j < i ==> p@[j] == #[trigger] self@[j].div_spec(s),
            decreases self@.len() - i,
        {
            p.push(self.p[i] / s);
            i = i + 1;
        }
        proof {
            if T::obeys_div_spec() {
                assert(p@ =~= div_scalar_seq(self@, s));
            }
        }
        Point { p }
    }
}

impl<'a, T: Add<Output = T> + Copy> AddSpecImpl<&'a Point<T>> for &'a Point<T> {
    /// Not a function of the operands in spec code: `add` states its result.
    open spec fn obeys_add_spec() -> bool {
        false
    }

    open spec fn add_req(self, o: &'a Point<T>) -> bool {
        add_each_ok(self@, o@)
    }

    open spec fn add_spec(self, o: &'a Point<T>) -> Point<T> {
        arbitrary()
    }
}

impl<'a, T: Add<Output = T> + Copy> Add<&'a Point<T>> for &'a Point<T> {
    type Output = Point<T>;

    fn add(self, o: &'a Point<T>) -> (r: Point<T>)
        ensures
            r@.len() == self@.len(),
            T::obeys_add_spec() ==> r@ == add_each_seq(self@, o@),
    {
        self.add_each(o)
    }
}

impl<'a, T: Add<Output = T> + Copy> AddSpecImpl<T> for &'a Point<T> {
    /// Not a function of the operands in spec code: `add` states its result.
    open spec fn obeys_add_spec() -> bool {
        false
    }

    open spec fn add_req(self, s: T) -> bool {
        add_scalar_ok(self@, s)
    }

    open spec fn add_spec(self, s: T) -> Point<T> {
        arbitrary()
    }
}

impl<'a, T: Add<Output = T> + Copy> Add<T> for &'a Point<T> {
    type Output = Point<T>;

    fn add(self, s: T) -> (r: Point<T>)
        ensures
            r@.len() == self@.len(),
            T::obeys_add_spec() ==> r@ == add_scalar_seq(self@, s),
    {
        self.add_scalar(s)
    }
}

impl<T: Add<Output = T> + Copy> AddSpecImpl<T> for Point<T> {
    /// Not a function of the operands in spec code: `add` states its result.
    open spec fn obeys_add_spec() -> bool {
        false
    }

    open spec fn add_req(self, s: T) -> bool {
        add_scalar_ok(self@, s)
    }

    open spec fn add_spec(self, s: T) -> Point<T> {
        arbitrary()
    }
}

impl<T: Add<Output = T> + Copy> Add<T> for Point<T> {
    type Output = Point<T>;

    fn add(self, s: T) -> (r: Point<T>)
        ensures
            r@.len() == self@.len(),
            T::obeys_add_spec() ==> r@ == add_scalar_seq(self@, s),
    {
        (&self).add_scalar(s)
    }
}

impl<'a, T: Sub<Output = T> + Copy> SubSpecImpl<&'a Point<T>> for &'a Point<T> {
    /// Not a function of the operands in spec code: `sub` states its result.
    open spec fn obeys_sub_spec() -> bool {
        false
    }

    open spec fn sub_req(self, o: &'a Point<T>) -> bool {
        sub_each_ok(self@, o@)
    }

    open spec fn sub_spec(self, o: &'a Point<T>) -> Point<T> {
        arbitrary()
    }
}

impl<'a, T: Sub<Output = T> + Copy> Sub<&'a Point<T>> for &'a Point<T> {
    type Output = Point<T>;

    fn sub(self, o: &'a Point<T>) -> (r: Point<T>)
        ensures
            r@.len() == self@.len(),
            T::obeys_sub_spec() ==> r@ == sub_each_seq(self@, o@),
    {
        self.sub_each(o)
    }
}

impl<'a, T: Sub<Output = T> + Copy> SubSpecImpl<T> for &'a Point<T> {
    /// Not a function of the operands in spec code: `sub` states its result.
    open spec fn obeys_sub_spec() -> bool {
        false
    }

    open spec fn sub_req(self, s: T) -> bool {
        sub_scalar_ok(self@, s)
    }

    open spec fn sub_spec(self, s: T) -> Point<T> {
        arbitrary()
    }
}

impl<'a, T: Sub<Output = T> + Copy> Sub<T> for &'a Point<T> {
    type Output = Point<T>;

    fn sub(self, s: T) -> (r: Point<T>)
        ensures
            r@.len() == self@.len(),
            T::obeys_sub_spec() ==> r@ == sub_scalar_seq(self@, s),
    {
        self.sub_scalar(s)
    }
}

impl<T: Sub<Output = T> + Copy> SubSpecImpl<T> for Point<T> {
    /// Not a function of the operands in spec code: `sub` states its result.
    open spec fn obeys_sub_spec() -> bool {
        false
    }

    open spec fn sub_req(self, s: T) -> bool {
        sub_scalar_ok(self@, s)
    }

    open spec fn sub_spec(self, s: T) -> Point<T> {
        arbitrary()
    }
}

impl<T: Sub<Output = T> + Copy> Sub<T> for Point<T> {
    type Output = Point<T>;

    fn sub(self, s: T) -> (r: Point<T>)
        ensures
            r@.len() == self@.len(),
            T::obeys_sub_spec() ==> r@ == sub_scalar_seq(self@, s),
    {
        (&self).sub_scalar(s)
    }
}

impl<'a, T: Mul<Output = T> + Copy> MulSpecImpl<&'a Point<T>> for &'a Point<T> {
    /// Not a function of the operands in spec code: `mul` states its result.
    open spec fn obeys_mul_spec() -> bool {
        false
    }

    open spec fn mul_req(self, o: &'a Point<T>) -> bool {
        mul_each_ok(self@, o@)
    }

    open spec fn mul_spec(self, o: &'a Point<T>) -> Point<T> {
        arbitrary()
    }
}

impl<'a, T: Mul<Output = T> + Copy> Mul<&'a Point<T>> for &'a Point<T> {
    type Output = Point<T>;

    fn mul(self, o: &'a Point<T>) -> (r: Point<T>)
        ensures
            r@.len() == self@.len(),
            T::obeys_mul_spec() ==> r@ == mul_each_seq(self@, o@),
    {
        self.mul_each(o)
    }
}

impl<'a, T: Mul<Output = T> + Copy> MulSpecImpl<T> for &'a Point<T> {
    /// Not a function of the operands in spec code: `mul` states its result.
    open spec fn obeys_mul_spec() -> bool {
        false
    }

    open spec fn mul_req(self, s: T) -> bool {
        mul_scalar_ok(self@, s)
    }

    open spec fn mul_spec(self, s: T) -> Point<T> {
        arbitrary()
    }
}

impl<'a, T: Mul<Output = T> + Copy> Mul<T> for &'a Point<T> {
    type Output = Point<T>;

    fn mul(self, s: T) -> (r: Point<T>)
        ensures
            r@.len() == self@.len(),
            T::obeys_mul_spec() ==> r@ == mul_scalar_seq(self@, s),
    {
        self.mul_scalar(s)
    }
}

impl<T: Mul<Output = T> + Copy> MulSpecImpl<T> for Point<T> {
    /// Not a function of the operands in spec code: `mul` states its result.
    open spec fn obeys_mul_spec() -> bool {
        false
    }

    open spec fn mul_req(self, s: T) -> bool {
        mul_scalar_ok(self@, s)
    }

    open spec fn mul_spec(self, s: T) -> Point<T> {
        arbitrary()
    }
}

impl<T: Mul<Output = T> + Copy> Mul<T> for Point<T> {
    type Output = Point<T>;

    fn mul(self, s: T) -> (r: Point<T>)
        ensures
            r@.len() == self@.len(),
            T::obeys_mul_spec() ==> r@ == mul_scalar_seq(self@, s),
    {
        (&self).mul_scalar(s)
    }
}

impl<'a, T: Div<Output = T> + Copy> DivSpecImpl<T> for &'a Point<T> {
    /// Not a function of the operands in spec code: `div` states its result.
    open spec fn obeys_div_spec() -> bool {
        false
    }

    open spec fn div_req(self, s: T) -> bool {
        div_scalar_ok(self@, s)
    }

    open spec fn div_spec(self, s: T) -> Point<T> {
        arbitrary()
    }
}

impl<'a, T: Div<Output = T> + Copy> Div<T> for &'a Point<T> {
    type Output = Point<T>;

    fn div(self, s: T) -> (r: Point<T>)
        ensures
            r@.len() == self@.len(),
            T::obeys_div_spec() ==> r@ == div_scalar_seq(self@, s),
    {
        self.div_scalar(s)
    }
}

impl<T: Div<Output = T> + Copy> DivSpecImpl<T> for Point<T> {
    /// Not a function of the operands in spec code: `div` states its result.
    open spec fn obeys_div_spec() -> bool {
        false
    }

    open spec fn div_req(self, s: T) -> bool {
        div_scalar_ok(self@, s)
    }

    open spec fn div_spec(self, s: T) -> Point<T> {
        arbitrary()
    }
}

impl<T: Div<Output = T> + Copy> Div<T> for Point<T> {
    type Output = Point<T>;

    fn div(self, s: T) -> (r: Point<T>)
        ensures
            r@.len() == self@.len(),
            T::obeys_div_spec() ==> r@ == div_scalar_seq(self@, s),
    {
        (&self).div_scalar(s)
    }
}

/// Scaling the coordinates of a point of `i32` by a nonzero `s` and dividing the result by `s`
/// gives the point back, where no product overflows.
pub proof fn lemma_scale_round_trip_i32(a: Seq<i32>, s: i32)
    requires
        s != 0,
        mul_scalar_ok(a, s),
    ensures
        div_scalar_ok(mul_scalar_seq(a, s), s),
        div_scalar_seq(mul_scalar_seq(a, s), s) == a,
{
    let m = mul_scalar_seq(a, s);
    assert forall|i: int| 0 <= i < a.len() implies DivSpec::div_req(m[i], s)
        && #[trigger] div_scalar_seq(m, s)[i] == a[i] by {
        let x = a[i] as int;
        assert(MulSpec::mul_req(a[i], s));
        assert(m[i] == x * s);
        if x * s >= 0 {
            assert((x * s) / (s as int) == x) by (nonlinear_arith)
                requires
                    s != 0,
            ;
        } else {
            assert((-(x * s)) / (s as int) == -x) by (nonlinear_arith)
                requires
                    s != 0,
            ;
        }
    }
    assert(div_scalar_seq(m, s) =~= a);
}

/// Scaling the coordinates of a point of `u64` by a nonzero `s` and dividing the result by `s`
/// gives the point back, where no product overflows.
pub proof fn lemma_scale_round_trip_u64(a: Seq<u64>, s: u64)
    requires
        s != 0,
        mul_scalar_ok(a, s),
    ensures
        div_scalar_ok(mul_scalar_seq(a, s), s),
        div_scalar_seq(mul_scalar_seq(a, s), s) == a,
{
    let m = mul_scalar_seq(a, s);
    assert forall|i: int| 0 <= i < a.len() implies DivSpec::div_req(m[i], s)
        && #[trigger] div_scalar_seq(m, s)[i] == a[i] by {
        let x = a[i] as int;
        assert(MulSpec::mul_req(a[i], s));
        assert(m[i] == x * s);
        assert((x * s) / (s as int) == x) by (nonlinear_arith)
            requires
                s != 0,
        ;
    }
    assert(div_scalar_seq(m, s) =~= a);
}

} // verus!
