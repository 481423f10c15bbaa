//! 4×4 matrices in row-major storage.
//!
//! Building and transposing a matrix only places entries, so those
//! operations are stated exactly. A product rounds, so it is stated against
//! the [`Arithmetic`] that did the rounding: which entries are multiplied,
//! and in which order the terms are summed, is fixed here.

use vstd::prelude::*;
use crate::arithmetic::Arithmetic;
use crate::scalar::Single;

verus! {

/// A 4×4 matrix; entry (row `i`, column `j`) is `data[i * 4 + j]`.
#[derive(Clone, Copy, Debug, PartialEq, Eq)]
pub struct Matrix4 {
    pub data: [Single; 16],
}

impl Matrix4 {
    /// The entry in row `i`, column `j`.
    pub open spec fn entry(self, i: int, j: int) -> Single
        recommends
            0 <= i < 4,
            0 <= j < 4,
    {
        self.data[i * 4 + j]
    }

    /// The identity matrix.
    pub open spec fn spec_identity() -> Matrix4 {
        let o = Single::zero();
        let l = Single::one();
        Matrix4 { data: [l, o, o, o, o, l, o, o, o, o, l, o, o, o, o, l] }
    }

    /// The rotation in the plane whose angle has cosine `cos` and sine `sin`.
    pub open spec fn spec_rotation(cos: Single, sin: Single) -> Matrix4 {
        let o = Single::zero();
        let l = Single::one();
        Matrix4 { data: [cos, sin.neg(), o, o, sin, cos, o, o, o, o, l, o, o, o, o, l] }
    }

    /// The translation by `(x, y, z)`.
    pub open spec fn spec_translation(x: Single, y: Single, z: Single) -> Matrix4 {
        let o = Single::zero();
        let l = Single::one();
        Matrix4 { data: [l, o, o, x, o, l, o, y, o, o, l, z, o, o, o, l] }
    }

    /// The matrix with rows and columns exchanged.
    pub open spec fn spec_transposed(&self) -> Matrix4 {
        let d = self.data;
        Matrix4 {
            data: [
                d[0], d[4], d[8], d[12],
                d[1], d[5], d[9], d[13],
                d[2], d[6], d[10], d[14],
                d[3], d[7], d[11], d[15],
            ],
        }
    }

    /// Where entry (`i`, `j`) is stored.
    pub fn get_index(i: usize, j: usize) -> (index: usize)
        requires
            i * 4 + j <= usize::MAX,
        ensures
            index == i * 4 + j,
    {
        i * 4 + j
    }

    /// The entry stored at `get_index(i, j)`.
    pub fn get_value(&self, i: usize, j: usize) -> (value: Single)
        requires
            i * 4 + j < 16,
        ensures
            value == self.data[i * 4 + j],
            i < 4 && j < 4 ==> value == self.entry(i as int, j as int),
    {
        self.data[Matrix4::get_index(i, j)]
    }

    #[verifier::when_used_as_spec(spec_identity)]
    pub fn identity() -> (m: Matrix4)
        ensures
            m == Matrix4::spec_identity(),
    {
        let o = Single::zero();
        let l = Single::one();
        Matrix4 { data: [l, o, o, o, o, l, o, o, o, o, l, o, o, o, o, l] }
    }

    /// The rotation matrix for an angle whose cosine and sine are given.
    pub fn rotation_from(cos: Single, sin: Single) -> (m: Matrix4)
        ensures
            m == Matrix4::spec_rotation(cos, sin),
    {
        let o = Single::zero();
        let l = Single::one();
        Matrix4 { data: [cos, sin.neg(), o, o, sin, cos, o, o, o, o, l, o, o, o, o, l] }
    }

    /// The rotation by `angle`, with cosine and sine taken from `arithmetic`.
    pub fn rotation<
        A: Fn(Single, Single) -> Single,
        M: Fn(Single, Single) -> Single,
        C: Fn(Single) -> Single,
        S: Fn(Single) -> Single,
    >(angle: Single, arithmetic: &Arithmetic<A, M, C, S>) -> (m: Matrix4)
        ensures
            arithmetic.is_rotation(angle, m),
    {
        let cos = arithmetic.cos(angle);
        let sin = arithmetic.sin(angle);
        Matrix4::rotation_from(cos, sin)
    }

    #[verifier::when_used_as_spec(spec_translation)]
    pub fn translation(x: Single, y: Single, z: Single) -> (m: Matrix4)
        ensures
            m == Matrix4::spec_translation(x, y, z),
    {
        let o = Single::zero();
        let l = Single::one();
        Matrix4 { data: [l, o, o, x, o, l, o, y, o, o, l, z, o, o, o, l] }
    }

    #[verifier::when_used_as_spec(spec_transposed)]
    pub fn transposed(&self) -> (m: Matrix4)
        ensures
            m == self.spec_transposed(),
    {
        let mut data = [Single::zero();16];
        let mut i: usize = 0;
        while i < 4
            invariant
                i <= 4,
                forall|k: int|
                    0 <= k < i * 4 ==> #[trigger] data@[k] == self.data@[(k % 4) * 4 + k / 4],
            decreases 4 - i,
        {
            let mut j: usize = 0;
            while j < 4
                invariant
                    i < 4,
                    j <= 4,
                    forall|k: int|
                        0 <= k < i * 4 + j ==> #[trigger] data@[k] == self.data@[(k % 4) * 4 + k
                            / 4],
                decreases 4 - j,
            {
                data[Matrix4::get_index(i, j)] = self.get_value(j, i);
                j += 1;
            }
            i += 1;
        }
        let m = Matrix4 { data };
        assert(m.data =~= self.spec_transposed().data);
        m
    }

    /// The product `self × rhs`, each entry a row-by-column dot product
    /// rounded by `arithmetic`.
    pub fn mul<
        A: Fn(Single, Single) -> Single,
        M: Fn(Single, Single) -> Single,
        C: Fn(Single) -> Single,
        S: Fn(Single) -> Single,
    >(&self, rhs: &Matrix4, arithmetic: &Arithmetic<A, M, C, S>) -> (product: Matrix4)
        ensures
            arithmetic.is_product(*self, *rhs, product),
    {
        let mut values = [Single::zero();16];
        let mut i: usize = 0;
        while i < 4
            invariant
                i <= 4,
                forall|n: int|
                    0 <= n < i * 4 ==> arithmetic.is_dot(
                        *self,
                        *rhs,
                        n / 4,
                        n % 4,
                        #[trigger] values@[n],
                    ),
            decreases 4 - i,
        {
            let mut j: usize = 0;
            while j < 4
                invariant
                    i < 4,
                    j <= 4,
                    forall|n: int|
                        0 <= n < i * 4 + j ==> arithmetic.is_dot(
                            *self,
                            *rhs,
                            n / 4,
                            n % 4,
                            #[trigger] values@[n],
                        ),
                decreases 4 - j,
            {
                let mut sum = Single::zero();
                let ghost mut sums: Seq<Single> = seq![sum];
                let mut k: usize = 0;
                while k < 4
                    invariant
                        i < 4,
                        j < 4,
                        k <= 4,
                        sums.len() == k + 1,
                        sums[0] == Single::zero(),
                        sums[k as int] == sum,
                        forall|m: int|
                            0 <= m < k ==> arithmetic.is_dot_step(
                                *self,
                                *rhs,
                                i as int,
                                j as int,
                                m,
                                #[trigger] sums[m],
                                sums[m + 1],
                            ),
                    decreases 4 - k,
                {
                    let term = arithmetic.mul(self.get_value(i, k), rhs.get_value(k, j));
                    let next = arithmetic.add(sum, term);
                    proof {
                        assert(arithmetic.multiplies(
                            self.entry(i as int, k as int),
                            rhs.entry(k as int, j as int),
                            term,
                        ));
                        assert(arithmetic.is_dot_step(
                            *self,
                            *rhs,
                            i as int,
                            j as int,
                            k as int,
                            sum,
                            next,
                        ));
                        sums = sums.push(next);
                    }
                    sum = next;
                    k += 1;
                }
                proof {
                    let (a, b) = (*self, *rhs);
                    let (r, c) = (i as int, j as int);
                    assert(arithmetic.is_dot_step(a, b, r, c, 0, sums[0], sums[1]));
                    assert(arithmetic.is_dot_step(a, b, r, c, 1, sums[1], sums[2]));
                    assert(arithmetic.is_dot_step(a, b, r, c, 2, sums[2], sums[3]));
                    assert(arithmetic.is_dot_step(a, b, r, c, 3, sums[3], sums[4]));
                    assert(arithmetic.is_dot(a, b, r, c, sum));
                }
                values[Matrix4::get_index(i, j)] = sum;
                j += 1;
            }
            i += 1;
        }
        let product = Matrix4 { data: values };
        assert forall|r: int, c: int| 0 <= r < 4 && 0 <= c < 4 implies arithmetic.is_dot(
            *self,
            *rhs,
            r,
            c,
            #[trigger] product.entry(r, c),
        ) by {
            let n = r * 4 + c;
            assert(product.entry(r, c) == values@[n]);
            assert(n / 4 == r && n % 4 == c);
        }
        product
    }

    /// Transposing twice gives the matrix back.
    pub proof fn transposed_twice_is_the_matrix(m: Matrix4)
        ensures
            m.transposed().transposed() == m,
    {
        assert(m.transposed().transposed().data =~= m.data);
    }

    /// Transposing exchanges the entry in row `i`, column `j` with the one in
    /// row `j`, column `i`.
    pub proof fn transposed_exchanges_entries(m: Matrix4, i: int, j: int)
        requires
            0 <= i < 4,
            0 <= j < 4,
        ensures
            m.transposed().entry(i, j) == m.entry(j, i),
    {
    }

    /// The identity matrix is its own transpose.
    pub proof fn identity_is_symmetric()
        ensures
            Matrix4::identity().transposed() == Matrix4::identity(),
    {
        assert(Matrix4::identity().transposed().data =~= Matrix4::identity().data);
    }

    /// The identity matrix has one on the diagonal and zero elsewhere.
    pub proof fn identity_entries(i: int, j: int)
        requires
            0 <= i < 4,
            0 <= j < 4,
        ensures
            Matrix4::identity().entry(i, j) == if i == j {
                Single::one()
            } else {
                Single::zero()
            },
    {
    }

    /// A translation is the identity but for its last column, which holds
    /// the offsets in its first three rows.
    pub proof fn translation_entries(x: Single, y: Single, z: Single, i: int, j: int)
        requires
            0 <= i < 4,
            0 <= j < 4,
        ensures
            Matrix4::translation(x, y, z).entry(i, j) == if j == 3 && i == 0 {
                x
            } else if j == 3 && i == 1 {
                y
            } else if j == 3 && i == 2 {
                z
            } else {
                Matrix4::identity().entry(i, j)
            },
    {
    }
}

impl<
    A: Fn(Single, Single) -> Single,
    M: Fn(Single, Single) -> Single,
    C: Fn(Single) -> Single,
    S: Fn(Single) -> Single,
> Arithmetic<A, M, C, S> {
    /// `next` is a value that adding the `k`-th term of the dot product of
    /// row `i` of `a` with column `j` of `b` to `sum` can give: the term is
    /// the product of entry (`i`, `k`) of `a` and entry (`k`, `j`) of `b`.
    pub open spec fn is_dot_step(
        &self,
        a: Matrix4,
        b: Matrix4,
        i: int,
        j: int,
        k: int,
        sum: Single,
        next: Single,
    ) -> bool {
        exists|term: Single|
            #![trigger self.adds(sum, term, next)]
            {
                &&& self.multiplies(a.entry(i, k), b.entry(k, j), term)
                &&& self.adds(sum, term, next)
            }
    }

    /// `r` is a value that the dot product of row `i` of `a` with column `j`
    /// of `b` can give: starting from zero, the four terms are added one
    /// after the other, first to last.
    pub open spec fn is_dot(&self, a: Matrix4, b: Matrix4, i: int, j: int, r: Single) -> bool {
        exists|s1: Single, s2: Single, s3: Single|
            #![trigger self.is_dot_step(a, b, i, j, 1, s1, s2), self.is_dot_step(a, b, i, j, 2, s2, s3)]
            {
                &&& self.is_dot_step(a, b, i, j, 0, Single::zero(), s1)
                &&& self.is_dot_step(a, b, i, j, 1, s1, s2)
                &&& self.is_dot_step(a, b, i, j, 2, s2, s3)
                &&& self.is_dot_step(a, b, i, j, 3, s3, r)
            }
    }

    /// `c` is a value that the product `a × b` can give: every entry of `c`
    /// is a dot product of the matching row of `a` and column of `b`.
    pub open spec fn is_product(&self, a: Matrix4, b: Matrix4, c: Matrix4) -> bool {
        forall|i: int, j: int|
            0 <= i < 4 && 0 <= j < 4 ==> self.is_dot(a, b, i, j, #[trigger] c.entry(i, j))
    }

    /// `m` is a rotation matrix that `angle` can give: the rotation built
    /// from a cosine and a sine of `angle`.
    pub open spec fn is_rotation(&self, angle: Single, m: Matrix4) -> bool {
        exists|cos: Single, sin: Single|
            #![trigger self.cosine(angle, cos), self.sine(angle, sin)]
            {
                &&& self.cosine(angle, cos)
                &&& self.sine(angle, sin)
                &&& m == Matrix4::spec_rotation(cos, sin)
            }
    }

    /// With deterministic sums and products, one step of a dot product has
    /// one result.
    proof fn dot_step_is_determined(
        &self,
        a: Matrix4,
        b: Matrix4,
        i: int,
        j: int,
        k: int,
        sum: Single,
        r1: Single,
        r2: Single,
    )
        requires
            self.is_deterministic(),
            self.is_dot_step(a, b, i, j, k, sum, r1),
            self.is_dot_step(a, b, i, j, k, sum, r2),
        ensures
            r1 == r2,
    {
        let t1 = choose|t: Single|
            self.multiplies(a.entry(i, k), b.entry(k, j), t) && #[trigger] self.adds(sum, t, r1);
        let t2 = choose|t: Single|
            self.multiplies(a.entry(i, k), b.entry(k, j), t) && #[trigger] self.adds(sum, t, r2);
        assert(t1 == t2);
    }

    /// With deterministic sums and products, a dot product has one value.
    pub proof fn dot_is_determined(
        &self,
        a: Matrix4,
        b: Matrix4,
        i: int,
        j: int,
        r1: Single,
        r2: Single,
    )
        requires
            self.is_deterministic(),
            self.is_dot(a, b, i, j, r1),
            self.is_dot(a, b, i, j, r2),
        ensures
            r1 == r2,
    {
        let zero = Single::zero();
        let (s1, s2, s3) = choose|s1: Single, s2: Single, s3: Single|
            #![trigger self.is_dot_step(a, b, i, j, 1, s1, s2), self.is_dot_step(a, b, i, j, 2, s2, s3)]
            {
                &&& self.is_dot_step(a, b, i, j, 0, zero, s1)
                &&& self.is_dot_step(a, b, i, j, 1, s1, s2)
                &&& self.is_dot_step(a, b, i, j, 2, s2, s3)
                &&& self.is_dot_step(a, b, i, j, 3, s3, r1)
            };
        let (t1, t2, t3) = choose|t1: Single, t2: Single, t3: Single|
            #![trigger self.is_dot_step(a, b, i, j, 1, t1, t2), self.is_dot_step(a, b, i, j, 2, t2, t3)]
            {
                &&& self.is_dot_step(a, b, i, j, 0, zero, t1)
                &&& self.is_dot_step(a, b, i, j, 1, t1, t2)
                &&& self.is_dot_step(a, b, i, j, 2, t2, t3)
                &&& self.is_dot_step(a, b, i, j, 3, t3, r2)
            };
        self.dot_step_is_determined(a, b, i, j, 0, zero, s1, t1);
        self.dot_step_is_determined(a, b, i, j, 1, s1, s2, t2);
        self.dot_step_is_determined(a, b, i, j, 2, s2, s3, t3);
        self.dot_step_is_determined(a, b, i, j, 3, s3, r1, r2);
    }

    /// With deterministic sums and products, the product of two matrices is
    /// one matrix: the contract of [`Matrix4::mul`] leaves nothing open but
    /// the rounding.
    pub proof fn product_is_determined(&self, a: Matrix4, b: Matrix4, c1: Matrix4, c2: Matrix4)
        requires
            self.is_deterministic(),
            self.is_product(a, b, c1),
            self.is_product(a, b, c2),
        ensures
            c1 == c2,
    {
        assert forall|n: int| 0 <= n < 16 implies c1.data[n] == c2.data[n] by {
            let (i, j) = (n / 4, n % 4);
            assert(c1.entry(i, j) == c1.data[n] && c2.entry(i, j) == c2.data[n]);
            self.dot_is_determined(a, b, i, j, c1.entry(i, j), c2.entry(i, j));
        }
        assert(c1.data =~= c2.data);
    }

    /// A dot product in which every term but the `only`-th is zero is that
    /// term, where zero is neutral for sums.
    proof fn dot_with_one_term(
        &self,
        a: Matrix4,
        b: Matrix4,
        i: int,
        j: int,
        only: int,
        value: Single,
        r: Single,
    )
        requires
            0 <= only < 4,
            self.is_exact_on(Single::zero()),
            self.is_exact_on(value),
            forall|k: int, t: Single|
                0 <= k < 4 && k != only && #[trigger] self.multiplies(
                    a.entry(i, k),
                    b.entry(k, j),
                    t,
                ) ==> t == Single::zero(),
            forall|t: Single| #[trigger]
                self.multiplies(a.entry(i, only), b.entry(only, j), t) ==> t == value,
            self.is_dot(a, b, i, j, r),
        ensures
            r == value,
    {
        let zero = Single::zero();
        let (s1, s2, s3) = choose|s1: Single, s2: Single, s3: Single|
            #![trigger self.is_dot_step(a, b, i, j, 1, s1, s2), self.is_dot_step(a, b, i, j, 2, s2, s3)]
            {
                &&& self.is_dot_step(a, b, i, j, 0, zero, s1)
                &&& self.is_dot_step(a, b, i, j, 1, s1, s2)
                &&& self.is_dot_step(a, b, i, j, 2, s2, s3)
                &&& self.is_dot_step(a, b, i, j, 3, s3, r)
            };
        let t0 = choose|t: Single|
            self.multiplies(a.entry(i, 0), b.entry(0, j), t) && #[trigger] self.adds(zero, t, s1);
        let t1 = choose|t: Single|
            self.multiplies(a.entry(i, 1), b.entry(1, j), t) && #[trigger] self.adds(s1, t, s2);
        let t2 = choose|t: Single|
            self.multiplies(a.entry(i, 2), b.entry(2, j), t) && #[trigger] self.adds(s2, t, s3);
        let t3 = choose|t: Single|
            self.multiplies(a.entry(i, 3), b.entry(3, j), t) && #[trigger] self.adds(s3, t, r);
        assert(s1 == if only == 0 { value } else { zero });
        assert(s2 == if only <= 1 { value } else { zero });
        assert(s3 == if only <= 2 { value } else { zero });
    }

    /// Where zero and one are exact on the entries of `m`, the identity times
    /// `m` is `m`: an operation composed onto a transform that was just reset
    /// is that operation.
    pub proof fn identity_is_a_left_unit(&self, m: Matrix4, product: Matrix4)
        requires
            self.is_exact_on(Single::zero()),
            forall|n: int| 0 <= n < 16 ==> self.is_exact_on(#[trigger] m.data[n]),
            self.is_product(Matrix4::identity(), m, product),
        ensures
            product == m,
    {
        let unit = Matrix4::identity();
        let zero = Single::zero();
        assert forall|n: int| 0 <= n < 16 implies product.data[n] == m.data[n] by {
            let (i, j) = (n / 4, n % 4);
            let value = m.entry(i, j);
            assert(value == m.data[n]);
            assert(product.entry(i, j) == product.data[n]);
            assert forall|k: int, t: Single|
                0 <= k < 4 && k != i && #[trigger] self.multiplies(
                    unit.entry(i, k),
                    m.entry(k, j),
                    t,
                ) implies t == zero by {
                Matrix4::identity_entries(i, k);
                assert(self.is_exact_on(m.data[k * 4 + j]));
            }
            assert forall|t: Single| #[trigger]
                self.multiplies(unit.entry(i, i), m.entry(i, j), t) implies t == value by {
                Matrix4::identity_entries(i, i);
            }
            self.dot_with_one_term(unit, m, i, j, i, value, product.entry(i, j));
        }
        assert(product.data =~= m.data);
    }

    /// Where zero and one are exact on the offsets, on zero and on one, a
    /// translation composed onto the identity is that translation.
    pub proof fn translation_onto_identity(
        &self,
        x: Single,
        y: Single,
        z: Single,
        product: Matrix4,
    )
        requires
            self.is_exact_on(Single::zero()),
            self.is_exact_on(Single::one()),
            self.is_exact_on(x),
            self.is_exact_on(y),
            self.is_exact_on(z),
            self.is_product(Matrix4::identity(), Matrix4::translation(x, y, z), product),
        ensures
            product == Matrix4::translation(x, y, z),
    {
        let m = Matrix4::translation(x, y, z);
        assert forall|n: int| 0 <= n < 16 implies self.is_exact_on(#[trigger] m.data[n]) by {
            Matrix4::translation_entries(x, y, z, n / 4, n % 4);
            Matrix4::identity_entries(n / 4, n % 4);
            assert(m.entry(n / 4, n % 4) == m.data[n]);
        }
        self.identity_is_a_left_unit(m, product);
    }

    /// Where zero and one are exact on the entries of `m`, `m` times the
    /// identity is `m`.
    pub proof fn identity_is_a_right_unit(&self, m: Matrix4, product: Matrix4)
        requires
            self.is_exact_on(Single::zero()),
            forall|n: int| 0 <= n < 16 ==> self.is_exact_on(#[trigger] m.data[n]),
            self.is_product(m, Matrix4::identity(), product),
        ensures
            product == m,
    {
        let unit = Matrix4::identity();
        let zero = Single::zero();
        assert forall|n: int| 0 <= n < 16 implies product.data[n] == m.data[n] by {
            let (i, j) = (n / 4, n % 4);
            let value = m.entry(i, j);
            assert(value == m.data[n]);
            assert(product.entry(i, j) == product.data[n]);
            assert forall|k: int, t: Single|
                0 <= k < 4 && k != j && #[trigger] self.multiplies(
                    m.entry(i, k),
                    unit.entry(k, j),
                    t,
                ) implies t == zero by {
                Matrix4::identity_entries(k, j);
                assert(self.is_exact_on(m.data[i * 4 + k]));
            }
            assert forall|t: Single| #[trigger]
                self.multiplies(m.entry(i, j), unit.entry(j, j), t) implies t == value by {
                Matrix4::identity_entries(j, j);
            }
            self.dot_with_one_term(m, unit, i, j, j, value, product.entry(i, j));
        }
        assert(product.data =~= m.data);
    }
}

} // verus!
