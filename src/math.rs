use vstd::prelude::*;

verus! {

/// A 4x4 matrix, stored column by column as the GPU reads uniforms: the entry
/// of row `r` and column `c` is at `4 * c + r`.
#[derive(Debug, Clone, Copy)]
pub struct Matrix4<T> {
    pub data: [T; 16],
}

/// The entries of a matrix of layout `m`, transposed, in the same layout.
pub open spec fn transposed<T>(m: Seq<T>) -> Seq<T> {
    Seq::new(16, |i: int| m[(i % 4) * 4 + i / 4])
}

impl<T: Copy> Matrix4<T> {
    /// The entry of row `r` and column `c`.
    pub open spec fn at(&self, r: int, c: int) -> T {
        self.data@[4 * c + r]
    }

    /// A matrix from its entries, given row by row.
    #[allow(clippy::too_many_arguments)]
    pub fn new(
        x1: T, x2: T, x3: T, x4: T,
        y1: T, y2: T, y3: T, y4: T,
        z1: T, z2: T, z3: T, z4: T,
        w1: T, w2: T, w3: T, w4: T,
    ) -> (r: Self)
        ensures
            r.data@ == seq![x1, y1, z1, w1, x2, y2, z2, w2, x3, y3, z3, w3, x4, y4, z4, w4],
    {
        let r = Matrix4 { data: [x1, y1, z1, w1, x2, y2, z2, w2, x3, y3, z3, w3, x4, y4, z4, w4] };
        proof {
            assert(r.data@ =~= seq![x1, y1, z1, w1, x2, y2, z2, w2, x3, y3, z3, w3, x4, y4, z4, w4]);
        }
        r
    }

    /// The entry of row `r` and column `c`.
    pub fn get(&self, r: usize, c: usize) -> (v: T)
        requires
            r < 4,
            c < 4,
        ensures
            v == self.at(r as int, c as int),
    {
        self.data[4 * c + r]
    }

    /// The entries in storage order.
    pub fn as_slice(&self) -> (r: &[T])
        ensures
            r@ == self.data@,
    {
        vstd::array::array_as_slice(&self.data)
    }

    fn swap(&mut self, i: usize, j: usize)
        requires
            i < 16,
            j < 16,
        ensures
            final(self).data@ == old(self).data@.update(i as int, old(self).data@[j as int]).update(
                j as int,
                old(self).data@[i as int],
            ),
    {
        let a = self.data[i];
        let b = self.data[j];
        self.data.set(i, b);
        self.data.set(j, a);
    }

    /// Swaps rows and columns in place.
    pub fn transpose(&mut self)
        ensures
            final(self).data@ == transposed(old(self).data@),
            forall|r: int, c: int| 0 <= r < 4 && 0 <= c < 4 ==> #[trigger] final(self).at(r, c) == old(self).at(c, r),
    {
        let ghost m = self.data@;
        self.swap(1, 4);
        self.swap(2, 8);
        self.swap(3, 12);
        self.swap(6, 9);
        self.swap(7, 13);
        self.swap(11, 14);
        assert(self.data@ =~= transposed(m));
    }
}

/// Transposing twice gives back the matrix one started with.
pub proof fn lemma_transpose_twice<T>(m: Seq<T>)
    requires
        m.len() == 16,
    ensures
        transposed(transposed(m)) == m,
{
    assert(transposed(transposed(m)) =~= m);
}

/// Transposing a matrix twice, in place, gives back the matrix one started
/// with.
pub proof fn lemma_transpose_round_trip<T: Copy>(m: Matrix4<T>, once: Matrix4<T>, twice: Matrix4<T>)
    requires
        once.data@ == transposed(m.data@),
        twice.data@ == transposed(once.data@),
    ensures
        twice.data@ == m.data@,
        forall|r: int, c: int| 0 <= r < 4 && 0 <= c < 4 ==> #[trigger] twice.at(r, c) == m.at(r, c),
{
    lemma_transpose_twice(m.data@);
}

} // verus!
