use vstd::prelude::*;

verus! {

/// The bit pattern of the single-precision number one.
pub const ONE: u32 = 0x3f80_0000;

/// A 4x4 matrix as the device reads it: sixteen single-precision cells, each
/// held by its bit pattern, one column after the other.
#[derive(Clone, Copy, Debug, PartialEq, Eq)]
pub struct MuckableMatrix(pub [u32; 16]);

/// The identity: one on the diagonal, zero elsewhere.
pub open spec fn identity() -> MuckableMatrix {
    MuckableMatrix(
        [
            ONE, 0u32, 0u32, 0u32,
            0u32, ONE, 0u32, 0u32,
            0u32, 0u32, ONE, 0u32,
            0u32, 0u32, 0u32, ONE,
        ],
    )
}

/// The identity matrix.
pub fn identity_matrix() -> (m: MuckableMatrix)
    ensures
        m == identity(),
{
    let m = MuckableMatrix([ONE, 0, 0, 0, 0, ONE, 0, 0, 0, 0, ONE, 0, 0, 0, 0, ONE]);
    assert(m.0 =~= identity().0);
    m
}

} // verus!

verus! {

/// A transform kept as the matrices it is composed of. It stands for the
/// product of its steps with the last step leftmost: for the steps `a`, `b`,
/// `c` that is `c * b * a`. Multiplying on the left is appending a step; the
/// product itself is formed in floating point by whoever sends it to the
/// device.
#[derive(Debug, PartialEq, Eq)]
pub struct Transform {
    pub steps: Vec<MuckableMatrix>,
}

impl View for Transform {
    type V = Seq<MuckableMatrix>;

    open spec fn view(&self) -> Seq<MuckableMatrix> {
        self.steps@
    }
}

impl Transform {
    /// The transform of one step, the identity matrix.
    pub fn identity() -> (t: Transform)
        ensures
            t@ == seq![identity()],
    {
        let mut steps: Vec<MuckableMatrix> = Vec::new();
        steps.push(identity_matrix());
        assert(steps@ =~= seq![identity()]);
        Transform { steps }
    }

    /// A second transform of the same steps.
    pub fn duplicate(&self) -> (t: Transform)
        ensures
            t@ == self@,
    {
        let mut steps: Vec<MuckableMatrix> = Vec::new();
        let mut i: usize = 0;
        while i < self.steps.len()
            invariant
                i <= self.steps@.len(),
                steps@ == self.steps@.take(i as int),
            decreases self.steps@.len() - i,
        {
            steps.push(self.steps[i]);
            assert(self.steps@.take(i as int + 1) =~= self.steps@.take(i as int).push(
                self.steps@[i as int],
            ));
            i += 1;
        }
        assert(steps@ =~= self.steps@);
        Transform { steps }
    }

    /// Multiplies by `matrix` on the left.
    pub fn left_multiply(&mut self, matrix: &MuckableMatrix)
        ensures
            final(self)@ == old(self)@.push(*matrix),
    {
        self.steps.push(*matrix);
    }
}

} // verus!
