use vstd::prelude::*;
use crate::renderer::material::MaterialType;
use crate::util::matrix_util::{identity, MuckableMatrix, Transform};

verus! {

/// What a traversal of the scene carries along: the stack of cumulative
/// transforms, the innermost on top, and the shading model of the pipeline
/// that is drawing.
#[derive(Debug)]
pub struct DrawState {
    pub matrix_stack: Vec<Transform>,
    pub current_material: MaterialType,
}

/// A draw state as a value.
pub struct DrawStateView {
    pub matrix_stack: Seq<Seq<MuckableMatrix>>,
    pub current_material: MaterialType,
}

impl View for DrawState {
    type V = DrawStateView;

    open spec fn view(&self) -> DrawStateView {
        DrawStateView {
            matrix_stack: self.matrix_stack@.map_values(|t: Transform| t@),
            current_material: self.current_material,
        }
    }
}

impl DrawState {
    /// A draw state for the pipeline of `current_material`, with the
    /// identity as the only transform on the stack.
    pub fn new(current_material: MaterialType) -> (state: Self)
        ensures
            state@.current_material == current_material,
            state@.matrix_stack == seq![seq![identity()]],
    {
        let mut matrix_stack: Vec<Transform> = Vec::new();
        matrix_stack.push(Transform::identity());
        let state = DrawState { matrix_stack, current_material };
        assert(state@.matrix_stack =~= seq![seq![identity()]]);
        state
    }

    /// Replaces the top of the stack by its product with `matrix`, `matrix`
    /// on the left.
    pub fn transform(&mut self, matrix: &MuckableMatrix)
        requires
            old(self)@.matrix_stack.len() > 0,
        ensures
            final(self)@.matrix_stack == old(self)@.matrix_stack.drop_last().push(
                old(self)@.matrix_stack.last().push(*matrix),
            ),
            final(self)@.current_material == old(self)@.current_material,
    {
        let mut edited = self.matrix_stack.pop().unwrap();
        edited.left_multiply(matrix);
        self.matrix_stack.push(edited);
        assert(self@.matrix_stack =~= old(self)@.matrix_stack.drop_last().push(
            old(self)@.matrix_stack.last().push(*matrix),
        ));
    }

    /// Pushes a second copy of the top of the stack.
    pub fn push_matrix(&mut self)
        requires
            old(self)@.matrix_stack.len() > 0,
        ensures
            final(self)@.matrix_stack == old(self)@.matrix_stack.push(
                old(self)@.matrix_stack.last(),
            ),
            final(self)@.current_material == old(self)@.current_material,
    {
        let copy = self.get_matrix().duplicate();
        self.matrix_stack.push(copy);
        assert(self@.matrix_stack =~= old(self)@.matrix_stack.push(old(self)@.matrix_stack.last()));
    }

    /// Takes the top off the stack; an empty stack stays empty.
    pub fn pop_matrix(&mut self)
        ensures
            final(self)@.matrix_stack == if old(self)@.matrix_stack.len() > 0 {
                old(self)@.matrix_stack.drop_last()
            } else {
                old(self)@.matrix_stack
            },
            final(self)@.current_material == old(self)@.current_material,
    {
        self.matrix_stack.pop();
        assert(self@.matrix_stack =~= if old(self)@.matrix_stack.len() > 0 {
            old(self)@.matrix_stack.drop_last()
        } else {
            old(self)@.matrix_stack
        });
    }

    /// The top of the stack.
    pub fn get_matrix(&self) -> (top: &Transform)
        requires
            self@.matrix_stack.len() > 0,
        ensures
            top@ == self@.matrix_stack.last(),
    {
        &self.matrix_stack[self.matrix_stack.len() - 1]
    }
}

} // verus!
