use vstd::prelude::*;

verus! {

/// Mathematical model of a [`TransformStack2D`].
pub struct TransformStackView<M> {
    /// The matrices of the current batch, index 0 first.
    pub models: Seq<M>,
    /// Whether a model is being built.
    pub building: bool,
    /// The number of matrices one batch may hold.
    pub capacity: nat,
    /// The matrix that stands for "no transform".
    pub identity: M,
}

impl<M> TransformStackView<M> {
    /// Index 0 always exists, the stack is within its bound, and a model
    /// that is being built never sits at index 0.
    pub open spec fn wf(self) -> bool {
        &&& 1 <= self.models.len() <= self.capacity
        &&& self.capacity <= usize::MAX
        &&& self.building ==> 2 <= self.models.len()
    }

    /// The stack has reached its bound.
    pub open spec fn full(self) -> bool {
        self.models.len() == self.capacity
    }

    /// The index that vertices drawn now are tagged with: the top while a
    /// model is being built, 0 otherwise.
    pub open spec fn current_index(self) -> int {
        if self.building {
            self.models.len() - 1
        } else {
            0
        }
    }

    /// The matrix at the current index.
    pub open spec fn current(self) -> M {
        self.models[self.current_index()]
    }

    /// The stack after a model was begun: a copy of the top while one is
    /// being built already, a fresh identity otherwise.
    pub open spec fn begun(self) -> Self {
        TransformStackView {
            models: self.models.push(
                if self.building {
                    self.models.last()
                } else {
                    self.identity
                },
            ),
            building: true,
            ..self
        }
    }

    /// The stack after the model was ended: nothing is popped.
    pub open spec fn ended(self) -> Self {
        TransformStackView { building: false, ..self }
    }

    /// The stack after the current matrix was replaced.
    pub open spec fn with_current(self, m: M) -> Self {
        TransformStackView { models: self.models.update(self.current_index(), m), ..self }
    }

    /// The stack after `n` models were begun one after the other, none of
    /// them ended.
    pub open spec fn begun_times(self, n: nat) -> Self
        decreases n,
    {
        if n == 0 {
            self
        } else {
            self.begun_times((n - 1) as nat).begun()
        }
    }

    /// The stack at the start of the next batch: the identity, and behind it
    /// the top of the old stack if a model is being built.
    pub open spec fn reset(self) -> Self {
        TransformStackView {
            models: if self.building {
                seq![self.identity, self.models.last()]
            } else {
                seq![self.identity]
            },
            ..self
        }
    }
}

/// The matrices that the vertices of one batch refer to by index.
///
/// Index 0 is the matrix of vertices drawn outside any model. A model is
/// begun with [`TransformStack2D::new_matrix`], shaped through
/// [`TransformStack2D::set`], and ended with [`TransformStack2D::done`];
/// its matrix stays on the stack until the batch is drawn and
/// [`TransformStack2D::on_new_painting`] starts the next one.
pub struct TransformStack2D<M> {
    stack: Vec<M>,
    in_the_making: bool,
    capacity: usize,
    identity: M,
}

impl<M> View for TransformStack2D<M> {
    type V = TransformStackView<M>;

    closed spec fn view(&self) -> TransformStackView<M> {
        TransformStackView {
            models: self.stack@,
            building: self.in_the_making,
            capacity: self.capacity as nat,
            identity: self.identity,
        }
    }
}

impl<M: Copy> TransformStack2D<M> {
    /// Validity of a stack: see [`TransformStackView::wf`].
    pub open spec fn wf(&self) -> bool {
        self@.wf()
    }

    /// A stack for at most `len` matrices per batch, holding `identity` at
    /// index 0, with no model being built.
    pub fn new(len: usize, identity: M) -> (stack: Self)
        requires
            1 <= len,
        ensures
            stack.wf(),
            stack@ == (TransformStackView {
                models: seq![identity],
                building: false,
                capacity: len as nat,
                identity,
            }),
    {
        let mut stack = Vec::<M>::new();
        stack.push(identity);
        proof {
            assert(stack@ =~= seq![identity]);
        }
        TransformStack2D { stack, in_the_making: false, capacity: len, identity }
    }

    /// Begins a model. While one is being built already, the new one starts
    /// from a copy of it; otherwise it starts from the identity.
    pub fn new_matrix(&mut self)
        requires
            old(self).wf(),
            !old(self)@.full(),
        ensures
            final(self).wf(),
            final(self)@ == old(self)@.begun(),
    {
        if self.in_the_making {
            let top = self.stack[self.stack.len() - 1];
            self.stack.push(top);
        } else {
            self.stack.push(self.identity);
            self.in_the_making = true;
        }
    }

    /// Ends the model that is being built. Its matrix stays where it is.
    pub fn done(&mut self)
        ensures
            final(self)@ == old(self)@.ended(),
            old(self).wf() ==> final(self).wf(),
    {
        self.in_the_making = false;
    }

    /// The matrices of the current batch, index 0 first.
    pub fn get_stack(&self) -> (stack: &[M])
        ensures
            stack@ == self@.models,
    {
        self.stack.as_slice()
    }

    /// Whether a model is being built.
    pub fn in_the_making(&self) -> (building: bool)
        ensures
            building == self@.building,
    {
        self.in_the_making
    }

    /// The number of matrices one batch may hold.
    pub fn capacity(&self) -> (n: usize)
        ensures
            n == self@.capacity,
    {
        self.capacity
    }

    /// The matrix that stands for "no transform".
    pub fn identity(&self) -> (m: M)
        ensures
            m == self@.identity,
    {
        self.identity
    }

    /// Starts the next batch. The matrix of a model that is being built is
    /// carried over to index 1, and the model goes on being built there.
    pub fn on_new_painting(&mut self)
        requires
            old(self).wf(),
            old(self)@.building ==> 2 <= old(self)@.capacity,
        ensures
            final(self).wf(),
            final(self)@ == old(self)@.reset(),
    {
        if self.in_the_making {
            let current = self.stack[self.stack.len() - 1];
            self.stack.clear();
            self.stack.push(self.identity);
            self.stack.push(current);
            proof {
                assert(self.stack@ =~= seq![self.identity, current]);
            }
        } else {
            self.stack.clear();
            self.stack.push(self.identity);
            proof {
                assert(self.stack@ =~= seq![self.identity]);
            }
        }
    }

    /// True when the stack holds as many matrices as one batch may hold.
    pub fn full(&self) -> (full: bool)
        ensures
            full == self@.full(),
    {
        self.stack.len() == self.capacity
    }

    /// The index that vertices drawn now are tagged with.
    pub fn get_current_index(&self) -> (index: usize)
        requires
            self.wf(),
        ensures
            index == self@.current_index(),
            index < self@.models.len(),
    {
        if self.in_the_making {
            return self.stack.len() - 1;
        }
        0
    }

    /// The matrix at the current index.
    pub fn current(&self) -> (m: M)
        requires
            self.wf(),
        ensures
            m == self@.current(),
    {
        let index = self.get_current_index();
        self.stack[index]
    }

    /// Replaces the matrix at the current index.
    pub fn set(&mut self, m: &M)
        requires
            old(self).wf(),
        ensures
            final(self).wf(),
            final(self)@ == old(self)@.with_current(*m),
    {
        let last_index = self.get_current_index();
        self.stack[last_index] = *m;
    }
}

/// Beginning `n >= 1` models in a row where all of them fit leaves a valid
/// stack that is building, has grown by `n`, has its current index at the
/// top, and is full exactly when nothing is left of the bound.
pub proof fn lemma_begun_times<M>(stack: TransformStackView<M>, n: nat)
    requires
        stack.wf(),
        1 <= n,
        stack.models.len() + n <= stack.capacity,
    ensures
        stack.begun_times(n).wf(),
        stack.begun_times(n).building,
        stack.begun_times(n).capacity == stack.capacity,
        stack.begun_times(n).identity == stack.identity,
        stack.begun_times(n).models.len() == stack.models.len() + n,
        stack.begun_times(n).current_index() == stack.models.len() + n - 1,
        stack.begun_times(n).full() <==> stack.models.len() + n == stack.capacity,
        forall|k: nat| k < n ==> !(#[trigger] stack.begun_times(k)).full(),
    decreases n,
{
    let before = stack.begun_times((n - 1) as nat);
    assert(stack.begun_times(n) == before.begun());
    if n > 1 {
        lemma_begun_times(stack, (n - 1) as nat);
    } else {
        assert(before == stack);
    }
    assert forall|k: nat| k < n implies !(#[trigger] stack.begun_times(k)).full() by {
        if k > 0 {
            lemma_begun_times(stack, k);
        } else {
            assert(stack.begun_times(0) == stack);
        }
    }
}

/// A model begun outside any model starts from the identity; a model begun
/// inside another starts from a copy of it. Either way the matrices below
/// stay as they are.
pub proof fn lemma_begun_starts_from<M>(stack: TransformStackView<M>)
    requires
        stack.wf(),
    ensures
        stack.begun().current() == (if stack.building {
            stack.current()
        } else {
            stack.identity
        }),
        forall|i: int| 0 <= i < stack.models.len() ==> stack.begun().models[i] == stack.models[i],
{
}

/// Starting the next batch while a model with matrix `m` is being built
/// leaves exactly the identity and `m`, with `m` current at index 1 and the
/// model still being built. Outside any model it leaves the identity alone.
pub proof fn lemma_reset_carries_model<M>(stack: TransformStackView<M>)
    requires
        stack.wf(),
    ensures
        stack.building ==> {
            &&& stack.reset().models == seq![stack.identity, stack.current()]
            &&& stack.reset().current_index() == 1
            &&& stack.reset().current() == stack.current()
            &&& stack.reset().building
        },
        !stack.building ==> {
            &&& stack.reset().models == seq![stack.identity]
            &&& stack.reset().current_index() == 0
            &&& !stack.reset().building
        },
        stack.reset().capacity == stack.capacity,
        stack.reset().identity == stack.identity,
        2 <= stack.capacity ==> stack.reset().wf(),
        stack.reset().reset() == stack.reset(),
{
    if stack.building {
        assert(stack.reset().reset().models =~= stack.reset().models);
    }
}

} // verus!
