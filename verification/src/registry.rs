//! The vector registry: one handler slot per vector, written at most once.

use vstd::prelude::*;
use crate::error::InterruptError;
use crate::vector::Exception;
use crate::vector::Vector;

verus! {

/// The right to bind a vector.  Tokens are handed out freely; the registry
/// honours only the first that is consumed for each vector.
#[derive(Debug)]
pub struct RegistrationToken {
    vector: Vector,
}

impl RegistrationToken {
    /// The vector that the token may bind.
    pub closed spec fn vector_spec(&self) -> Vector {
        self.vector
    }

    /// The vector that the token may bind.
    pub fn vector(&self) -> (vector: Vector)
        ensures
            vector == self.vector_spec(),
    {
        self.vector
    }
}

/// The storage of one vector: the callbacks to run when it fires, in the
/// order in which they were declared.
pub struct HandlerSlot<H> {
    vector: Vector,
    handlers: Vec<H>,
}

/// The bindings after an attempt to bind `handlers` to `vector`, and the
/// outcome of the attempt.  A bound vector keeps its binding.
pub open spec fn register_spec<H>(
    bindings: Map<Vector, Seq<H>>,
    vector: Vector,
    handlers: Seq<H>,
) -> (Map<Vector, Seq<H>>, Result<(), InterruptError>) {
    if bindings.dom().contains(vector) {
        (bindings, Err(InterruptError::DoubleRegistration))
    } else if handlers.len() == 0 {
        (bindings, Err(InterruptError::NoDrivers))
    } else {
        (bindings.insert(vector, handlers), Ok(()))
    }
}

/// The callbacks that run when `vector` fires: those bound to it, in order;
/// none for an unbound vector.
pub open spec fn dispatch_spec<H>(bindings: Map<Vector, Seq<H>>, vector: Vector) -> Seq<H> {
    if bindings.dom().contains(vector) {
        bindings[vector]
    } else {
        Seq::empty()
    }
}

/// Whether a driver that declares the vector `declared` may be wired to the
/// vector `used`: only if they are the same.  The mismatch names the driver
/// and both vectors.
pub open spec fn bind_check_spec(driver: u32, declared: Vector, used: Vector) -> Result<
    (),
    InterruptError,
> {
    if declared == used {
        Ok(())
    } else {
        Err(InterruptError::BindingMismatch { driver, declared, used })
    }
}

/// Check that the driver `driver`, which declares the vector
/// `vector_declared_by_driver`, is wired to that very vector.
pub fn bind_check(
    driver: u32,
    vector_declared_by_driver: Vector,
    vector_used_at_call_site: Vector,
) -> (outcome: Result<(), InterruptError>)
    ensures
        outcome == bind_check_spec(driver, vector_declared_by_driver, vector_used_at_call_site),
        outcome is Ok <==> vector_declared_by_driver == vector_used_at_call_site,
{
    if vector_declared_by_driver == vector_used_at_call_site {
        Ok(())
    } else {
        Err(
            InterruptError::BindingMismatch {
                driver,
                declared: vector_declared_by_driver,
                used: vector_used_at_call_site,
            },
        )
    }
}

/// A handle that can be used to register a handler for an interrupt.
pub trait InterruptHandle: Sized {
    /// The vector that the handle registers.
    spec fn handle_vector(&self) -> Vector;

    /// Register the interrupt handler for this handle.  The handle is used
    /// up, whether or not the registry accepts the handler.
    fn register<H>(self, registry: &mut VectorRegistry<H>, f: H) -> (outcome: Result<
        (),
        InterruptError,
    >)
        requires
            old(registry).wf(),
        ensures
            final(registry).wf(),
            (final(registry)@, outcome) == register_spec(
                old(registry)@,
                self.handle_vector(),
                seq![f],
            ),
    ;
}

/// A handle that can be used to register a handler for an interrupt caused
/// by an exception.
pub trait ExceptionHandle: InterruptHandle {
    /// The exception that this handle registers.
    fn exception(&self) -> (exception: Exception)
        ensures
            self.handle_vector() == Vector::Exception(exception),
    ;
}

impl InterruptHandle for RegistrationToken {
    closed spec fn handle_vector(&self) -> Vector {
        self.vector
    }

    fn register<H>(self, registry: &mut VectorRegistry<H>, f: H) -> (outcome: Result<
        (),
        InterruptError,
    >) {
        registry.register(self, f)
    }
}

/// All handler slots.  The view maps each bound vector to its callbacks.
pub struct VectorRegistry<H> {
    slots: Vec<HandlerSlot<H>>,
    bindings: Ghost<Map<Vector, Seq<H>>>,
}

impl<H> View for VectorRegistry<H> {
    type V = Map<Vector, Seq<H>>;

    closed spec fn view(&self) -> Map<Vector, Seq<H>> {
        self.bindings@
    }
}

impl<H> VectorRegistry<H> {
    /// Each slot stores one binding of the view, and each binding of the view
    /// has its slot.
    pub closed spec fn wf(&self) -> bool {
        &&& forall|i: int|
            0 <= i < self.slots@.len() ==> {
                &&& self.bindings@.dom().contains((#[trigger] self.slots@[i]).vector)
                &&& self.bindings@[self.slots@[i].vector] == self.slots@[i].handlers@
            }
        &&& forall|v: Vector|
            self.bindings@.dom().contains(v) ==> exists|i: int|
                0 <= i < self.slots@.len() && (#[trigger] self.slots@[i]).vector == v
    }

    /// A registry in which no vector is bound.
    pub fn new() -> (registry: Self)
        ensures
            registry.wf(),
            registry@ == Map::<Vector, Seq<H>>::empty(),
    {
        VectorRegistry { slots: Vec::new(), bindings: Ghost(Map::empty()) }
    }

    /// Hand out a token for `vector`.  The registry is not touched: any
    /// number of tokens may be taken for one vector.
    pub fn take(&self, vector: Vector) -> (token: RegistrationToken)
        ensures
            token.vector_spec() == vector,
            token.handle_vector() == vector,
    {
        RegistrationToken { vector }
    }

    fn find(&self, vector: Vector) -> (found: Option<usize>)
        requires
            self.wf(),
        ensures
            found is Some <==> self@.dom().contains(vector),
            found matches Some(i) ==> i < self.slots@.len() && self.slots@[i as int].vector
                == vector,
    {
        let mut i: usize = 0;
        while i < self.slots.len()
            invariant
                self.wf(),
                i <= self.slots@.len(),
                forall|k: int| 0 <= k < i ==> (#[trigger] self.slots@[k]).vector != vector,
            decreases self.slots@.len() - i,
        {
            if self.slots[i].vector == vector {
                return Some(i);
            }
            i = i + 1;
        }
        None
    }

    /// Whether `vector` has its handler.
    pub fn is_registered(&self, vector: Vector) -> (bound: bool)
        requires
            self.wf(),
        ensures
            bound == self@.dom().contains(vector),
    {
        self.find(vector).is_some()
    }

    /// Bind `callback` to the vector of `token`.
    ///
    /// The first token consumed for a vector binds it; every later one is
    /// refused with [`InterruptError::DoubleRegistration`] and the binding
    /// stays as it was.
    pub fn register(&mut self, token: RegistrationToken, callback: H) -> (outcome: Result<
        (),
        InterruptError,
    >)
        requires
            old(self).wf(),
        ensures
            final(self).wf(),
            (final(self)@, outcome) == register_spec(
                old(self)@,
                token.vector_spec(),
                seq![callback],
            ),
            outcome is Err <==> old(self)@.dom().contains(token.vector_spec()),
    {
        let mut callbacks: Vec<H> = Vec::new();
        callbacks.push(callback);
        assert(callbacks@ =~= seq![callback]);
        self.register_shared(token, callbacks)
    }

    /// Bind several callbacks to the vector of `token`, for a vector that
    /// several devices share.  They will run in the order given.
    pub fn register_shared(&mut self, token: RegistrationToken, callbacks: Vec<H>) -> (outcome:
        Result<(), InterruptError>)
        requires
            old(self).wf(),
        ensures
            final(self).wf(),
            (final(self)@, outcome) == register_spec(
                old(self)@,
                token.vector_spec(),
                callbacks@,
            ),
    {
        let vector: Vector = token.vector;
        if self.find(vector).is_some() {
            return Err(InterruptError::DoubleRegistration);
        }
        if callbacks.len() == 0 {
            return Err(InterruptError::NoDrivers);
        }
        let ghost handlers = callbacks@;
        self.slots.push(HandlerSlot { vector, handlers: callbacks });
        self.bindings = Ghost(self.bindings@.insert(vector, handlers));
        proof {
            let last = self.slots@.len() - 1;
            assert(self.slots@[last].vector == vector);
            assert forall|v: Vector| self.bindings@.dom().contains(v) implies exists|i: int|
                0 <= i < self.slots@.len() && (#[trigger] self.slots@[i]).vector == v by {
                if v == vector {
                    assert(self.slots@[last].vector == v);
                } else {
                    assert(old(self).bindings@.dom().contains(v));
                    let i = choose|i: int|
                        0 <= i < old(self).slots@.len() && (#[trigger] old(self).slots@[i]).vector
                            == v;
                    assert(self.slots@[i].vector == v);
                }
            }
        }
        Ok(())
    }

    /// The callbacks to run when `vector` fires, in declaration order.  Every
    /// one of them runs on every firing; each checks its own event flags.
    pub fn dispatch(&self, vector: Vector) -> (callbacks: &[H])
        requires
            self.wf(),
        ensures
            callbacks@ == dispatch_spec(self@, vector),
    {
        match self.find(vector) {
            Some(i) => self.slots[i].handlers.as_slice(),
            None => &[],
        }
    }
}

/// Each vector is bound at most once.  Of two attempts to bind a vector, the
/// second is always refused as a double registration and changes nothing; the
/// first succeeds exactly if the vector was free, and its callback is then the
/// one that the vector dispatches to.
pub proof fn lemma_single_registration<H>(
    bindings: Map<Vector, Seq<H>>,
    vector: Vector,
    first: H,
    second: H,
)
    ensures
        register_spec(bindings, vector, seq![first]).1 is Ok <==> !bindings.dom().contains(vector),
        register_spec(register_spec(bindings, vector, seq![first]).0, vector, seq![second]).1
            == Err::<(), InterruptError>(InterruptError::DoubleRegistration),
        register_spec(register_spec(bindings, vector, seq![first]).0, vector, seq![second]).0
            == register_spec(bindings, vector, seq![first]).0,
        !bindings.dom().contains(vector) ==> dispatch_spec(
            register_spec(register_spec(bindings, vector, seq![first]).0, vector, seq![second]).0,
            vector,
        ) == seq![first],
{
    assert(seq![first].len() == 1);
}

/// A handler slot is written once and only read afterwards: no attempt on any
/// vector changes what a bound vector dispatches to.
pub proof fn lemma_binding_is_permanent<H>(
    bindings: Map<Vector, Seq<H>>,
    bound: Vector,
    vector: Vector,
    handlers: Seq<H>,
)
    requires
        bindings.dom().contains(bound),
    ensures
        register_spec(bindings, vector, handlers).0.dom().contains(bound),
        dispatch_spec(register_spec(bindings, vector, handlers).0, bound) == dispatch_spec(
            bindings,
            bound,
        ),
{
}

/// Vectors are independent: binding one leaves every other vector as it was.
pub proof fn lemma_vectors_are_independent<H>(
    bindings: Map<Vector, Seq<H>>,
    vector: Vector,
    other: Vector,
    handlers: Seq<H>,
)
    requires
        other != vector,
    ensures
        register_spec(bindings, vector, handlers).0.dom().contains(other)
            == bindings.dom().contains(other),
        dispatch_spec(register_spec(bindings, vector, handlers).0, other) == dispatch_spec(
            bindings,
            other,
        ),
{
}

} // verus!
