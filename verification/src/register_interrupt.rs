//! Binding tables: which drivers run on which vector.
//!
//! A table is built from a list of bindings, each wiring one driver to one
//! vector.  Several drivers may share a vector; they run in the order in which
//! they were listed.  A table is only built if every driver is wired to the
//! vector that it declares.

use vstd::prelude::*;
use crate::error::InterruptError;
use crate::registration::InterruptRegistration;
use crate::registry::bind_check;
use crate::registry::bind_check_spec;
use crate::registry::dispatch_spec;
use crate::registry::VectorRegistry;
use crate::vector::Vector;

verus! {

/// A driver: what it is, the vector it asks for, and what it runs when the
/// vector fires.
pub struct Driver<H> {
    /// The identity of the driver.
    pub id: u32,
    /// The vector that the driver declares.
    pub vector: Vector,
    /// The callback of the driver.
    pub on_interrupt: H,
}

impl<H> InterruptRegistration for Driver<H> {
    open spec fn vector_spec(&self) -> Vector {
        self.vector
    }

    fn vector(&self) -> (vector: Vector) {
        self.vector
    }
}

/// One line of a binding table: `driver` runs when `interrupt` fires.
pub struct Binding<H> {
    /// The vector that the driver is wired to.
    pub interrupt: Vector,
    /// The driver.
    pub driver: Driver<H>,
}

/// The drivers that `bindings` wire to `vector`, in the order of the list.
pub open spec fn drivers_for<H>(bindings: Seq<Binding<H>>, vector: Vector) -> Seq<Driver<H>>
    decreases bindings.len(),
{
    if bindings.len() == 0 {
        Seq::empty()
    } else if bindings.last().interrupt == vector {
        drivers_for(bindings.drop_last(), vector).push(bindings.last().driver)
    } else {
        drivers_for(bindings.drop_last(), vector)
    }
}

/// The table of `bindings`: each vector that has a driver, with its drivers.
pub open spec fn grouped<H>(bindings: Seq<Binding<H>>) -> Map<Vector, Seq<Driver<H>>> {
    Map::new(
        |vector: Vector| drivers_for(bindings, vector).len() > 0,
        |vector: Vector| drivers_for(bindings, vector),
    )
}

/// Whether line `i` wires a driver to another vector than it declares.
pub open spec fn mismatch_at<H>(bindings: Seq<Binding<H>>, i: int) -> bool {
    0 <= i < bindings.len() && bindings[i].driver.vector != bindings[i].interrupt
}

/// Whether every driver is wired to the vector that it declares.
pub open spec fn well_bound<H>(bindings: Seq<Binding<H>>) -> bool {
    forall|i: int| !mismatch_at(bindings, i)
}

/// Whether `i` is the first line that wires a driver wrongly.
pub open spec fn first_mismatch<H>(bindings: Seq<Binding<H>>, i: int) -> bool {
    mismatch_at(bindings, i) && forall|j: int| 0 <= j < i ==> !mismatch_at(bindings, j)
}

/// The drivers of one vector.
pub struct Connection<H> {
    interrupt: Vector,
    hal_drivers: Vec<Driver<H>>,
}

/// A checked binding table.  Its view maps each vector to its drivers.
pub struct RegisterInterrupt<H> {
    interrupt_to_hal_driver: Vec<Connection<H>>,
    table: Ghost<Map<Vector, Seq<Driver<H>>>>,
}

impl<H> View for RegisterInterrupt<H> {
    type V = Map<Vector, Seq<Driver<H>>>;

    closed spec fn view(&self) -> Map<Vector, Seq<Driver<H>>> {
        self.table@
    }
}

/// Check every line of `bindings`, first to last.
pub fn check_bindings<H>(bindings: &Vec<Binding<H>>) -> (outcome: Result<(), InterruptError>)
    ensures
        outcome is Ok <==> well_bound(bindings@),
        outcome is Err ==> exists|i: int|
            first_mismatch(bindings@, i) && outcome == bind_check_spec(
                bindings@[i].driver.id,
                bindings@[i].driver.vector,
                bindings@[i].interrupt,
            ),
{
    let mut i: usize = 0;
    while i < bindings.len()
        invariant
            i <= bindings@.len(),
            forall|j: int| 0 <= j < i ==> !mismatch_at(bindings@, j),
        decreases bindings@.len() - i,
    {
        let line = &bindings[i];
        let checked = bind_check(line.driver.id, line.driver.vector, line.interrupt);
        if checked.is_err() {
            assert(first_mismatch(bindings@, i as int));
            return checked;
        }
        i = i + 1;
    }
    Ok(())
}

impl<H> RegisterInterrupt<H> {
    /// Each connection stores one entry of the view, none is empty, and each
    /// entry of the view has its connection.
    pub closed spec fn wf(&self) -> bool {
        &&& forall|i: int|
            0 <= i < self.interrupt_to_hal_driver@.len() ==> {
                &&& self.table@.dom().contains(
                    (#[trigger] self.interrupt_to_hal_driver@[i]).interrupt,
                )
                &&& self.table@[self.interrupt_to_hal_driver@[i].interrupt]
                    == self.interrupt_to_hal_driver@[i].hal_drivers@
                &&& self.interrupt_to_hal_driver@[i].hal_drivers@.len() > 0
            }
        &&& forall|v: Vector|
            self.table@.dom().contains(v) ==> exists|i: int|
                0 <= i < self.interrupt_to_hal_driver@.len() && (
                #[trigger] self.interrupt_to_hal_driver@[i]).interrupt == v
        &&& forall|i: int, j: int|
            0 <= i < j < self.interrupt_to_hal_driver@.len() ==> (
            #[trigger] self.interrupt_to_hal_driver@[i]).interrupt != (
            #[trigger] self.interrupt_to_hal_driver@[j]).interrupt
    }

    fn find(&self, vector: Vector) -> (found: Option<usize>)
        requires
            self.wf(),
        ensures
            found is Some <==> self@.dom().contains(vector),
            found matches Some(i) ==> i < self.interrupt_to_hal_driver@.len()
                && self.interrupt_to_hal_driver@[i as int].interrupt == vector,
    {
        let mut i: usize = 0;
        while i < self.interrupt_to_hal_driver.len()
            invariant
                self.wf(),
                i <= self.interrupt_to_hal_driver@.len(),
                forall|k: int|
                    0 <= k < i ==> (#[trigger] self.interrupt_to_hal_driver@[k]).interrupt
                        != vector,
            decreases self.interrupt_to_hal_driver@.len() - i,
        {
            if self.interrupt_to_hal_driver[i].interrupt == vector {
                return Some(i);
            }
            i = i + 1;
        }
        None
    }

    fn connect(&mut self, line: Binding<H>)
        requires
            old(self).wf(),
        ensures
            final(self).wf(),
            final(self)@ == old(self)@.insert(
                line.interrupt,
                dispatch_list(old(self)@, line.interrupt).push(line.driver),
            ),
    {
        let vector: Vector = line.interrupt;
        let ghost added = dispatch_list(self@, vector).push(line.driver);
        match self.find(vector) {
            Some(at) => {
                let mut connection = self.interrupt_to_hal_driver.remove(at);
                connection.hal_drivers.push(line.driver);
                self.interrupt_to_hal_driver.insert(at, connection);
                self.table = Ghost(self.table@.insert(vector, added));
                proof {
                    let before = old(self).interrupt_to_hal_driver@;
                    let after = self.interrupt_to_hal_driver@;
                    assert(after.len() == before.len());
                    assert forall|i: int| 0 <= i < after.len() implies (#[trigger] after[i]).interrupt
                        == before[i].interrupt by {}
                    assert forall|v: Vector| self.table@.dom().contains(v) implies exists|i: int|
                        0 <= i < after.len() && (#[trigger] after[i]).interrupt == v by {
                        if v == vector {
                            assert(after[at as int].interrupt == v);
                        } else {
                            let i = choose|i: int|
                                0 <= i < before.len() && (#[trigger] before[i]).interrupt == v;
                            assert(after[i].interrupt == v);
                        }
                    }
                    assert forall|i: int| 0 <= i < after.len() implies {
                        &&& self.table@.dom().contains((#[trigger] after[i]).interrupt)
                        &&& self.table@[after[i].interrupt] == after[i].hal_drivers@
                        &&& after[i].hal_drivers@.len() > 0
                    } by {
                        if i != at {
                            assert(before[i].interrupt != before[at as int].interrupt);
                            assert(after[i] == before[i]);
                        }
                    }
                }
            },
            None => {
                let mut hal_drivers: Vec<Driver<H>> = Vec::new();
                hal_drivers.push(line.driver);
                assert(hal_drivers@ =~= added);
                self.interrupt_to_hal_driver.push(Connection { interrupt: vector, hal_drivers });
                self.table = Ghost(self.table@.insert(vector, added));
                proof {
                    let before = old(self).interrupt_to_hal_driver@;
                    let after = self.interrupt_to_hal_driver@;
                    let last = after.len() - 1;
                    assert(after[last].interrupt == vector);
                    assert forall|v: Vector| self.table@.dom().contains(v) implies exists|i: int|
                        0 <= i < after.len() && (#[trigger] after[i]).interrupt == v by {
                        if v == vector {
                            assert(after[last].interrupt == v);
                        } else {
                            let i = choose|i: int|
                                0 <= i < before.len() && (#[trigger] before[i]).interrupt == v;
                            assert(after[i].interrupt == v);
                        }
                    }
                    assert forall|i: int, j: int| 0 <= i < j < after.len() implies (
                    #[trigger] after[i]).interrupt != (#[trigger] after[j]).interrupt by {
                        if j == last {
                            assert(before[i].interrupt != vector);
                        }
                    }
                }
            },
        }
    }

    /// Build the table of `bindings`.
    ///
    /// A list without a line is refused, and so is a list in which a driver
    /// is wired to another vector than it declares; the error then names the
    /// first such driver and both vectors.
    pub fn new(bindings: Vec<Binding<H>>) -> (table: Result<Self, InterruptError>)
        ensures
            bindings@.len() == 0 ==> (table matches Err(e) && e == InterruptError::NoDrivers),
            bindings@.len() > 0 && !well_bound(bindings@) ==> (table matches Err(e) && exists|
                i: int,
            |
                first_mismatch(bindings@, i) && e == (InterruptError::BindingMismatch {
                    driver: bindings@[i].driver.id,
                    declared: bindings@[i].driver.vector,
                    used: bindings@[i].interrupt,
                })),
            bindings@.len() > 0 && well_bound(bindings@) ==> (table matches Ok(built)
                && built.wf() && built@ == grouped(bindings@)),
    {
        if bindings.len() == 0 {
            return Err(InterruptError::NoDrivers);
        }
        match check_bindings(&bindings) {
            Ok(()) => {},
            Err(e) => {
                return Err(e);
            },
        }
        let ghost all = bindings@;
        let mut rest = bindings;
        let mut table = RegisterInterrupt {
            interrupt_to_hal_driver: Vec::new(),
            table: Ghost(Map::empty()),
        };
        let mut done: usize = 0;
        let total: usize = rest.len();
        assert(table@ =~= grouped(all.take(0)));
        while done < total
            invariant
                table.wf(),
                total == all.len(),
                done <= total,
                rest@ == all.skip(done as int),
                table@ == grouped(all.take(done as int)),
            decreases total - done,
        {
            let line = rest.remove(0);
            proof {
                let vector = line.interrupt;
                let seen = all.take(done as int);
                let next = all.take(done + 1);
                assert(line == all[done as int]);
                assert(next.drop_last() =~= seen);
                assert(next.last() == line);
                assert(rest@ =~= all.skip(done + 1));
                let listed = dispatch_list(table@, vector);
                assert(listed =~= drivers_for(seen, vector));
                assert forall|v: Vector|
                    drivers_for(next, v) == (if v == vector {
                        drivers_for(seen, v).push(line.driver)
                    } else {
                        drivers_for(seen, v)
                    }) by {}
                assert(table@.insert(vector, listed.push(line.driver)) =~= grouped(next));
            }
            table.connect(line);
            done = done + 1;
        }
        assert(all.take(total as int) =~= all);
        Ok(table)
    }

    /// Whether the table covers the driver `driver`: whether some line wires
    /// it to a vector.
    pub fn grants(&self, driver: u32) -> (covered: bool)
        requires
            self.wf(),
        ensures
            covered == covers(self@, driver),
    {
        let mut i: usize = 0;
        while i < self.interrupt_to_hal_driver.len()
            invariant
                self.wf(),
                i <= self.interrupt_to_hal_driver@.len(),
                forall|c: int, k: int|
                    0 <= c < i && 0 <= k < self.interrupt_to_hal_driver@[c].hal_drivers@.len()
                        ==> (#[trigger] self.interrupt_to_hal_driver@[c].hal_drivers@[k]).id
                        != driver,
            decreases self.interrupt_to_hal_driver@.len() - i,
        {
            let connection = &self.interrupt_to_hal_driver[i];
            let mut k: usize = 0;
            while k < connection.hal_drivers.len()
                invariant
                    self.wf(),
                    i < self.interrupt_to_hal_driver@.len(),
                    *connection == self.interrupt_to_hal_driver@[i as int],
                    k <= connection.hal_drivers@.len(),
                    forall|j: int| 0 <= j < k ==> (#[trigger] connection.hal_drivers@[j]).id != driver,
                decreases connection.hal_drivers@.len() - k,
            {
                if connection.hal_drivers[k].id == driver {
                    assert(self@.dom().contains(connection.interrupt));
                    assert(self@[connection.interrupt][k as int].id == driver);
                    return true;
                }
                k = k + 1;
            }
            i = i + 1;
        }
        proof {
            if covers(self@, driver) {
                let (v, k) = choose|v: Vector, k: int|
                    self@.dom().contains(v) && 0 <= k < self@[v].len() && (
                    #[trigger] self@[v][k]).id == driver;
                let c = choose|c: int|
                    0 <= c < self.interrupt_to_hal_driver@.len() && (
                    #[trigger] self.interrupt_to_hal_driver@[c]).interrupt == v;
                assert(self.interrupt_to_hal_driver@[c].hal_drivers@[k].id == driver);
            }
        }
        false
    }

    /// Bind the callbacks of every vector of the table in `registry`, each
    /// vector with the callbacks of its drivers in the order of the table.
    ///
    /// If a vector of the table already has its handler, nothing is bound.
    pub fn install(self, registry: &mut VectorRegistry<H>) -> (outcome: Result<
        (),
        InterruptError,
    >)
        requires
            self.wf(),
            old(registry).wf(),
        ensures
            final(registry).wf(),
            (final(registry)@, outcome) == install_spec(old(registry)@, self@),
    {
        let mut i: usize = 0;
        while i < self.interrupt_to_hal_driver.len()
            invariant
                self.wf(),
                registry.wf(),
                registry@ == old(registry)@,
                i <= self.interrupt_to_hal_driver@.len(),
                forall|c: int|
                    0 <= c < i ==> !registry@.dom().contains(
                        (#[trigger] self.interrupt_to_hal_driver@[c]).interrupt,
                    ),
            decreases self.interrupt_to_hal_driver@.len() - i,
        {
            if registry.is_registered(self.interrupt_to_hal_driver[i].interrupt) {
                assert(self@.dom().contains(self.interrupt_to_hal_driver@[i as int].interrupt));
                return Err(InterruptError::DoubleRegistration);
            }
            i = i + 1;
        }
        let ghost table = self@;
        let ghost before = old(registry)@;
        let ghost all = self.interrupt_to_hal_driver@;
        proof {
            if collides(before, table) {
                let v = choose|v: Vector| table.dom().contains(v) && before.dom().contains(v);
                let c = choose|c: int| 0 <= c < all.len() && (#[trigger] all[c]).interrupt == v;
                assert(!before.dom().contains(all[c].interrupt));
            }
        }
        let mut connections = self.interrupt_to_hal_driver;
        while connections.len() > 0
            invariant
                registry.wf(),
                connections@.len() <= all.len(),
                connections@ == all.take(connections@.len() as int),
                forall|c: int|
                    0 <= c < all.len() ==> {
                        &&& table.dom().contains((#[trigger] all[c]).interrupt)
                        &&& table[all[c].interrupt] == all[c].hal_drivers@
                        &&& all[c].hal_drivers@.len() > 0
                        &&& !before.dom().contains(all[c].interrupt)
                    },
                forall|c: int, d: int|
                    0 <= c < d < all.len() ==> (#[trigger] all[c]).interrupt != (
                    #[trigger] all[d]).interrupt,
                forall|v: Vector|
                    table.dom().contains(v) ==> exists|c: int|
                        0 <= c < all.len() && (#[trigger] all[c]).interrupt == v,
                forall|v: Vector|
                    registry@.dom().contains(v) <==> before.dom().contains(v) || exists|c: int|
                        connections@.len() <= c < all.len() && (#[trigger] all[c]).interrupt == v,
                forall|v: Vector| before.dom().contains(v) ==> registry@[v] == before[v],
                forall|c: int|
                    connections@.len() <= c < all.len() ==> registry@[(
                    #[trigger] all[c]).interrupt] == callbacks(all[c].hal_drivers@),
            decreases connections@.len(),
        {
            let ghost at = connections@.len() - 1;
            let ghost earlier = registry@;
            let connection = connections.pop().unwrap();
            assert(connection == all[at]);
            let vector: Vector = connection.interrupt;
            let handlers: Vec<H> = into_callbacks(connection.hal_drivers);
            let token = registry.take(vector);
            proof {
                if earlier.dom().contains(vector) {
                    let c = choose|c: int|
                        at < c < all.len() && (#[trigger] all[c]).interrupt == vector;
                    assert(all[at].interrupt != all[c].interrupt);
                }
            }
            let bound = registry.register_shared(token, handlers);
            assert(bound is Ok);
            proof {
                assert(connections@ =~= all.take(at));
                assert(registry@ == earlier.insert(vector, callbacks(all[at].hal_drivers@)));
                assert forall|v: Vector|
                    registry@.dom().contains(v) <==> before.dom().contains(v) || exists|c: int|
                        at <= c < all.len() && (#[trigger] all[c]).interrupt == v by {
                    if v == vector {
                        assert(all[at].interrupt == v);
                    } else if earlier.dom().contains(v) && !before.dom().contains(v) {
                        let c = choose|c: int|
                            at + 1 <= c < all.len() && (#[trigger] all[c]).interrupt == v;
                        assert(all[c].interrupt == v);
                    }
                }
                assert forall|c: int| at <= c < all.len() implies registry@[(
                #[trigger] all[c]).interrupt] == callbacks(all[c].hal_drivers@) by {
                    if c != at {
                        assert(all[at].interrupt != all[c].interrupt);
                    }
                }
            }
        }
        proof {
            let expected = install_spec(before, table).0;
            assert forall|v: Vector| registry@.dom().contains(v) == expected.dom().contains(
                v,
            ) by {
                if table.dom().contains(v) {
                    let c = choose|c: int| 0 <= c < all.len() && (#[trigger] all[c]).interrupt == v;
                    assert(all[c].interrupt == v);
                }
            }
            assert forall|v: Vector| registry@.dom().contains(v) implies registry@[v]
                == expected[v] by {
                if table.dom().contains(v) {
                    let c = choose|c: int| 0 <= c < all.len() && (#[trigger] all[c]).interrupt == v;
                    assert(registry@[all[c].interrupt] == callbacks(all[c].hal_drivers@));
                }
            }
            assert(registry@ =~= expected);
        }
        Ok(())
    }

    /// The drivers that run when `vector` fires, in the order in which they
    /// were listed.
    pub fn hal_drivers(&self, vector: Vector) -> (drivers: &[Driver<H>])
        requires
            self.wf(),
        ensures
            drivers@ == dispatch_list(self@, vector),
    {
        match self.find(vector) {
            Some(i) => self.interrupt_to_hal_driver[i].hal_drivers.as_slice(),
            None => &[],
        }
    }
}

/// Whether some line of `table` wires the driver `driver` to a vector.
pub open spec fn covers<H>(table: Map<Vector, Seq<Driver<H>>>, driver: u32) -> bool {
    exists|v: Vector, k: int|
        table.dom().contains(v) && 0 <= k < table[v].len() && (#[trigger] table[v][k]).id
            == driver
}

/// The callbacks of `drivers`, in the same order.
pub open spec fn callbacks<H>(drivers: Seq<Driver<H>>) -> Seq<H> {
    Seq::new(drivers.len(), |k: int| drivers[k].on_interrupt)
}

/// Whether a vector of `table` is already bound in `bindings`.
pub open spec fn collides<H>(
    bindings: Map<Vector, Seq<H>>,
    table: Map<Vector, Seq<Driver<H>>>,
) -> bool {
    exists|v: Vector| table.dom().contains(v) && bindings.dom().contains(v)
}

/// The bindings after `table` is installed, and the outcome.  Either every
/// vector of the table is bound to the callbacks of its drivers, or, if one
/// of them was bound already, nothing changes.
pub open spec fn install_spec<H>(
    bindings: Map<Vector, Seq<H>>,
    table: Map<Vector, Seq<Driver<H>>>,
) -> (Map<Vector, Seq<H>>, Result<(), InterruptError>) {
    if collides(bindings, table) {
        (bindings, Err(InterruptError::DoubleRegistration))
    } else {
        (
            Map::new(
                |v: Vector| bindings.dom().contains(v) || table.dom().contains(v),
                |v: Vector|
                    if table.dom().contains(v) {
                        callbacks(table[v])
                    } else {
                        bindings[v]
                    },
            ),
            Ok(()),
        )
    }
}

/// Once a table is installed, each of its vectors dispatches to the
/// callbacks of all its drivers, in the order of the table, and every other
/// vector dispatches as before.
pub proof fn lemma_installed_table_dispatches_in_order<H>(
    bindings: Map<Vector, Seq<H>>,
    table: Map<Vector, Seq<Driver<H>>>,
    vector: Vector,
)
    requires
        !collides(bindings, table),
    ensures
        install_spec(bindings, table).1 is Ok,
        table.dom().contains(vector) ==> dispatch_spec(install_spec(bindings, table).0, vector)
            == callbacks(table[vector]),
        !table.dom().contains(vector) ==> dispatch_spec(install_spec(bindings, table).0, vector)
            == dispatch_spec(bindings, vector),
{
}

/// A driver that is listed after another for the same vector runs after it:
/// a further line for a vector appends its driver to the drivers of that
/// vector and leaves the drivers of every other vector as they are.
pub proof fn lemma_later_line_runs_later<H>(
    bindings: Seq<Binding<H>>,
    line: Binding<H>,
    vector: Vector,
)
    ensures
        line.interrupt == vector ==> drivers_for(bindings.push(line), vector) == drivers_for(
            bindings,
            vector,
        ).push(line.driver),
        line.interrupt != vector ==> drivers_for(bindings.push(line), vector) == drivers_for(
            bindings,
            vector,
        ),
{
    assert(bindings.push(line).drop_last() =~= bindings);
}

/// Take the callbacks out of `drivers`, keeping their order.
pub fn into_callbacks<H>(drivers: Vec<Driver<H>>) -> (handlers: Vec<H>)
    ensures
        handlers@ == callbacks(drivers@),
{
    let ghost all = drivers@;
    let mut rest = drivers;
    let mut handlers: Vec<H> = Vec::new();
    while rest.len() > 0
        invariant
            handlers@.len() + rest@.len() == all.len(),
            rest@ == all.skip(handlers@.len() as int),
            handlers@ == callbacks(all.take(handlers@.len() as int)),
        decreases rest@.len(),
    {
        let ghost taken = handlers@.len() as int;
        let driver = rest.remove(0);
        assert(driver == all[taken]);
        handlers.push(driver.on_interrupt);
        assert(rest@ =~= all.skip(taken + 1));
        assert(handlers@ =~= callbacks(all.take(taken + 1)));
    }
    assert(all.take(all.len() as int) =~= all);
    handlers
}

/// The drivers of `vector` in `table`; none for a vector without drivers.
pub open spec fn dispatch_list<H>(table: Map<Vector, Seq<Driver<H>>>, vector: Vector) -> Seq<
    Driver<H>,
> {
    if table.dom().contains(vector) {
        table[vector]
    } else {
        Seq::empty()
    }
}

} // verus!
