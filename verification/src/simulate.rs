//! The simulation state and its tick.
//!
//! A tick is a kinematic update of every body followed by a full force pass.
//! The kinematic update uses the acceleration that the previous force pass
//! left behind, which makes the scheme semi-implicit Euler.

use vstd::prelude::*;
use vstd::string::StringExecFns;
use crate::body::Body;
use crate::units::softening;
use crate::units::softening_length;
use crate::units::unit;
use crate::units::UnitParameters;
use crate::vector::Vector;

verus! {

/// A body after the kinematic half of a tick: the velocity gains the old
/// acceleration times `dt`, then the position gains the new velocity times
/// `dt`.
pub open spec fn drifted<T: Vector>(b: Body<T>, dt: T::Scalar) -> Body<T> {
    let velocity = b.velocity.sum(b.acceleration.scaled(dt));
    Body {
        position: b.position.sum(velocity.scaled(dt)),
        velocity,
        acceleration: b.acceleration,
        mass: b.mass,
    }
}

/// Every body after the kinematic half of a tick.
pub open spec fn all_drifted<T: Vector>(bodies: Seq<Body<T>>, dt: T::Scalar) -> Seq<Body<T>> {
    Seq::new(bodies.len(), |i: int| drifted(bodies[i], dt))
}

/// The acceleration that `source` imparts on a body at `at`: the direction
/// from `at` to the source, times the source's mass, times the gravitational
/// constant, over the softened squared distance.
pub open spec fn pull<T: Vector>(
    at: T,
    source: Body<T>,
    gravity: T::Scalar,
    softening: T::Scalar,
) -> T {
    source.position.difference(at).scaled(source.mass).scaled(gravity).divided(
        at.softened_distance_squared(source.position, softening),
    )
}

/// The acceleration of body `i` from the first `n` bodies, itself left out:
/// the pulls are added to the zero vector in index order.
pub open spec fn accumulated<T: Vector>(
    bodies: Seq<Body<T>>,
    i: int,
    n: int,
    gravity: T::Scalar,
    softening: T::Scalar,
) -> T
    decreases n,
{
    if n <= 0 {
        T::origin()
    } else {
        let before = accumulated(bodies, i, n - 1, gravity, softening);
        if n - 1 == i {
            before
        } else {
            before.sum(pull(bodies[i].position, bodies[n - 1], gravity, softening))
        }
    }
}

/// Body `i` after a force pass over `bodies`: only its acceleration changes.
pub open spec fn attracted_body<T: Vector>(
    bodies: Seq<Body<T>>,
    i: int,
    gravity: T::Scalar,
    softening: T::Scalar,
) -> Body<T> {
    Body {
        position: bodies[i].position,
        velocity: bodies[i].velocity,
        acceleration: accumulated(bodies, i, bodies.len() as int, gravity, softening),
        mass: bodies[i].mass,
    }
}

/// Every body after a force pass.
pub open spec fn attracted<T: Vector>(
    bodies: Seq<Body<T>>,
    gravity: T::Scalar,
    softening: T::Scalar,
) -> Seq<Body<T>> {
    Seq::new(bodies.len(), |i: int| attracted_body(bodies, i, gravity, softening))
}

/// Every body after one whole tick.
pub open spec fn ticked<T: Vector>(
    bodies: Seq<Body<T>>,
    dt: T::Scalar,
    gravity: T::Scalar,
    softening: T::Scalar,
) -> Seq<Body<T>> {
    attracted(all_drifted(bodies, dt), gravity, softening)
}

/// The tick budget after one tick was run: a positive count loses one, an
/// unbounded budget stays unbounded.
pub open spec fn spent(passes: Option<i32>) -> Option<i32> {
    match passes {
        Some(n) => if n > 0 {
            Some((n - 1) as i32)
        } else {
            Some(n)
        },
        None => None,
    }
}

/// Two collections agree in what a force pass reads: positions and masses.
pub open spec fn same_sources<T: Vector>(a: Seq<Body<T>>, b: Seq<Body<T>>) -> bool {
    &&& a.len() == b.len()
    &&& forall|k: int|
        0 <= k < a.len() ==> a[k].position == b[k].position && a[k].mass == b[k].mass
}

/// The accumulated acceleration reads positions and masses only.
pub proof fn accumulated_reads_sources<T: Vector>(
    a: Seq<Body<T>>,
    b: Seq<Body<T>>,
    i: int,
    n: int,
    gravity: T::Scalar,
    softening: T::Scalar,
)
    requires
        same_sources(a, b),
        0 <= i < a.len(),
        n <= a.len(),
    ensures
        accumulated(a, i, n, gravity, softening) == accumulated(b, i, n, gravity, softening),
    decreases n,
{
    if n > 0 {
        accumulated_reads_sources(a, b, i, n - 1, gravity, softening);
    }
}

/// The force pass forgets earlier accelerations: two collections that agree in
/// positions, velocities and masses leave it equal, whatever acceleration each
/// body carried before.
pub proof fn force_pass_forgets_acceleration<T: Vector>(
    a: Seq<Body<T>>,
    b: Seq<Body<T>>,
    gravity: T::Scalar,
    softening: T::Scalar,
)
    requires
        same_sources(a, b),
        forall|k: int| 0 <= k < a.len() ==> a[k].velocity == b[k].velocity,
    ensures
        attracted(a, gravity, softening) == attracted(b, gravity, softening),
{
    assert forall|k: int| 0 <= k < a.len() implies attracted_body(a, k, gravity, softening)
        == attracted_body(b, k, gravity, softening) by {
        accumulated_reads_sources(a, b, k, a.len() as int, gravity, softening);
    }
    assert(attracted(a, gravity, softening) =~= attracted(b, gravity, softening));
}

/// A second force pass over the same positions changes nothing.
pub proof fn force_pass_is_idempotent<T: Vector>(
    bodies: Seq<Body<T>>,
    gravity: T::Scalar,
    softening: T::Scalar,
)
    ensures
        attracted(attracted(bodies, gravity, softening), gravity, softening) == attracted(
            bodies,
            gravity,
            softening,
        ),
{
    force_pass_forgets_acceleration(
        attracted(bodies, gravity, softening),
        bodies,
        gravity,
        softening,
    );
}

/// The bodies after a number of ticks.
pub open spec fn after_ticks<T: Vector>(
    bodies: Seq<Body<T>>,
    dt: T::Scalar,
    gravity: T::Scalar,
    softening: T::Scalar,
    ticks: nat,
) -> Seq<Body<T>>
    decreases ticks,
{
    if ticks == 0 {
        bodies
    } else {
        ticked(after_ticks(bodies, dt, gravity, softening, (ticks - 1) as nat), dt, gravity, softening)
    }
}

/// Ticks neither add nor remove a body, and they leave every mass as it was.
pub proof fn ticks_keep_bodies_and_masses<T: Vector>(
    bodies: Seq<Body<T>>,
    dt: T::Scalar,
    gravity: T::Scalar,
    softening: T::Scalar,
    ticks: nat,
)
    ensures
        after_ticks(bodies, dt, gravity, softening, ticks).len() == bodies.len(),
        forall|k: int|
            0 <= k < bodies.len() ==> (#[trigger] after_ticks(
                bodies,
                dt,
                gravity,
                softening,
                ticks,
            )[k]).mass == bodies[k].mass,
    decreases ticks,
{
    if ticks > 0 {
        ticks_keep_bodies_and_masses(bodies, dt, gravity, softening, (ticks - 1) as nat);
    }
}

/// A body that is alone feels no force. After any number of ticks, one at
/// least, its acceleration is the zero vector, and the tick that follows adds
/// zero times `dt` to its velocity and the velocity times `dt` to its
/// position.
pub proof fn lone_body_feels_no_force<T: Vector>(
    bodies: Seq<Body<T>>,
    dt: T::Scalar,
    gravity: T::Scalar,
    softening: T::Scalar,
    ticks: nat,
)
    requires
        bodies.len() == 1,
        ticks >= 1,
    ensures
        after_ticks(bodies, dt, gravity, softening, ticks).len() == 1,
        after_ticks(bodies, dt, gravity, softening, ticks)[0].acceleration == T::origin(),
        after_ticks(bodies, dt, gravity, softening, ticks + 1)[0].velocity == after_ticks(
            bodies,
            dt,
            gravity,
            softening,
            ticks,
        )[0].velocity.sum(T::origin().scaled(dt)),
        after_ticks(bodies, dt, gravity, softening, ticks + 1)[0].position == after_ticks(
            bodies,
            dt,
            gravity,
            softening,
            ticks,
        )[0].position.sum(
            after_ticks(bodies, dt, gravity, softening, ticks + 1)[0].velocity.scaled(dt),
        ),
{
    ticks_keep_bodies_and_masses(bodies, dt, gravity, softening, (ticks - 1) as nat);
    ticks_keep_bodies_and_masses(bodies, dt, gravity, softening, ticks);
    reveal_with_fuel(accumulated, 2);
    reveal_with_fuel(after_ticks, 2);
    let before = after_ticks(bodies, dt, gravity, softening, (ticks - 1) as nat);
    let now = after_ticks(bodies, dt, gravity, softening, ticks);
    assert(now == ticked(before, dt, gravity, softening));
    assert(accumulated(all_drifted(before, dt), 0, 1, gravity, softening) == T::origin());
    let next = after_ticks(bodies, dt, gravity, softening, ticks + 1);
    assert(next == ticked(now, dt, gravity, softening));
    assert(accumulated(all_drifted(now, dt), 0, 1, gravity, softening) == T::origin());
}

/// Why a configuration was refused.
#[derive(Debug, Clone, Copy, PartialEq, Eq, Structural)]
pub enum ConfigError {
    /// The time step is zero, infinite or not a number.
    InvalidTimeStep,
    /// The number of meters per pixel is not strictly positive.
    InvalidScale,
}

impl ConfigError {
    pub open spec fn text(self) -> Seq<char> {
        match self {
            ConfigError::InvalidTimeStep => "the time step must be finite and nonzero"@,
            ConfigError::InvalidScale => "the number of meters per pixel must be positive"@,
        }
    }

    /// A description of the error for the user.
    pub fn message(&self) -> (r: String)
        ensures
            r@ == self.text(),
    {
        match self {
            ConfigError::InvalidTimeStep => String::from_str(
                "the time step must be finite and nonzero",
            ),
            ConfigError::InvalidScale => String::from_str(
                "the number of meters per pixel must be positive",
            ),
        }
    }
}

/// What a configuration is refused for, if anything. The time step is judged
/// first.
pub open spec fn configuration_fault<T: Vector>(
    dt: T::Scalar,
    meters_per_pixel: T::Scalar,
) -> Option<ConfigError> {
    if !T::finite(dt) || T::vanishes(dt) {
        Some(ConfigError::InvalidTimeStep)
    } else if !T::positive(meters_per_pixel) {
        Some(ConfigError::InvalidScale)
    } else {
        None
    }
}

/// The bodies of a simulation with its time step, its units and its tick
/// budget.
pub struct SimulationState<T: Vector> {
    pub bodies: Vec<Body<T>>,
    /// The time step. Its sign is the direction of time.
    pub dt: T::Scalar,
    pub unit_parameters: UnitParameters<T::Scalar>,
    /// The ticks that are left, or `None` for a simulation without end.
    pub remaining_passes: Option<i32>,
}

/// The acceleration of body `i` from all the others.
fn accumulate<T: Vector>(
    bodies: &Vec<Body<T>>,
    i: usize,
    gravity: T::Scalar,
    softening: T::Scalar,
) -> (r: T)
    requires
        i < bodies.len(),
    ensures
        r == accumulated(bodies@, i as int, bodies.len() as int, gravity, softening),
{
    let len = bodies.len();
    let at = bodies[i].position;
    let mut total = T::zero();
    let mut j: usize = 0;
    while j < len
        invariant
            j <= len,
            len == bodies.len(),
            i < len,
            at == bodies@[i as int].position,
            total == accumulated(bodies@, i as int, j as int, gravity, softening),
        decreases len - j,
    {
        if j != i {
            let source = &bodies[j];
            let direction = source.position.sub(at);
            let d2 = at.distance_squared(&source.position, softening);
            total.add_assign(direction.scale(source.mass).scale(gravity).div(d2));
        }
        j += 1;
    }
    total
}

impl<T: Vector> SimulationState<T> {
    /// The time step is finite and nonzero, and a pixel stands for a positive
    /// length.
    pub open spec fn well_formed(&self) -> bool {
        configuration_fault::<T>(self.dt, self.unit_parameters.meters_per_pixel).is_none()
    }

    /// The tick budget is used up.
    pub open spec fn exhausted(&self) -> bool {
        self.remaining_passes == Some(0i32)
    }

    /// A simulation without end in standard units.
    pub fn new(bodies: Vec<Body<T>>, dt: T::Scalar) -> (r: Result<SimulationState<T>, ConfigError>)
        ensures
            match r {
                Ok(state) => {
                    &&& configuration_fault::<T>(dt, unit::<T>()).is_none()
                    &&& state.bodies == bodies
                    &&& state.dt == dt
                    &&& state.unit_parameters == UnitParameters::<T::Scalar>::standard::<T>()
                    &&& state.remaining_passes.is_none()
                    &&& state.well_formed()
                },
                Err(e) => configuration_fault::<T>(dt, unit::<T>()) == Some(e),
            },
    {
        Self::from_configuration(bodies, dt, UnitParameters::default::<T>(), None)
    }

    /// A simulation without end in the given units.
    pub fn new_with_units(
        bodies: Vec<Body<T>>,
        dt: T::Scalar,
        unit_parameters: UnitParameters<T::Scalar>,
    ) -> (r: Result<SimulationState<T>, ConfigError>)
        ensures
            match r {
                Ok(state) => {
                    &&& configuration_fault::<T>(dt, unit_parameters.meters_per_pixel).is_none()
                    &&& state.bodies == bodies
                    &&& state.dt == dt
                    &&& state.unit_parameters == unit_parameters
                    &&& state.remaining_passes.is_none()
                    &&& state.well_formed()
                },
                Err(e) => configuration_fault::<T>(dt, unit_parameters.meters_per_pixel) == Some(e),
            },
    {
        Self::from_configuration(bodies, dt, unit_parameters, None)
    }

    /// A simulation from a whole configuration: bodies, time step, units and
    /// tick budget. A time step that is zero or not finite is refused, and so
    /// is a scale that is not positive.
    pub fn from_configuration(
        bodies: Vec<Body<T>>,
        dt: T::Scalar,
        unit_parameters: UnitParameters<T::Scalar>,
        passes: Option<i32>,
    ) -> (r: Result<SimulationState<T>, ConfigError>)
        ensures
            match r {
                Ok(state) => {
                    &&& configuration_fault::<T>(dt, unit_parameters.meters_per_pixel).is_none()
                    &&& state.bodies == bodies
                    &&& state.dt == dt
                    &&& state.unit_parameters == unit_parameters
                    &&& state.remaining_passes == passes
                    &&& state.well_formed()
                },
                Err(e) => configuration_fault::<T>(dt, unit_parameters.meters_per_pixel) == Some(e),
            },
    {
        if !T::is_finite(dt) || T::is_zero(dt) {
            Err(ConfigError::InvalidTimeStep)
        } else if !T::is_positive(unit_parameters.meters_per_pixel) {
            Err(ConfigError::InvalidScale)
        } else {
            Ok(SimulationState { bodies, dt, unit_parameters, remaining_passes: passes })
        }
    }

    /// Whether the tick budget is used up, so that a tick would do nothing.
    pub fn is_exhausted(&self) -> (r: bool)
        ensures
            r == self.exhausted(),
    {
        match self.remaining_passes {
            Some(n) => n == 0,
            None => false,
        }
    }

    /// The kinematic half of a tick, on every body.
    fn drift_all(&mut self)
        ensures
            final(self).bodies@ == all_drifted(old(self).bodies@, old(self).dt),
            final(self).dt == old(self).dt,
            final(self).unit_parameters == old(self).unit_parameters,
            final(self).remaining_passes == old(self).remaining_passes,
    {
        let len = self.bodies.len();
        let dt = self.dt;
        let mut i: usize = 0;
        while i < len
            invariant
                i <= len,
                len == self.bodies.len(),
                len == old(self).bodies.len(),
                dt == self.dt,
                self.dt == old(self).dt,
                self.unit_parameters == old(self).unit_parameters,
                self.remaining_passes == old(self).remaining_passes,
                forall|k: int| 0 <= k < i ==> self.bodies@[k] == drifted(old(self).bodies@[k], dt),
                forall|k: int| i <= k < len ==> self.bodies@[k] == old(self).bodies@[k],
            decreases len - i,
        {
            let b = &self.bodies[i];
            let mut velocity = b.velocity;
            velocity.add_assign(b.acceleration.scale(dt));
            let mut position = b.position;
            position.add_assign(velocity.scale(dt));
            let moved = Body {
                position,
                velocity,
                acceleration: b.acceleration,
                mass: b.mass,
            };
            self.bodies.set(i, moved);
            i += 1;
        }
        assert(self.bodies@ =~= all_drifted(old(self).bodies@, dt));
    }

    /// The force pass: every acceleration is rebuilt from zero out of the
    /// pulls of all the other bodies.
    fn attract_all(&mut self)
        ensures
            final(self).bodies@ == attracted(
                old(self).bodies@,
                old(self).unit_parameters.gravity,
                softening_length::<T>(),
            ),
            final(self).dt == old(self).dt,
            final(self).unit_parameters == old(self).unit_parameters,
            final(self).remaining_passes == old(self).remaining_passes,
    {
        let len = self.bodies.len();
        let gravity = self.unit_parameters.gravity;
        let softening = softening::<T>();
        let mut i: usize = 0;
        while i < len
            invariant
                i <= len,
                len == self.bodies.len(),
                len == old(self).bodies.len(),
                gravity == old(self).unit_parameters.gravity,
                softening == softening_length::<T>(),
                self.dt == old(self).dt,
                self.unit_parameters == old(self).unit_parameters,
                self.remaining_passes == old(self).remaining_passes,
                forall|k: int|
                    0 <= k < i ==> self.bodies@[k] == attracted_body(
                        old(self).bodies@,
                        k,
                        gravity,
                        softening,
                    ),
                forall|k: int| i <= k < len ==> self.bodies@[k] == old(self).bodies@[k],
            decreases len - i,
        {
            let acceleration = accumulate(&self.bodies, i, gravity, softening);
            proof {
                accumulated_reads_sources(
                    self.bodies@,
                    old(self).bodies@,
                    i as int,
                    len as int,
                    gravity,
                    softening,
                );
            }
            let b = &self.bodies[i];
            let pulled = Body {
                position: b.position,
                velocity: b.velocity,
                acceleration,
                mass: b.mass,
            };
            self.bodies.set(i, pulled);
            i += 1;
        }
        assert(self.bodies@ =~= attracted(old(self).bodies@, gravity, softening));
    }

    /// Advances the simulation by one time step.
    ///
    /// With a used-up budget nothing changes. Otherwise every body drifts,
    /// every acceleration is rebuilt from the new positions, and a positive
    /// budget loses one.
    pub fn simulate_tick(&mut self)
        ensures
            old(self).exhausted() ==> *final(self) == *old(self),
            !old(self).exhausted() ==> final(self).bodies@ == ticked(
                old(self).bodies@,
                old(self).dt,
                old(self).unit_parameters.gravity,
                softening_length::<T>(),
            ),
            final(self).remaining_passes == spent(old(self).remaining_passes),
            final(self).dt == old(self).dt,
            final(self).unit_parameters == old(self).unit_parameters,
            final(self).bodies@.len() == old(self).bodies@.len(),
            old(self).well_formed() ==> final(self).well_formed(),
    {
        if self.is_exhausted() {
            return ;
        }
        self.drift_all();
        self.attract_all();
        match self.remaining_passes {
            Some(n) => {
                if n > 0 {
                    self.remaining_passes = Some(n - 1);
                }
            },
            None => {},
        }
    }
}

/// The tick budget after `ticks` ticks.
pub open spec fn spent_after(passes: Option<i32>, ticks: nat) -> Option<i32>
    decreases ticks,
{
    if ticks == 0 {
        passes
    } else {
        spent(spent_after(passes, (ticks - 1) as nat))
    }
}

/// A budget of `n` ticks counts down by one per tick, reaches zero after `n`
/// ticks and stays there: it never goes negative.
pub proof fn budget_runs_down(n: i32, ticks: nat)
    requires
        n >= 0,
    ensures
        spent_after(Some(n), ticks) == Some(
            if ticks <= n {
                (n - ticks) as i32
            } else {
                0i32
            },
        ),
    decreases ticks,
{
    if ticks > 0 {
        budget_runs_down(n, (ticks - 1) as nat);
    }
}

/// A simulation without a budget never gets one.
pub proof fn unbounded_stays_unbounded(ticks: nat)
    ensures
        spent_after(None, ticks) == None::<i32>,
    decreases ticks,
{
    if ticks > 0 {
        unbounded_stays_unbounded((ticks - 1) as nat);
    }
}

} // verus!
