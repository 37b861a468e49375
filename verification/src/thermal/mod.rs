//! Thermal service of the embedded-services layer: registered sensors and
//! fans, looked up by device id.

pub mod fan;
pub mod sensor;

use crate::registry::{self, Registry};
use vstd::prelude::*;

verus! {

/// Error type
#[derive(Debug, Clone, Copy, PartialEq, Eq, Structural)]
pub enum Error {
    /// The requested device does not exist
    InvalidDevice,
}

/// Device ID new type
#[derive(Debug, Clone, Copy, PartialEq, Eq, Structural)]
pub struct DeviceId(pub u8);

/// Registered temperature sensors (handles `S`) and fans (handles `F`).
pub struct Context<S, F> {
    sensors: Registry<S>,
    fans: Registry<F>,
}

impl<S, F> Context<S, F> {
    /// The registered sensors, in registration order.
    pub closed spec fn sensors_view(&self) -> Seq<(u8, S)> {
        self.sensors.view()
    }

    /// The registered fans, in registration order.
    pub closed spec fn fans_view(&self) -> Seq<(u8, F)> {
        self.fans.view()
    }

    /// An empty context.
    pub fn new() -> (r: Self)
        ensures
            r.sensors_view() == Seq::<(u8, S)>::empty(),
            r.fans_view() == Seq::<(u8, F)>::empty(),
    {
        Self { sensors: Registry::new(), fans: Registry::new() }
    }

    /// Registers a sensor with the thermal service; fails when a sensor with
    /// the same id is already registered.
    pub fn register_sensor(&mut self, id: DeviceId, sensor: S) -> (r: Result<(), registry::Error>)
        ensures
            registry::ids_unique(final(self).sensors_view()),
            final(self).fans_view() == old(self).fans_view(),
            registry::has_id(old(self).sensors_view(), id.0) ==> r == Err::<(), registry::Error>(
                registry::Error::NodeAlreadyInList,
            ) && final(self).sensors_view() == old(self).sensors_view(),
            !registry::has_id(old(self).sensors_view(), id.0) ==> r == Ok::<(), registry::Error>(())
                && final(self).sensors_view() == old(self).sensors_view().push((id.0, sensor)),
    {
        self.sensors.register(id.0, sensor)
    }

    /// Registers a fan with the thermal service; fails when a fan with the
    /// same id is already registered.
    pub fn register_fan(&mut self, id: DeviceId, fan: F) -> (r: Result<(), registry::Error>)
        ensures
            registry::ids_unique(final(self).fans_view()),
            final(self).sensors_view() == old(self).sensors_view(),
            registry::has_id(old(self).fans_view(), id.0) ==> r == Err::<(), registry::Error>(
                registry::Error::NodeAlreadyInList,
            ) && final(self).fans_view() == old(self).fans_view(),
            !registry::has_id(old(self).fans_view(), id.0) ==> r == Ok::<(), registry::Error>(())
                && final(self).fans_view() == old(self).fans_view().push((id.0, fan)),
    {
        self.fans.register(id.0, fan)
    }

    /// The registered sensors, in registration order.
    pub fn sensors(&self) -> (r: Vec<&S>)
        ensures
            r@.len() == self.sensors_view().len(),
            forall|i: int| 0 <= i < r@.len() ==> *(#[trigger] r@[i]) == self.sensors_view()[i].1,
    {
        self.sensors.devices()
    }

    /// The registered fans, in registration order.
    pub fn fans(&self) -> (r: Vec<&F>)
        ensures
            r@.len() == self.fans_view().len(),
            forall|i: int| 0 <= i < r@.len() ==> *(#[trigger] r@[i]) == self.fans_view()[i].1,
    {
        self.fans.devices()
    }

    /// Gets a sensor by its ID, or `InvalidDevice`.
    pub fn get_sensor(&self, id: DeviceId) -> (r: Result<&S, Error>)
        ensures
            r matches Ok(d) ==> registry::find_id(self.sensors_view(), id.0) == Some(*d),
            r matches Err(e) ==> e == Error::InvalidDevice && registry::find_id(
                self.sensors_view(),
                id.0,
            ) is None,
    {
        match self.sensors.get(id.0) {
            Some(d) => Ok(d),
            None => Err(Error::InvalidDevice),
        }
    }

    /// Gets a fan by its ID, or `InvalidDevice`.
    pub fn get_fan(&self, id: DeviceId) -> (r: Result<&F, Error>)
        ensures
            r matches Ok(d) ==> registry::find_id(self.fans_view(), id.0) == Some(*d),
            r matches Err(e) ==> e == Error::InvalidDevice && registry::find_id(self.fans_view(), id.0)
                is None,
    {
        match self.fans.get(id.0) {
            Some(d) => Ok(d),
            None => Err(Error::InvalidDevice),
        }
    }
}

/// Initializes the thermal service context held in `cell`, unless it was
/// initialized before (in which case it is left as it is).
pub fn init<S, F>(cell: &mut Option<Context<S, F>>)
    ensures
        (*old(cell)) is Some ==> *final(cell) == *old(cell),
        (*old(cell)) is None ==> (*final(cell) matches Some(c) && c.sensors_view().len()
            == 0 && c.fans_view().len() == 0),
{
    if cell.is_none() {
        *cell = Some(Context::new());
    }
}

/// What one call of `ContextToken::create` gives, from whether a token was
/// created before: whether the call gives a token, and whether a token has
/// been created after it.
pub open spec fn create_step(created: bool) -> (bool, bool) {
    (!created, true)
}

/// Whether each of `n` calls of `ContextToken::create`, made one after the
/// other on one flag that starts as `created`, gives a token.
pub open spec fn create_outcomes(created: bool, n: nat) -> Seq<bool>
    decreases n,
{
    if n == 0 {
        Seq::empty()
    } else {
        seq![create_step(created).0] + create_outcomes(create_step(created).1, (n - 1) as nat)
    }
}

/// Law: of any number of calls of `ContextToken::create` made one after the
/// other on one flag, at most one gives a token: the first, and only if no
/// token was created before.
pub proof fn lemma_context_token_singleton(created: bool, n: nat)
    ensures
        create_outcomes(created, n).len() == n,
        forall|i: int|
            0 <= i < n ==> (#[trigger] create_outcomes(created, n)[i] <==> (i == 0 && !created)),
        forall|i: int, j: int|
            0 <= i < n && 0 <= j < n && #[trigger] create_outcomes(created, n)[i]
                && #[trigger] create_outcomes(created, n)[j] ==> i == j,
    decreases n,
{
    if n > 0 {
        lemma_context_token_singleton(true, (n - 1) as nat);
        let rest = create_outcomes(true, (n - 1) as nat);
        assert(create_outcomes(created, n) =~= seq![!created] + rest);
        assert forall|i: int| 0 < i < n implies !(#[trigger] create_outcomes(created, n)[i]) by {
            assert(create_outcomes(created, n)[i] == rest[i - 1]);
        }
    }
}

/// Singleton struct to give access to the thermal context
pub struct ContextToken(());

impl ContextToken {
    /// Creates the context token, returning `None` if one was created
    /// before; `created` records whether that happened (see
    /// [`lemma_context_token_singleton`] for a run of calls).
    pub fn create(created: &mut bool) -> (r: Option<Self>)
        ensures
            (r is Some, *final(created)) == create_step(*old(created)),
    {
        if *created {
            return None;
        }
        *created = true;
        Some(ContextToken(()))
    }
}

} // verus!
