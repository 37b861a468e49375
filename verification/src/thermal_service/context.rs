//! Thermal service context: the registered sensors and fans.

use crate::comms;
use crate::registry::{self, Registry};
use crate::thermal;
use crate::thermal_service::{fan, mptf, sensor};
use vstd::prelude::*;

verus! {

/// A request to the thermal service and where it came from.
#[derive(Debug, Clone, Copy)]
pub struct Message {
    pub request: mptf::Request,
    pub from: comms::EndpointID,
}

impl Message {
    pub fn new(request: mptf::Request, from: comms::EndpointID) -> (r: Self)
        ensures
            r.request == request,
            r.from == from,
    {
        Self { request, from }
    }
}

/// Registered temperature sensors and fans, each kept as a handle `S` or
/// `F` under its device id.
pub struct Context<S, F> {
    /// Registered temperature sensors
    sensors: Registry<S>,
    /// Registered fans
    fans: Registry<F>,
}

impl<S, F> Context<S, F> {
    /// The registered sensors, in registration order.
    pub closed spec fn sensors_view(&self) -> Seq<(u8, S)> {
        self.sensors.view()
    }

    /// The registered fans, in registration order.
    pub closed spec fn fans_view(&self) -> Seq<(u8, F)> {
        self.fans.view()
    }

    /// An empty context.
    pub fn new() -> (r: Self)
        ensures
            r.sensors_view() == Seq::<(u8, S)>::empty(),
            r.fans_view() == Seq::<(u8, F)>::empty(),
    {
        Self { sensors: Registry::new(), fans: Registry::new() }
    }

    /// Registers a sensor; fails when a sensor with the same id is already
    /// registered.
    pub fn register_sensor(&mut self, id: sensor::DeviceId, sensor: S) -> (r: Result<(), registry::Error>)
        ensures
            registry::ids_unique(final(self).sensors_view()),
            final(self).fans_view() == old(self).fans_view(),
            registry::has_id(old(self).sensors_view(), id.0) ==> r == Err::<(), registry::Error>(
                registry::Error::NodeAlreadyInList,
            ) && final(self).sensors_view() == old(self).sensors_view(),
            !registry::has_id(old(self).sensors_view(), id.0) ==> r == Ok::<(), registry::Error>(())
                && final(self).sensors_view() == old(self).sensors_view().push((id.0, sensor)),
    {
        self.sensors.register(id.0, sensor)
    }

    /// The registered sensors, in registration order.
    pub fn sensors(&self) -> (r: Vec<&S>)
        ensures
            r@.len() == self.sensors_view().len(),
            forall|i: int| 0 <= i < r@.len() ==> *(#[trigger] r@[i]) == self.sensors_view()[i].1,
    {
        self.sensors.devices()
    }

    /// The registered fans, in registration order.
    pub fn fans(&self) -> (r: Vec<&F>)
        ensures
            r@.len() == self.fans_view().len(),
            forall|i: int| 0 <= i < r@.len() ==> *(#[trigger] r@[i]) == self.fans_view()[i].1,
    {
        self.fans.devices()
    }

    /// Finds a sensor by its ID.
    pub fn get_sensor(&self, id: sensor::DeviceId) -> (r: Option<&S>)
        ensures
            r matches Some(d) ==> registry::find_id(self.sensors_view(), id.0) == Some(*d),
            r is None ==> registry::find_id(self.sensors_view(), id.0) is None,
    {
        self.sensors.get(id.0)
    }

    /// The sensor a request to `id` goes to, or `InvalidRequest` when no
    /// sensor has that id.
    pub fn sensor_for_request(&self, id: sensor::DeviceId) -> (r: Result<&S, sensor::Error>)
        ensures
            r matches Ok(d) ==> registry::find_id(self.sensors_view(), id.0) == Some(*d),
            r matches Err(e) ==> e == sensor::Error::InvalidRequest && registry::find_id(
                self.sensors_view(),
                id.0,
            ) is None,
    {
        match self.get_sensor(id) {
            Some(d) => Ok(d),
            None => Err(sensor::Error::InvalidRequest),
        }
    }

    /// Registers a fan; fails when a fan with the same id is already
    /// registered.
    pub fn register_fan(&mut self, id: fan::DeviceId, fan: F) -> (r: Result<(), registry::Error>)
        ensures
            registry::ids_unique(final(self).fans_view()),
            final(self).sensors_view() == old(self).sensors_view(),
            registry::has_id(old(self).fans_view(), id.0) ==> r == Err::<(), registry::Error>(
                registry::Error::NodeAlreadyInList,
            ) && final(self).fans_view() == old(self).fans_view(),
            !registry::has_id(old(self).fans_view(), id.0) ==> r == Ok::<(), registry::Error>(())
                && final(self).fans_view() == old(self).fans_view().push((id.0, fan)),
    {
        self.fans.register(id.0, fan)
    }

    /// Finds a fan by its ID.
    pub fn get_fan(&self, id: fan::DeviceId) -> (r: Option<&F>)
        ensures
            r matches Some(d) ==> registry::find_id(self.fans_view(), id.0) == Some(*d),
            r is None ==> registry::find_id(self.fans_view(), id.0) is None,
    {
        self.fans.get(id.0)
    }

    /// The fan a request to `id` goes to, or `InvalidRequest` when no fan
    /// has that id.
    pub fn fan_for_request(&self, id: fan::DeviceId) -> (r: Result<&F, fan::Error>)
        ensures
            r matches Ok(d) ==> registry::find_id(self.fans_view(), id.0) == Some(*d),
            r matches Err(e) ==> e == fan::Error::InvalidRequest && registry::find_id(
                self.fans_view(),
                id.0,
            ) is None,
    {
        match self.get_fan(id) {
            Some(d) => Ok(d),
            None => Err(fan::Error::InvalidRequest),
        }
    }
}

/// Initializes the thermal service context held in `cell`, unless it was
/// initialized before (in which case it is left as it is).
pub fn init<S, F>(cell: &mut Option<Context<S, F>>)
    ensures
        (*old(cell)) is Some ==> *final(cell) == *old(cell),
        (*old(cell)) is None ==> (*final(cell) matches Some(c) && c.sensors_view().len() == 0
            && c.fans_view().len() == 0),
{
    if cell.is_none() {
        *cell = Some(Context::new());
    }
}

/// Singleton token giving access to the thermal context.
pub struct ContextToken(());

impl ContextToken {
    /// Creates the context token, returning `None` if one was created
    /// before; `created` records whether that happened (see
    /// [`thermal::lemma_context_token_singleton`] for a run of calls).
    pub fn create(created: &mut bool) -> (r: Option<Self>)
        ensures
            (r is Some, *final(created)) == thermal::create_step(*old(created)),
    {
        if *created {
            return None;
        }
        *created = true;
        Some(ContextToken(()))
    }
}

} // verus!
