//! Settings, timing and decisions of the J1939 network authority.
use vstd::prelude::*;

verus! {

/// Whether a service that ticks every `interval_millis` milliseconds should
/// act on tick number `tick` when it is to act every `decimation`
/// milliseconds.
pub open spec fn spec_interval_decimation(interval_millis: u128, tick: u64, decimation: u64) -> bool {
    tick as int % (decimation as int / interval_millis as int) == 0
}

/// Decides whether tick number `tick` of a loop that runs every
/// `interval_millis` milliseconds falls on a `decimation` millisecond period.
pub fn interval_decimation(interval_millis: u128, tick: u64, decimation: u64) -> (act: bool)
    requires
        interval_millis > 0,
        decimation as int / interval_millis as int > 0,
    ensures
        act == spec_interval_decimation(interval_millis, tick, decimation),
{
    (tick as u128) % ((decimation as u128) / interval_millis) == 0
}

/// Whether the authority publishes the status of its drivers on tick
/// number `tick`: it ticks every 10 ms and publishes every 100 ms.
pub fn status_due(tick: u64) -> (due: bool)
    ensures
        due == (tick % 10 == 0),
{
    interval_decimation(10, tick, 100)
}

/// The tick number after `tick`; the count wraps around.
pub fn next_tick(tick: u64) -> (next: u64)
    ensures
        next == (if tick == u64::MAX {
            0
        } else {
            tick + 1
        }),
{
    tick.wrapping_add(1)
}

/// The parameter groups that the authority answers requests for.
#[derive(Copy, Clone, Debug, PartialEq, Eq, Structural)]
pub enum RequestedGroup {
    /// Address claimed.
    AddressClaimed,
    /// Software identification.
    SoftwareIdentification,
    /// Time and date.
    TimeDate,
    /// Any other parameter group.
    Other,
}

/// What the authority does with a request frame it receives.
#[derive(Copy, Clone, Debug, PartialEq, Eq, Structural)]
pub enum RequestAction {
    /// Leave the request unanswered.
    Ignore,
    /// Claim the authority's address again.
    ClaimAddress,
    /// Send the software identification.
    SendSoftwareIdentification,
    /// Send the current time and date.
    SendTimeDate,
}

/// The authority answers only requests addressed to its own address, and
/// of those only the ones for the address claim, its software
/// identification and the time and date.
pub open spec fn spec_request_action(
    destination: Option<u8>,
    own_address: u8,
    group: RequestedGroup,
) -> RequestAction {
    if destination != Some(own_address) {
        RequestAction::Ignore
    } else {
        match group {
            RequestedGroup::AddressClaimed => RequestAction::ClaimAddress,
            RequestedGroup::SoftwareIdentification => RequestAction::SendSoftwareIdentification,
            RequestedGroup::TimeDate => RequestAction::SendTimeDate,
            RequestedGroup::Other => RequestAction::Ignore,
        }
    }
}

/// Decides how the authority answers a request frame sent to
/// `destination` for a parameter group.
pub fn request_action(destination: Option<u8>, own_address: u8, group: RequestedGroup) -> (action:
    RequestAction)
    ensures
        action == spec_request_action(destination, own_address, group),
{
    let addressed = match destination {
        Some(address) => address == own_address,
        None => false,
    };
    if !addressed {
        return RequestAction::Ignore;
    }
    match group {
        RequestedGroup::AddressClaimed => RequestAction::ClaimAddress,
        RequestedGroup::SoftwareIdentification => RequestAction::SendSoftwareIdentification,
        RequestedGroup::TimeDate => RequestAction::SendTimeDate,
        RequestedGroup::Other => RequestAction::Ignore,
    }
}

/// The data of the software identification the authority sends: one
/// identification field, the version numbers, and the `*` that ends the
/// field.
pub fn software_identification(major: u8, minor: u8, patch: u8) -> (data: Vec<u8>)
    ensures
        data@ == seq![1u8, major, minor, patch, 0x2Au8],
{
    let data = vec![1u8, major, minor, patch, 0x2Au8];
    assert(data@ =~= seq![1u8, major, minor, patch, 0x2Au8]);
    data
}

/// Whether a driver has gone too long without a message: never for a
/// driver configured without a receive timeout; for one with a timeout of
/// `t` milliseconds, what `timed_out_after(t)` says of the driver's
/// context.
pub fn is_rx_timeout<F: Fn(u64) -> bool>(rx_timeout: Option<u64>, timed_out_after: F) -> (timed_out:
    bool)
    requires
        forall|t: u64| timed_out_after.requires((t,)),
    ensures
        match rx_timeout {
            Some(t) => timed_out_after.ensures((t,), timed_out),
            None => !timed_out,
        },
{
    match rx_timeout {
        Some(t) => timed_out_after(t),
        None => false,
    }
}

/// Why a network driver is reported faulty.
#[derive(Clone, Debug, PartialEq, Eq)]
pub enum DriverFault<E> {
    /// The driver's tick failed with this error.
    Unit(E),
    /// No message arrived within the driver's receive timeout.
    MessageTimeout,
}

/// The health that a network driver reports after a tick.
#[derive(Clone, Debug, PartialEq, Eq)]
pub enum DriverStatus<E> {
    Healthy,
    Faulty(DriverFault<E>),
}

/// A driver is healthy unless its tick failed or its receive timeout
/// passed; a timeout is what is reported when both happened.
pub open spec fn spec_driver_status<E>(tick: Result<(), E>, rx_timed_out: bool) -> DriverStatus<E> {
    if rx_timed_out {
        DriverStatus::Faulty(DriverFault::MessageTimeout)
    } else {
        match tick {
            Ok(()) => DriverStatus::Healthy,
            Err(e) => DriverStatus::Faulty(DriverFault::Unit(e)),
        }
    }
}

/// Decides the status a driver reports from the outcome of its tick and
/// its receive timeout.
pub fn driver_status<E>(tick: Result<(), E>, rx_timed_out: bool) -> (status: DriverStatus<E>)
    ensures
        status == spec_driver_status(tick, rx_timed_out),
{
    let mut status = DriverStatus::Healthy;
    if let Err(e) = tick {
        status = DriverStatus::Faulty(DriverFault::Unit(e));
    }
    if rx_timed_out {
        status = DriverStatus::Faulty(DriverFault::MessageTimeout);
    }
    status
}

/// The authority answers a request only when it is addressed to the
/// authority's own address; then it claims its address again for an
/// address-claim request, sends its software identification or the time
/// and date when asked for them, and answers no other request.
pub proof fn lemma_request_action_addressing(
    destination: Option<u8>,
    own_address: u8,
    group: RequestedGroup,
)
    ensures
        destination != Some(own_address) ==> spec_request_action(destination, own_address, group)
            == RequestAction::Ignore,
        destination == Some(own_address) && group is AddressClaimed ==> spec_request_action(
            destination,
            own_address,
            group,
        ) == RequestAction::ClaimAddress,
        destination == Some(own_address) && group is SoftwareIdentification
            ==> spec_request_action(destination, own_address, group)
            == RequestAction::SendSoftwareIdentification,
        destination == Some(own_address) && group is TimeDate ==> spec_request_action(
            destination,
            own_address,
            group,
        ) == RequestAction::SendTimeDate,
        group is Other ==> spec_request_action(destination, own_address, group)
            == RequestAction::Ignore,
{
}

/// A driver whose receive timeout passed is reported as timed out, whatever
/// its tick did; otherwise a failed tick is reported with its own error,
/// and a driver whose tick succeeded is healthy.
pub proof fn lemma_driver_status_cases<E>(tick: Result<(), E>, rx_timed_out: bool)
    ensures
        rx_timed_out ==> spec_driver_status(tick, rx_timed_out) == DriverStatus::<E>::Faulty(
            DriverFault::MessageTimeout,
        ),
        !rx_timed_out && tick is Ok ==> spec_driver_status(tick, rx_timed_out)
            == DriverStatus::<E>::Healthy,
        !rx_timed_out ==> (tick matches Err(e) ==> spec_driver_status(tick, rx_timed_out)
            == DriverStatus::<E>::Faulty(DriverFault::Unit(e))),
{
}

/// The J1939 NAME fields with which the authority claims its address.
#[derive(Clone, Debug, PartialEq, Eq)]
pub struct J1939Name {
    /// Manufacturer code.
    pub manufacturer_code: u16,
    /// Function instance.
    pub function_instance: u8,
    /// ECU instance.
    pub ecu_instance: u8,
    /// Function.
    pub function: u8,
    /// Vehicle system.
    pub vehicle_system: u8,
    /// Vehicle system instance.
    pub vehicle_system_instance: u8,
    /// Industry group.
    pub industry_group: u8,
}

/// A network driver to load.
#[derive(Clone, Debug, PartialEq, Eq)]
pub struct CanDriverConfig {
    /// Driver destination.
    pub da: u8,
    /// Driver source.
    pub sa: Option<u8>,
    /// Timeout in milliseconds.
    pub timeout: Option<u64>,
    /// Vendor.
    pub vendor: String,
    /// Product.
    pub product: String,
}

/// A J1939 network and the drivers on it.
#[derive(Clone, Debug, PartialEq, Eq)]
pub struct NetworkConfig {
    /// CAN network interface.
    pub interface: String,
    /// Address.
    pub address: u8,
    /// Name.
    pub name: J1939Name,
    /// Driver configuration.
    pub driver: Vec<CanDriverConfig>,
    /// Whether the network also gets a transmitting authority.
    pub authority_atx: bool,
}

} // verus!
