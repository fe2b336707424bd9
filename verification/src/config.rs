//! Machine-level settings of the runtime server.
use vstd::prelude::*;

verus! {

/// Simulation settings.
#[derive(Clone, Debug, PartialEq, Eq)]
pub struct SimulationConfig {
    /// Enable simulation jitter.
    pub jitter: bool,
}

/// How the machine is operated.
#[derive(Copy, Clone, Debug, PartialEq, Eq, Structural)]
pub enum OperationMode {
    /// Normal operation mode.
    Normal,
    /// Pilot restriction mode.
    PilotRestrict,
    /// Autonomous operation mode.
    Autonomous,
}

/// The name of each mode, as configuration files write it.
pub open spec fn spec_operation_mode_name(mode: OperationMode) -> Seq<char> {
    match mode {
        OperationMode::Normal => seq!['n', 'o', 'r', 'm', 'a', 'l'],
        OperationMode::PilotRestrict => seq![
            'p',
            'i',
            'l',
            'o',
            't',
            '-',
            'r',
            'e',
            's',
            't',
            'r',
            'i',
            'c',
            't',
        ],
        OperationMode::Autonomous => seq!['a', 'u', 't', 'o', 'n', 'o', 'm', 'o', 'u', 's'],
    }
}

impl OperationMode {
    /// The name of the mode, as configuration files write it.
    pub fn to_string(&self) -> (name: String)
        ensures
            name@ == spec_operation_mode_name(*self),
    {
        match self {
            OperationMode::Normal => {
                proof {
                    reveal_strlit("normal");
                }
                let name = "normal".to_owned();
                assert(name@ =~= spec_operation_mode_name(OperationMode::Normal));
                name
            },
            OperationMode::PilotRestrict => {
                proof {
                    reveal_strlit("pilot-restrict");
                }
                let name = "pilot-restrict".to_owned();
                assert(name@ =~= spec_operation_mode_name(OperationMode::PilotRestrict));
                name
            },
            OperationMode::Autonomous => {
                proof {
                    reveal_strlit("autonomous");
                }
                let name = "autonomous".to_owned();
                assert(name@ =~= spec_operation_mode_name(OperationMode::Autonomous));
                name
            },
        }
    }
}

/// The services the runtime schedules.
#[derive(Copy, Clone, Debug, PartialEq, Eq, Structural)]
pub enum ServiceKind {
    /// Host monitoring.
    Host,
    /// Simulated actuators.
    ActuatorSimulator,
    /// Satellite navigation receiver.
    Gnss,
    /// Receiving authority over the J1939 network with this index in the
    /// configuration.
    NetworkAuthorityRx(usize),
    /// Transmitting authority over the J1939 network with this index.
    NetworkAuthorityAtx(usize),
    /// TCP server for remote clients.
    TcpServer,
}

/// The components of the control pipeline.
#[derive(Copy, Clone, Debug, PartialEq, Eq, Structural)]
pub enum ComponentKind {
    Acquisition,
    EncoderSimulator,
    EngineSimulator,
    StatusComponent,
    EngineComponent,
    ControlComponent,
    WorldBuilder,
    SensorFusion,
    LocalActor,
    Kinematic,
    Controller,
}

/// What the runtime reads of its configuration to decide what to run.
#[derive(Clone, Debug, PartialEq, Eq)]
pub struct RuntimeProfile {
    /// Mode of operation.
    pub mode: OperationMode,
    /// Whether the machine is simulated.
    pub is_simulation: bool,
    /// Whether a GNSS receiver is configured.
    pub has_gnss: bool,
    /// One entry per configured J1939 network, in order: whether that
    /// network also gets a transmitting authority.
    pub authority_atx: Vec<bool>,
    /// Whether a TCP server is configured.
    pub has_tcp_server: bool,
}

/// The authorities for the J1939 networks, in order: for each network its
/// receiving authority, followed by its transmitting authority when the
/// network asks for one.
pub open spec fn spec_network_services(authority_atx: Seq<bool>) -> Seq<ServiceKind>
    decreases authority_atx.len(),
{
    if authority_atx.len() == 0 {
        Seq::empty()
    } else {
        let last = (authority_atx.len() - 1) as usize;
        spec_network_services(authority_atx.drop_last()) + seq![
            ServiceKind::NetworkAuthorityRx(last),
        ] + (if authority_atx.last() {
            seq![ServiceKind::NetworkAuthorityAtx(last)]
        } else {
            Seq::empty()
        })
    }
}

/// The services for a profile: the host service always; the actuator
/// simulator when simulating, else the GNSS service if configured and the
/// authorities of the J1939 networks; then the TCP server if configured.
pub open spec fn spec_services(profile: RuntimeProfile) -> Seq<ServiceKind> {
    let hardware = if profile.is_simulation {
        seq![ServiceKind::ActuatorSimulator]
    } else {
        (if profile.has_gnss {
            seq![ServiceKind::Gnss]
        } else {
            Seq::empty()
        }) + spec_network_services(profile.authority_atx@)
    };
    seq![ServiceKind::Host] + hardware + (if profile.has_tcp_server {
        seq![ServiceKind::TcpServer]
    } else {
        Seq::empty()
    })
}

/// The components that run once, before the first tick: acquisition.
pub open spec fn spec_init_components(profile: RuntimeProfile) -> Seq<ComponentKind> {
    seq![ComponentKind::Acquisition]
}

/// The components that run on every tick, for a profile: the simulators
/// when simulating; status, engine, control and world building always;
/// sensor fusion and the local actor unless the pilot is restricted;
/// kinematics and the controller only when autonomous.
pub open spec fn spec_components(profile: RuntimeProfile) -> Seq<ComponentKind> {
    (if profile.is_simulation {
        seq![ComponentKind::EncoderSimulator, ComponentKind::EngineSimulator]
    } else {
        Seq::empty()
    }) + seq![
        ComponentKind::StatusComponent,
        ComponentKind::EngineComponent,
        ComponentKind::ControlComponent,
        ComponentKind::WorldBuilder,
    ] + (if profile.mode != OperationMode::PilotRestrict {
        seq![ComponentKind::SensorFusion, ComponentKind::LocalActor]
    } else {
        Seq::empty()
    }) + (if profile.mode == OperationMode::Autonomous {
        seq![ComponentKind::Kinematic, ComponentKind::Controller]
    } else {
        Seq::empty()
    })
}

impl RuntimeProfile {
    /// Applies the command line switches: `--simulation` turns simulation on,
    /// `--pilot-only` restricts the machine to its pilot.
    pub fn with_arguments(self, simulation: bool, pilot_only: bool) -> (profile: Self)
        ensures
            profile.is_simulation == (self.is_simulation || simulation),
            profile.mode == (if pilot_only {
                OperationMode::PilotRestrict
            } else {
                self.mode
            }),
            profile.has_gnss == self.has_gnss,
            profile.authority_atx@ == self.authority_atx@,
            profile.has_tcp_server == self.has_tcp_server,
    {
        let mut profile = self;
        if simulation {
            profile.is_simulation = true;
        }
        if pilot_only {
            profile.mode = OperationMode::PilotRestrict;
        }
        profile
    }

    /// The services the runtime schedules, in order.
    pub fn services(&self) -> (services: Vec<ServiceKind>)
        ensures
            services@ == spec_services(*self),
    {
        let mut services: Vec<ServiceKind> = Vec::new();
        services.push(ServiceKind::Host);
        if self.is_simulation {
            services.push(ServiceKind::ActuatorSimulator);
        } else {
            if self.has_gnss {
                services.push(ServiceKind::Gnss);
            }
            let ghost before = services@;
            let mut i: usize = 0;
            while i < self.authority_atx.len()
                invariant
                    i <= self.authority_atx@.len(),
                    services@ == before + spec_network_services(self.authority_atx@.take(i as int)),
                decreases self.authority_atx@.len() - i,
            {
                let ghost done = self.authority_atx@.take(i as int);
                services.push(ServiceKind::NetworkAuthorityRx(i));
                if self.authority_atx[i] {
                    services.push(ServiceKind::NetworkAuthorityAtx(i));
                }
                i = i + 1;
                assert(self.authority_atx@.take(i as int).drop_last() =~= done);
                assert(services@ =~= before + spec_network_services(
                    self.authority_atx@.take(i as int),
                ));
            }
            assert(self.authority_atx@.take(self.authority_atx@.len() as int)
                =~= self.authority_atx@);
        }
        if self.has_tcp_server {
            services.push(ServiceKind::TcpServer);
        }
        assert(services@ =~= spec_services(*self));
        services
    }

    /// The components that run once before the first tick, in order.
    pub fn init_components(&self) -> (components: Vec<ComponentKind>)
        ensures
            components@ == spec_init_components(*self),
    {
        let mut components: Vec<ComponentKind> = Vec::new();
        components.push(ComponentKind::Acquisition);
        assert(components@ =~= spec_init_components(*self));
        components
    }

    /// The components that run on every tick, in the order they run.
    pub fn components(&self) -> (components: Vec<ComponentKind>)
        ensures
            components@ == spec_components(*self),
    {
        let mut components: Vec<ComponentKind> = Vec::new();
        if self.is_simulation {
            components.push(ComponentKind::EncoderSimulator);
            components.push(ComponentKind::EngineSimulator);
        }
        components.push(ComponentKind::StatusComponent);
        components.push(ComponentKind::EngineComponent);
        components.push(ComponentKind::ControlComponent);
        components.push(ComponentKind::WorldBuilder);
        if self.mode != OperationMode::PilotRestrict {
            components.push(ComponentKind::SensorFusion);
            components.push(ComponentKind::LocalActor);
        }
        if self.mode == OperationMode::Autonomous {
            components.push(ComponentKind::Kinematic);
            components.push(ComponentKind::Controller);
        }
        assert(components@ =~= spec_components(*self));
        components
    }
}

/// A simulated machine never talks to real hardware: no GNSS service and
/// no J1939 authority is scheduled, and the actuator simulator is.
pub proof fn lemma_simulation_isolated(profile: RuntimeProfile)
    requires
        profile.is_simulation,
    ensures
        spec_services(profile).contains(ServiceKind::ActuatorSimulator),
        !spec_services(profile).contains(ServiceKind::Gnss),
        forall|i: usize| !spec_services(profile).contains(ServiceKind::NetworkAuthorityRx(i)),
        forall|i: usize| !spec_services(profile).contains(ServiceKind::NetworkAuthorityAtx(i)),
{
    let services = spec_services(profile);
    assert(services[1] == ServiceKind::ActuatorSimulator);
    assert forall|i: usize| !services.contains(ServiceKind::NetworkAuthorityRx(i)) by {
        if services.contains(ServiceKind::NetworkAuthorityRx(i)) {
            let k = choose|k: int| 0 <= k < services.len() && services[k] == ServiceKind::NetworkAuthorityRx(i);
            assert(false);
        }
    }
    assert forall|i: usize| !services.contains(ServiceKind::NetworkAuthorityAtx(i)) by {
        if services.contains(ServiceKind::NetworkAuthorityAtx(i)) {
            let k = choose|k: int| 0 <= k < services.len() && services[k] == ServiceKind::NetworkAuthorityAtx(i);
            assert(false);
        }
    }
    if services.contains(ServiceKind::Gnss) {
        let k = choose|k: int| 0 <= k < services.len() && services[k] == ServiceKind::Gnss;
        assert(false);
    }
}

/// Which authorities the networks get: a receiving one for each network in
/// the list, a transmitting one for each network whose flag is set.
proof fn lemma_network_services_members(authority_atx: Seq<bool>, i: usize)
    requires
        authority_atx.len() <= usize::MAX,
    ensures
        spec_network_services(authority_atx).contains(ServiceKind::NetworkAuthorityRx(i)) <==> i
            < authority_atx.len(),
        spec_network_services(authority_atx).contains(ServiceKind::NetworkAuthorityAtx(i)) <==> (i
            < authority_atx.len() && authority_atx[i as int]),
    decreases authority_atx.len(),
{
    broadcast use vstd::seq_lib::lemma_seq_concat_contains_all_elements;
    broadcast use vstd::seq_lib::lemma_seq_empty_contains_nothing;
    broadcast use vstd::seq_lib::lemma_seq_contains;

    if authority_atx.len() > 0 {
        let last = (authority_atx.len() - 1) as usize;
        lemma_network_services_members(authority_atx.drop_last(), i);
        assert(seq![ServiceKind::NetworkAuthorityRx(last)][0] == ServiceKind::NetworkAuthorityRx(
            last,
        ));
        assert(seq![ServiceKind::NetworkAuthorityAtx(last)][0] == ServiceKind::NetworkAuthorityAtx(
            last,
        ));
    }
}

/// On real hardware every configured J1939 network gets its receiving
/// authority, and it gets a transmitting authority exactly when its
/// configuration asks for one; no other network index gets either.
pub proof fn lemma_network_authorities(profile: RuntimeProfile, i: usize)
    requires
        !profile.is_simulation,
        profile.authority_atx@.len() <= usize::MAX,
    ensures
        spec_services(profile).contains(ServiceKind::NetworkAuthorityRx(i)) <==> i
            < profile.authority_atx@.len(),
        spec_services(profile).contains(ServiceKind::NetworkAuthorityAtx(i)) <==> (i
            < profile.authority_atx@.len() && profile.authority_atx@[i as int]),
{
    broadcast use vstd::seq_lib::lemma_seq_concat_contains_all_elements;
    broadcast use vstd::seq_lib::lemma_seq_empty_contains_nothing;
    broadcast use vstd::seq_lib::lemma_seq_contains;

    lemma_network_services_members(profile.authority_atx@, i);
    assert(seq![ServiceKind::Host][0] == ServiceKind::Host);
    assert(seq![ServiceKind::Gnss][0] == ServiceKind::Gnss);
    assert(seq![ServiceKind::TcpServer][0] == ServiceKind::TcpServer);
}

/// Which components run on every tick: the simulators exactly when the
/// machine is simulated; status, engine, control and world building always;
/// sensor fusion and the local actor exactly when the pilot is not
/// restricted, simulated or not; kinematics and the controller exactly when
/// autonomous; acquisition never, as it runs once before the first tick.
pub proof fn lemma_component_membership(profile: RuntimeProfile, kind: ComponentKind)
    ensures
        spec_components(profile).contains(kind) <==> match kind {
            ComponentKind::Acquisition => false,
            ComponentKind::EncoderSimulator | ComponentKind::EngineSimulator => profile.is_simulation,
            ComponentKind::StatusComponent
            | ComponentKind::EngineComponent
            | ComponentKind::ControlComponent
            | ComponentKind::WorldBuilder => true,
            ComponentKind::SensorFusion | ComponentKind::LocalActor => profile.mode
                != OperationMode::PilotRestrict,
            ComponentKind::Kinematic | ComponentKind::Controller => profile.mode
                == OperationMode::Autonomous,
        },
        spec_init_components(profile).contains(ComponentKind::Acquisition),
        spec_init_components(profile).len() == 1,
{
    broadcast use vstd::seq_lib::lemma_seq_concat_contains_all_elements;
    broadcast use vstd::seq_lib::lemma_seq_empty_contains_nothing;
    broadcast use vstd::seq_lib::lemma_seq_contains;

    let sims = seq![ComponentKind::EncoderSimulator, ComponentKind::EngineSimulator];
    let core = seq![
        ComponentKind::StatusComponent,
        ComponentKind::EngineComponent,
        ComponentKind::ControlComponent,
        ComponentKind::WorldBuilder,
    ];
    let actors = seq![ComponentKind::SensorFusion, ComponentKind::LocalActor];
    let autonomy = seq![ComponentKind::Kinematic, ComponentKind::Controller];
    assert(sims[0] == ComponentKind::EncoderSimulator && sims[1] == ComponentKind::EngineSimulator);
    assert(core[0] == ComponentKind::StatusComponent && core[1] == ComponentKind::EngineComponent
        && core[2] == ComponentKind::ControlComponent && core[3] == ComponentKind::WorldBuilder);
    assert(actors[0] == ComponentKind::SensorFusion && actors[1] == ComponentKind::LocalActor);
    assert(autonomy[0] == ComponentKind::Kinematic && autonomy[1] == ComponentKind::Controller);
    assert(seq![ComponentKind::Acquisition][0] == ComponentKind::Acquisition);
}

/// Which other services run: the host service always; the actuator
/// simulator exactly when simulated; the GNSS service exactly when it is
/// configured on a machine that is not simulated; the TCP server exactly
/// when configured.
pub proof fn lemma_service_membership(profile: RuntimeProfile)
    ensures
        spec_services(profile).contains(ServiceKind::Host),
        spec_services(profile).contains(ServiceKind::ActuatorSimulator) <==> profile.is_simulation,
        spec_services(profile).contains(ServiceKind::Gnss) <==> (!profile.is_simulation
            && profile.has_gnss),
        spec_services(profile).contains(ServiceKind::TcpServer) <==> profile.has_tcp_server,
        spec_services(profile)[0] == ServiceKind::Host,
{
    broadcast use vstd::seq_lib::lemma_seq_concat_contains_all_elements;
    broadcast use vstd::seq_lib::lemma_seq_empty_contains_nothing;
    broadcast use vstd::seq_lib::lemma_seq_contains;

    lemma_network_services_other(profile.authority_atx@);
    assert(seq![ServiceKind::Host][0] == ServiceKind::Host);
    assert(seq![ServiceKind::Gnss][0] == ServiceKind::Gnss);
    assert(seq![ServiceKind::TcpServer][0] == ServiceKind::TcpServer);
    assert(seq![ServiceKind::ActuatorSimulator][0] == ServiceKind::ActuatorSimulator);
}

/// The network services are authorities only.
proof fn lemma_network_services_other(authority_atx: Seq<bool>)
    ensures
        !spec_network_services(authority_atx).contains(ServiceKind::Host),
        !spec_network_services(authority_atx).contains(ServiceKind::ActuatorSimulator),
        !spec_network_services(authority_atx).contains(ServiceKind::Gnss),
        !spec_network_services(authority_atx).contains(ServiceKind::TcpServer),
    decreases authority_atx.len(),
{
    broadcast use vstd::seq_lib::lemma_seq_concat_contains_all_elements;
    broadcast use vstd::seq_lib::lemma_seq_empty_contains_nothing;
    broadcast use vstd::seq_lib::lemma_seq_contains;

    if authority_atx.len() > 0 {
        let last = (authority_atx.len() - 1) as usize;
        lemma_network_services_other(authority_atx.drop_last());
        assert(seq![ServiceKind::NetworkAuthorityRx(last)][0] == ServiceKind::NetworkAuthorityRx(
            last,
        ));
        assert(seq![ServiceKind::NetworkAuthorityAtx(last)][0] == ServiceKind::NetworkAuthorityAtx(
            last,
        ));
    }
}

/// A machine restricted to its pilot runs no component that acts on its own
/// (no sensor fusion, local actor, kinematics or controller); an autonomous
/// machine runs the kinematics and the controller.
pub proof fn lemma_pilot_restriction(profile: RuntimeProfile)
    ensures
        profile.mode == OperationMode::PilotRestrict ==> {
            &&& !spec_components(profile).contains(ComponentKind::SensorFusion)
            &&& !spec_components(profile).contains(ComponentKind::LocalActor)
            &&& !spec_components(profile).contains(ComponentKind::Kinematic)
            &&& !spec_components(profile).contains(ComponentKind::Controller)
        },
        profile.mode == OperationMode::Autonomous ==> {
            &&& spec_components(profile).contains(ComponentKind::Kinematic)
            &&& spec_components(profile).contains(ComponentKind::Controller)
        },
{
    let c = spec_components(profile);
    if profile.mode == OperationMode::PilotRestrict {
        assert forall|k: int| 0 <= k < c.len() implies c[k] != ComponentKind::SensorFusion
            && c[k] != ComponentKind::LocalActor && c[k] != ComponentKind::Kinematic && c[k]
            != ComponentKind::Controller by {}
    }
    if profile.mode == OperationMode::Autonomous {
        assert(c[c.len() - 2] == ComponentKind::Kinematic);
        assert(c[c.len() - 1] == ComponentKind::Controller);
    }
}

} // verus!
