use glonax::config::{ComponentKind, OperationMode, RuntimeProfile, ServiceKind, SimulationConfig};
use glonax::serial::{
    baud_speed_code, BaudRate, CharSize, FlowControl, LineFlags, Parity, StopBits,
};
use glonax::service::authority::{
    driver_status, interval_decimation, is_rx_timeout, next_tick, request_action,
    software_identification, status_due, CanDriverConfig, DriverFault, DriverStatus, J1939Name,
    NetworkConfig, RequestAction, RequestedGroup,
};
use glonax::service::pipeline::{
    Component, ComponentExecutor, InitComponent, NullConfig, PostComponent,
};
use glonax::service::director::{emergency_stop_commands, DirectorOperation, EmergencyCommand};
use glonax::service::gnss::GnssConfig;
use glonax::service::server;
use glonax::service::tcp_server::{TcpServerConfig, UnixServerConfig};

#[test]
fn baud_rate_from_speed() {
    assert_eq!(BaudRate::Baud9600, BaudRate::from_speed(9600));
    assert_eq!(BaudRate::Baud115200, BaudRate::from_speed(115200));
    assert_eq!(BaudRate::BaudOther(4000000), BaudRate::from_speed(4000000));
    assert_eq!(BaudRate::Baud110, BaudRate::from_speed(110));
    assert_eq!(BaudRate::BaudOther(0), BaudRate::from_speed(0));
}

#[test]
fn baud_rate_speed() {
    assert_eq!(9600, BaudRate::Baud9600.speed());
    assert_eq!(115200, BaudRate::Baud115200.speed());
    assert_eq!(4000000, BaudRate::BaudOther(4000000).speed());
    assert_eq!(9600, BaudRate::BaudOther(9600).speed());
}

#[test]
fn baud_rate_roundtrip() {
    let standard = [110, 300, 600, 1200, 2400, 4800, 9600, 19200, 38400, 57600, 115200];
    for speed in standard {
        let rate = BaudRate::from_speed(speed);
        assert!(!matches!(rate, BaudRate::BaudOther(_)));
        assert_eq!(rate.speed(), speed);
    }
    for speed in [1, 50, 230400, 4000000, usize::MAX] {
        assert_eq!(BaudRate::from_speed(speed), BaudRate::BaudOther(speed));
        assert_eq!(BaudRate::from_speed(speed).speed(), speed);
    }
}

#[test]
fn serial_enums() {
    assert_ne!(CharSize::Bits7, CharSize::Bits8);
    assert_ne!(Parity::ParityOdd, Parity::ParityEven);
    assert_ne!(StopBits::Stop1, StopBits::Stop2);
    assert_ne!(FlowControl::FlowSoftware, FlowControl::FlowHardware);
}

#[test]
fn decimation_every_tenth_tick() {
    let hits: Vec<u64> = (0..35).filter(|tick| interval_decimation(10, *tick, 100)).collect();
    assert_eq!(hits, vec![0, 10, 20, 30]);
    assert!(interval_decimation(10, 5, 10));
    assert!(!interval_decimation(20, 3, 100));
    assert!(interval_decimation(20, 5, 100));
    assert!(interval_decimation(30, 3, 100));
    assert!(!interval_decimation(30, 4, 100));
}

#[test]
fn network_config_holds_drivers() {
    let config = NetworkConfig {
        interface: "can0".to_string(),
        address: 0x27,
        name: J1939Name {
            manufacturer_code: 0x717,
            function_instance: 6,
            ecu_instance: 0,
            function: 0x1C,
            vehicle_system: 2,
            vehicle_system_instance: 0,
            industry_group: 0,
        },
        driver: vec![CanDriverConfig {
            da: 0x6A,
            sa: None,
            timeout: Some(500),
            vendor: "kubler".to_string(),
            product: "inclinometer".to_string(),
        }],
        authority_atx: true,
    };
    assert_eq!(config.clone(), config);
    assert_eq!(config.driver[0].timeout, Some(500));
}

#[test]
fn server_defaults() {
    assert_eq!(TcpServerConfig::default_listen(), "127.0.0.1:30051");
    assert_eq!(TcpServerConfig::default_max_connections(), 10);
    assert_eq!(UnixServerConfig::default_max_connections(), 10);
    assert_eq!(server::UnixServerConfig::default_path(), "/tmp/glonax.sock");
    assert_eq!(server::UnixServerConfig::default().path, "/tmp/glonax.sock");
    let config = TcpServerConfig { listen: TcpServerConfig::default_listen(), max_connections: 10 };
    assert_eq!(config.active_client_count(10), 0);
    assert_eq!(config.active_client_count(3), 7);
}

#[test]
fn gnss_line_rate() {
    let config = GnssConfig { device: "/dev/ttyACM0".to_string(), baud_rate: 9600 };
    assert_eq!(config.line_rate(), BaudRate::Baud9600);
    let config = GnssConfig { device: "/dev/ttyACM0".to_string(), baud_rate: 460800 };
    assert_eq!(config.line_rate(), BaudRate::BaudOther(460800));
}

#[test]
fn mode_names() {
    assert_eq!(OperationMode::Normal.to_string(), "normal");
    assert_eq!(OperationMode::PilotRestrict.to_string(), "pilot-restrict");
    assert_eq!(OperationMode::Autonomous.to_string(), "autonomous");
    assert_eq!(DirectorOperation::Disabled.to_string(), "disabled");
    assert_eq!(DirectorOperation::Supervised.to_string(), "supervised");
    assert_eq!(DirectorOperation::Autonomous.to_string(), "autonomous");
    assert!(SimulationConfig { jitter: true }.jitter);
}

#[test]
fn runtime_plan() {
    let profile = RuntimeProfile {
        mode: OperationMode::Normal,
        is_simulation: false,
        has_gnss: true,
        authority_atx: vec![false, true],
        has_tcp_server: true,
    };
    assert_eq!(
        profile.services(),
        vec![
            ServiceKind::Host,
            ServiceKind::Gnss,
            ServiceKind::NetworkAuthorityRx(0),
            ServiceKind::NetworkAuthorityRx(1),
            ServiceKind::NetworkAuthorityAtx(1),
            ServiceKind::TcpServer,
        ]
    );
    assert_eq!(
        profile.components(),
        vec![
            ComponentKind::StatusComponent,
            ComponentKind::EngineComponent,
            ComponentKind::ControlComponent,
            ComponentKind::WorldBuilder,
            ComponentKind::SensorFusion,
            ComponentKind::LocalActor,
        ]
    );

    let simulated = profile.clone().with_arguments(true, true);
    assert!(simulated.is_simulation);
    assert_eq!(simulated.mode, OperationMode::PilotRestrict);
    assert_eq!(
        simulated.services(),
        vec![ServiceKind::Host, ServiceKind::ActuatorSimulator, ServiceKind::TcpServer]
    );
    assert_eq!(
        simulated.components(),
        vec![
            ComponentKind::EncoderSimulator,
            ComponentKind::EngineSimulator,
            ComponentKind::StatusComponent,
            ComponentKind::EngineComponent,
            ComponentKind::ControlComponent,
            ComponentKind::WorldBuilder,
        ]
    );

    let autonomous = RuntimeProfile {
        mode: OperationMode::Autonomous,
        is_simulation: false,
        has_gnss: false,
        authority_atx: vec![],
        has_tcp_server: false,
    };
    assert_eq!(autonomous.services(), vec![ServiceKind::Host]);
    let components = autonomous.components();
    assert_eq!(components.len(), 8);
    assert_eq!(components[6], ComponentKind::Kinematic);
    assert_eq!(components[7], ComponentKind::Controller);
    assert_eq!(autonomous.init_components(), vec![ComponentKind::Acquisition]);
    assert!(!components.contains(&ComponentKind::Acquisition));
    let unchanged = autonomous.clone().with_arguments(false, false);
    assert_eq!(unchanged, autonomous);
}

#[test]
fn line_flag_settings() {
    use_line_flags();
}

fn use_line_flags() {
    let flags = LineFlags { iflag: 0, cflag: 0 };
    let flags = flags.set_char_size(CharSize::Bits8);
    assert_eq!(flags.cflag, 0o60);
    let flags = flags.set_char_size(CharSize::Bits7);
    assert_eq!(flags.cflag, 0o40);
    let flags = flags.set_parity(Parity::ParityOdd);
    assert_eq!(flags.cflag, 0o40 | 0o400 | 0o1000);
    assert_eq!(flags.iflag, 0o20);
    let flags = flags.set_parity(Parity::ParityEven);
    assert_eq!(flags.cflag, 0o40 | 0o400);
    assert_eq!(flags.iflag, 0o20);
    let flags = flags.set_parity(Parity::ParityNone);
    assert_eq!(flags.cflag, 0o40);
    assert_eq!(flags.iflag, 0o4);
    let flags = flags.set_stop_bits(StopBits::Stop2);
    assert_eq!(flags.cflag, 0o40 | 0o100);
    let flags = flags.set_stop_bits(StopBits::Stop1);
    assert_eq!(flags.cflag, 0o40);
    let flags = flags.set_flow_control(FlowControl::FlowSoftware);
    assert_eq!(flags.iflag, 0o4 | 0o2000 | 0o10000);
    let flags = flags.set_flow_control(FlowControl::FlowHardware);
    assert_eq!(flags.iflag, 0o4);
    assert_eq!(flags.cflag, 0o40 | 0o20000000000);
    let flags = flags.set_flow_control(FlowControl::FlowNone);
    assert_eq!(flags, LineFlags { iflag: 0o4, cflag: 0o40 });
}

#[test]
fn line_flags_keep_other_bits() {
    let all = LineFlags { iflag: u32::MAX, cflag: u32::MAX };
    let flags = all.set_char_size(CharSize::Bits5);
    assert_eq!(flags.cflag, u32::MAX & !0o60);
    assert_eq!(flags.iflag, u32::MAX);
    let a = all
        .set_parity(Parity::ParityEven)
        .set_stop_bits(StopBits::Stop1)
        .set_flow_control(FlowControl::FlowNone)
        .set_char_size(CharSize::Bits6);
    let b = all
        .set_char_size(CharSize::Bits6)
        .set_flow_control(FlowControl::FlowNone)
        .set_stop_bits(StopBits::Stop1)
        .set_parity(Parity::ParityEven);
    assert_eq!(a, b);
    assert_eq!(a.cflag & 0o60, 0o20);
}

#[test]
fn network_authorities_follow_flags() {
    let profile = RuntimeProfile {
        mode: OperationMode::Normal,
        is_simulation: false,
        has_gnss: false,
        authority_atx: vec![true, true, false],
        has_tcp_server: false,
    };
    assert_eq!(
        profile.services(),
        vec![
            ServiceKind::Host,
            ServiceKind::NetworkAuthorityRx(0),
            ServiceKind::NetworkAuthorityAtx(0),
            ServiceKind::NetworkAuthorityRx(1),
            ServiceKind::NetworkAuthorityAtx(1),
            ServiceKind::NetworkAuthorityRx(2),
        ]
    );
    let simulated = profile.with_arguments(true, false);
    assert_eq!(simulated.services(), vec![ServiceKind::Host, ServiceKind::ActuatorSimulator]);
}

#[test]
fn baud_speed_codes() {
    assert_eq!(baud_speed_code(BaudRate::Baud110), Some(0o3));
    assert_eq!(baud_speed_code(BaudRate::Baud9600), Some(0o15));
    assert_eq!(baud_speed_code(BaudRate::Baud38400), Some(0o17));
    assert_eq!(baud_speed_code(BaudRate::Baud57600), Some(0o10001));
    assert_eq!(baud_speed_code(BaudRate::Baud115200), Some(0o10002));
    assert_eq!(baud_speed_code(BaudRate::BaudOther(50)), Some(0o1));
    assert_eq!(baud_speed_code(BaudRate::BaudOther(1800)), Some(0o12));
    assert_eq!(baud_speed_code(BaudRate::BaudOther(230400)), Some(0o10003));
    assert_eq!(baud_speed_code(BaudRate::BaudOther(4000000)), Some(0o10017));
    assert_eq!(baud_speed_code(BaudRate::BaudOther(9600)), None);
    assert_eq!(baud_speed_code(BaudRate::BaudOther(12345)), None);
    assert_eq!(baud_speed_code(BaudRate::BaudOther(0)), None);
}

#[test]
fn authority_tick_decisions() {
    assert!(status_due(0));
    assert!(!status_due(5));
    assert!(status_due(20));
    assert_eq!(next_tick(41), 42);
    assert_eq!(next_tick(u64::MAX), 0);

    assert!(!is_rx_timeout(None, |_| true));
    assert!(is_rx_timeout(Some(500), |t| t == 500));
    assert!(!is_rx_timeout(Some(500), |t| t > 500));

    assert_eq!(driver_status::<u8>(Ok(()), false), DriverStatus::Healthy);
    assert_eq!(driver_status::<u8>(Err(3), false), DriverStatus::Faulty(DriverFault::Unit(3)));
    assert_eq!(
        driver_status::<u8>(Err(3), true),
        DriverStatus::Faulty(DriverFault::MessageTimeout)
    );
    assert_eq!(
        driver_status::<u8>(Ok(()), true),
        DriverStatus::Faulty(DriverFault::MessageTimeout)
    );
}

#[derive(Debug, PartialEq)]
struct Stage(&'static str);

impl Component for Stage {
    fn new(_config: NullConfig) -> Self {
        Stage("tick")
    }
}

impl InitComponent for Stage {
    fn new(_config: NullConfig) -> Self {
        Stage("init")
    }
}

impl PostComponent for Stage {
    fn new(_config: NullConfig) -> Self {
        Stage("post")
    }
}

#[test]
fn component_executor_keeps_order() {
    let mut executor: ComponentExecutor<Stage, Stage, Stage> = ComponentExecutor::default();
    assert!(executor.tick_components().is_empty());
    executor.add_component(Stage("first"));
    executor.add_component_default();
    executor.add_init_component();
    executor.add_post_component();
    executor.add_component(Stage("last"));
    assert_eq!(executor.tick_components(), &[Stage("first"), Stage("tick"), Stage("last")]);
    assert_eq!(executor.init_components(), &[Stage("init")]);
    assert_eq!(executor.post_components(), &[Stage("post")]);
}

#[test]
fn authority_answers_requests_to_itself() {
    assert_eq!(
        request_action(Some(0x27), 0x27, RequestedGroup::AddressClaimed),
        RequestAction::ClaimAddress
    );
    assert_eq!(
        request_action(Some(0x27), 0x27, RequestedGroup::SoftwareIdentification),
        RequestAction::SendSoftwareIdentification
    );
    assert_eq!(
        request_action(Some(0x27), 0x27, RequestedGroup::TimeDate),
        RequestAction::SendTimeDate
    );
    assert_eq!(request_action(Some(0x27), 0x27, RequestedGroup::Other), RequestAction::Ignore);
    assert_eq!(
        request_action(Some(0x28), 0x27, RequestedGroup::AddressClaimed),
        RequestAction::Ignore
    );
    assert_eq!(request_action(None, 0x27, RequestedGroup::TimeDate), RequestAction::Ignore);
    assert_eq!(software_identification(3, 1, 4), vec![1, 3, 1, 4, b'*']);
}

#[test]
fn emergency_stop_sequence() {
    assert_eq!(
        emergency_stop_commands(),
        vec![
            EmergencyCommand::HydraulicLock(true),
            EmergencyCommand::StopAllMotion,
            EmergencyCommand::HydraulicBoost(false),
            EmergencyCommand::MachineTravelAlarm(true),
            EmergencyCommand::MachineStrobeLight(true),
            EmergencyCommand::EngineShutdown,
        ]
    );
}
