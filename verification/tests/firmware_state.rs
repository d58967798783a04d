use pico_de_gallo::monitor::{monitor_step, MonitorAction, MonitorInput, MonitorState, MonitorStep};
use pico_de_gallo::peripherals::{GpioEdge, GpioEvent, GpioState};
use pico_de_gallo::pins::usb_identity;

#[test]
fn monitor_arms_on_start() {
    let step = monitor_step(2, MonitorState::Idle, 7, MonitorInput::Start { edge: GpioEdge::Rising });
    assert_eq!(
        step,
        MonitorStep { state: MonitorState::Armed { edge: GpioEdge::Rising }, next_seq: 7, action: MonitorAction::Arm }
    );
}

#[test]
fn monitor_publishes_edges_with_sequence() {
    let armed = MonitorState::Armed { edge: GpioEdge::Falling };
    let step = monitor_step(3, armed, 41, MonitorInput::EdgeDetected { high: false, timestamp_us: 1234 });
    assert_eq!(step.state, armed);
    assert_eq!(step.next_seq, 42);
    assert_eq!(
        step.action,
        MonitorAction::Publish {
            seq: 41,
            event: GpioEvent { pin: 3, edge: GpioEdge::Falling, state: GpioState::Low, timestamp_us: 1234 }
        }
    );
    let wrap = monitor_step(0, armed, u16::MAX, MonitorInput::EdgeDetected { high: true, timestamp_us: 1 });
    assert_eq!(wrap.next_seq, 0);
}

#[test]
fn monitor_stop_returns_pin() {
    let armed = MonitorState::Armed { edge: GpioEdge::Any };
    let step = monitor_step(1, armed, 5, MonitorInput::Stop);
    assert_eq!(step, MonitorStep { state: MonitorState::Idle, next_seq: 5, action: MonitorAction::ReturnPin });
    let idle = monitor_step(1, MonitorState::Idle, 5, MonitorInput::Stop);
    assert_eq!(idle.action, MonitorAction::Ignore);
    let again = monitor_step(1, armed, 5, MonitorInput::Start { edge: GpioEdge::Rising });
    assert_eq!(again, MonitorStep { state: armed, next_seq: 5, action: MonitorAction::Ignore });
}

#[test]
fn usb_identity_from_chip_id() {
    let id = usb_identity(Some(0x0123_4567_89AB_CDEF));
    assert_eq!(id.serial_number, "0123456789ABCDEF");
    assert_eq!((id.vendor_id, id.product_id), (0x045e, 0x067d));
    assert_eq!(id.manufacturer, "Microsoft");
    assert_eq!(id.product, "Pico de Gallo");
    assert_eq!((id.max_power, id.max_packet_size_0), (100, 64));
    assert!(!id.self_powered && !id.composite_with_iads);
    assert_eq!((id.device_class, id.device_sub_class, id.device_protocol), (0xff, 0xff, 0xff));
}

#[test]
fn usb_identity_without_chip_id() {
    assert_eq!(usb_identity(None).serial_number, "0000000000000000");
}
