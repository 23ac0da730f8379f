use mx_remote::event::{
    deliveries, fan_in, BayEvent, Delivery, DeviceEvent, Event, EventScope, GenericUpdate,
    LinkEvent,
};
use mx_remote::event::written_event;
use mx_remote::ident::{BayUid, DeviceUid};
use mx_remote::registry::WriteBack;
use mx_remote::types::PowerStatus;

const DEVICE: DeviceUid = DeviceUid { bytes: [9; 16] };

#[test]
fn a_bay_event_fires_its_own_method_then_the_generic_bay_update() {
    let bay = BayUid::new(DEVICE, 3);
    let event = Event::Bay { bay, change: BayEvent::PowerChanged { power: PowerStatus::On } };
    assert_eq!(event.scope(), EventScope::Bay(bay));
    assert_eq!(deliveries(&event), vec![Delivery::Own, Delivery::Generic(GenericUpdate::Bay(bay))]);
}

#[test]
fn a_device_event_fires_its_own_method_then_the_generic_device_update() {
    let event = Event::Device { device: DEVICE, change: DeviceEvent::SetupStatusChanged { completed: true } };
    assert_eq!(
        deliveries(&event),
        vec![Delivery::Own, Delivery::Generic(GenericUpdate::Device(DEVICE))]
    );
}

#[test]
fn a_link_event_fires_both_generic_updates() {
    let bay = BayUid::new(DEVICE, 3);
    let event = Event::Link {
        bay,
        change: LinkEvent::BayUnlinked { linked_serial: "AB1234".to_owned(), bay_name: "Output 1".to_owned() },
    };
    assert_eq!(
        deliveries(&event),
        vec![
            Delivery::Own,
            Delivery::Generic(GenericUpdate::Bay(bay)),
            Delivery::Generic(GenericUpdate::Device(DEVICE)),
        ]
    );
    assert_eq!(
        fan_in(EventScope::BayAndDevice(bay)),
        vec![GenericUpdate::Bay(bay), GenericUpdate::Device(DEVICE)]
    );
}

#[test]
fn an_event_a_handler_does_not_name_still_fires_the_generic_update() {
    let event = Event::Device { device: DEVICE, change: DeviceEvent::MonitoringPulse };
    assert_eq!(
        deliveries(&event),
        vec![Delivery::Own, Delivery::Generic(GenericUpdate::Device(DEVICE))],
        "the default no-op must not swallow the fan-in"
    );
}

#[test]
fn a_write_back_reports_the_change_on_the_bay_it_addressed() {
    let bay = BayUid::new(DEVICE, 4);
    assert_eq!(
        written_event(WriteBack::UserName { bay, name: "Kitchen".to_owned() }),
        Some(Event::Bay { bay, change: BayEvent::NameChanged { name: "Kitchen".to_owned() } })
    );
    assert_eq!(
        written_event(WriteBack::Power { bay, power: PowerStatus::Off }),
        Some(Event::Bay { bay, change: BayEvent::PowerChanged { power: PowerStatus::Off } })
    );
    assert_eq!(written_event(WriteBack::Rebooting { device: DEVICE }), None);
}
