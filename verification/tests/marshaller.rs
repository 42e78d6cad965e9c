use lib::dispatcher::ChannelDispatcher;
use lib::marshaller::{MarshallerIds, UiMarshaller};

#[test]
fn marshaller_ids_start_at_one_and_increase() {
    let mut ids = MarshallerIds::new();
    let a = UiMarshaller::new(ChannelDispatcher::<u8>::new(), &mut ids);
    let b = UiMarshaller::new(ChannelDispatcher::<u8>::new(), &mut ids);
    assert_eq!(a.id(), 1);
    assert_eq!(b.id(), 2);
    assert_eq!(ids.allocate(), 3);
}

#[test]
fn cloned_marshaller_keeps_its_id() {
    let mut ids = MarshallerIds::new();
    let a = UiMarshaller::new(ChannelDispatcher::<u8>::new(), &mut ids);
    let _ = a.id();
    let mut ids2 = MarshallerIds::new();
    let b = UiMarshaller::new(5u8, &mut ids2);
    let c = b.clone();
    assert_eq!(c.id(), b.id());
}

#[test]
fn dispatch_and_dispatch_low_are_accepted_by_the_channel() {
    let mut ids = MarshallerIds::new();
    let mut m = UiMarshaller::new(ChannelDispatcher::<&'static str>::new(), &mut ids);
    assert!(m.dispatch_low("later"));
    assert!(m.dispatch("soon"));
    assert_eq!(m.id(), 1);
}
