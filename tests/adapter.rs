use nexg::{
    enumerate_connecters, get_queue_family_properties, request_connecter, request_connecters,
    DeviceConnecter, NxError, QueueFamilyProperties, RequestConnecterDescriptor,
    QUEUE_COMPUTE_BIT, QUEUE_GRAPHICS_BIT, QUEUE_TRANSFER_BIT,
};

fn fam(g: bool, c: bool, t: bool) -> QueueFamilyProperties {
    QueueFamilyProperties::new(g, c, t, 1)
}

#[test]
fn request_picks_first_exact_match_in_enumeration_order() {
    let table = vec![
        vec![fam(true, false, true), fam(true, true, false)],
        vec![fam(false, false, true), fam(true, true, true), fam(true, true, true)],
    ];
    let r = request_connecter(&table, &RequestConnecterDescriptor::new()).unwrap();
    assert_eq!(r, DeviceConnecter::new(1, 1));
}

#[test]
fn request_matches_exactly_not_at_least() {
    // A family with every capability does not answer a transfer-only request.
    let table = vec![vec![fam(true, true, true), fam(false, false, true)]];
    let d = RequestConnecterDescriptor::new().graphic_support(false).compute_support(false);
    let r = request_connecter(&table, &d).unwrap();
    assert_eq!(r.adapter(), 0);
    assert_eq!(r.queue_family(), 1);
}

#[test]
fn request_prefers_earlier_adapter() {
    let table = vec![vec![fam(true, true, true)], vec![fam(true, true, true)]];
    let r = request_connecter(&table, &RequestConnecterDescriptor::default()).unwrap();
    assert_eq!(r, DeviceConnecter::new(0, 0));
}

#[test]
fn request_without_match_is_no_value() {
    let table = vec![vec![fam(true, false, false)], vec![fam(false, true, true)]];
    assert_eq!(request_connecter(&table, &RequestConnecterDescriptor::new()), Err(NxError::NoValue));
    let empty: Vec<Vec<QueueFamilyProperties>> = vec![];
    assert_eq!(request_connecter(&empty, &RequestConnecterDescriptor::new()), Err(NxError::NoValue));
}

#[test]
fn request_connecters_answers_each_request() {
    let table = vec![vec![fam(true, false, false), fam(true, true, true)]];
    let reqs = [
        RequestConnecterDescriptor::new(),
        RequestConnecterDescriptor::new().compute_support(false).transfer_support(false),
    ];
    let r = request_connecters(&table, &reqs).unwrap();
    assert_eq!(r, vec![DeviceConnecter::new(0, 1), DeviceConnecter::new(0, 0)]);
    let bad = [RequestConnecterDescriptor::new().graphic_support(false)];
    assert_eq!(request_connecters(&table, &bad), Err(NxError::NoValue));
}

#[test]
fn queue_family_from_driver_flags() {
    let p = QueueFamilyProperties::from_flags(QUEUE_GRAPHICS_BIT | QUEUE_TRANSFER_BIT, 16);
    assert!(p.is_graphic_support());
    assert!(!p.is_compute_support());
    assert!(p.is_transfer_support());
    assert_eq!(p.count(), 16);
    assert_eq!(QUEUE_GRAPHICS_BIT, ash::vk::QueueFlags::GRAPHICS.as_raw());
    assert_eq!(QUEUE_COMPUTE_BIT, ash::vk::QueueFlags::COMPUTE.as_raw());
    assert_eq!(QUEUE_TRANSFER_BIT, ash::vk::QueueFlags::TRANSFER.as_raw());
}

#[test]
fn enumeration_of_nothing_is_no_value() {
    assert_eq!(enumerate_connecters(0), Err(NxError::NoValue));
    let c = enumerate_connecters(2).unwrap();
    assert_eq!(c, vec![DeviceConnecter::new(0, 0), DeviceConnecter::new(1, 0)]);
    assert_eq!(get_queue_family_properties(&[]), Err(NxError::NoValue));
    let props = get_queue_family_properties(&[(7, 2), (2, 1)]).unwrap();
    assert_eq!(props, vec![QueueFamilyProperties::new(true, true, true, 2), QueueFamilyProperties::new(false, true, false, 1)]);
    assert_eq!(props[0].count(), 2);
}
