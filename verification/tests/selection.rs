use amethyst::device::{
    select_adapter, AdapterInfo, DeviceError, DeviceQueueInfo, DeviceType, QueueFamilyInfo,
    RenderDevice,
};

fn family(graphics: bool, compute: bool, transfer: bool, present: bool) -> QueueFamilyInfo {
    QueueFamilyInfo { graphics, compute, transfer, present }
}

fn adapter(device_type: DeviceType, suitable: bool) -> AdapterInfo {
    AdapterInfo {
        device_type,
        supports_required_extensions: suitable,
        families: vec![family(true, true, true, true)],
    }
}

#[test]
fn discrete_gpu_is_preferred() {
    let adapters = vec![
        adapter(DeviceType::IntegratedGpu, true),
        adapter(DeviceType::DiscreteGpu, true),
        adapter(DeviceType::VirtualGpu, true),
    ];
    assert_eq!(select_adapter(&adapters), Ok(1));
}

#[test]
fn unsuitable_discrete_gpu_is_skipped() {
    let adapters = vec![
        adapter(DeviceType::DiscreteGpu, false),
        adapter(DeviceType::IntegratedGpu, true),
    ];
    assert_eq!(select_adapter(&adapters), Ok(1));
}

#[test]
fn first_of_equal_rank_wins() {
    let adapters = vec![
        adapter(DeviceType::IntegratedGpu, true),
        adapter(DeviceType::IntegratedGpu, true),
    ];
    assert_eq!(select_adapter(&adapters), Ok(0));
}

#[test]
fn no_suitable_adapter_is_fatal() {
    let adapters = vec![adapter(DeviceType::DiscreteGpu, false)];
    assert_eq!(select_adapter(&adapters), Err(DeviceError::NoSuitableAdapter));
    assert_eq!(select_adapter(&Vec::new()), Err(DeviceError::NoSuitableAdapter));
}

#[test]
fn queue_discovery_finds_first_main_family() {
    let families = vec![
        family(true, false, true, false),
        family(true, true, true, false),
        family(true, true, true, true),
    ];
    let queues = DeviceQueueInfo::new(&families).expect("a main family exists");
    assert_eq!(queues.main_family(), 1);
    assert_eq!(queues.present_family(), 2);
}

#[test]
fn queue_discovery_without_main_family_fails() {
    let families = vec![family(true, false, true, true)];
    assert_eq!(DeviceQueueInfo::new(&families), Err(DeviceError::NoMainQueueFamily));
}

#[test]
fn queue_discovery_without_present_family_fails() {
    let families = vec![family(true, true, true, false)];
    assert_eq!(DeviceQueueInfo::new(&families), Err(DeviceError::NoPresentQueueFamily));
}

#[test]
fn async_families_avoid_the_main_family() {
    let families = vec![
        family(true, true, true, true),
        family(false, false, true, false),
        family(false, true, true, false),
    ];
    let queues = DeviceQueueInfo::new(&families).unwrap();
    assert_eq!(queues.main_family(), 0);
    assert_eq!(queues.async_transfer_family(), Some(1));
    assert_eq!(queues.async_compute_family(), Some(2));
    assert!(queues.has_async_transfer());
    assert!(queues.has_async_compute());
    assert!(queues.has_separate_async_compute_transfer());
}

#[test]
fn single_family_device_has_no_async_queues() {
    let families = vec![family(true, true, true, true)];
    let queues = DeviceQueueInfo::new(&families).unwrap();
    assert_eq!(queues.async_transfer_family(), None);
    assert_eq!(queues.async_compute_family(), None);
    assert!(!queues.has_async_transfer());
    assert!(!queues.has_async_compute());
    assert!(!queues.has_separate_async_compute_transfer());
}

#[test]
fn pick_best_opens_the_best_adapter() {
    let adapters = vec![
        adapter(DeviceType::VirtualGpu, true),
        adapter(DeviceType::DiscreteGpu, true),
    ];
    let device = RenderDevice::pick_best(adapters).expect("a suitable adapter exists");
    assert_eq!(device.adapter.device_type, DeviceType::DiscreteGpu);
    assert_eq!(device.queues_info().main_family(), 0);
    assert_eq!(device.graphic_queue().family_index().0, 0);
}

#[test]
fn pick_best_fails_without_adapters() {
    assert!(matches!(
        RenderDevice::pick_best(Vec::new()),
        Err(DeviceError::NoSuitableAdapter)
    ));
}
