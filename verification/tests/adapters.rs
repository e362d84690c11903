use adamant::adapter::{get_adapter, select_adapter_by_gpu_preference, select_adapter_by_memory,
    AdapterInfo};

fn hardware(memory: u64) -> AdapterInfo {
    AdapterInfo {
        is_software: false,
        dedicated_video_memory: memory,
        supports_min_feature_level: true,
    }
}

fn software() -> AdapterInfo {
    AdapterInfo {
        is_software: true,
        dedicated_video_memory: 0,
        supports_min_feature_level: true,
    }
}

fn too_old(memory: u64) -> AdapterInfo {
    AdapterInfo {
        is_software: false,
        dedicated_video_memory: memory,
        supports_min_feature_level: false,
    }
}

#[test]
fn preference_order_takes_the_first_capable_hardware_adapter() {
    let adapters = vec![software(), too_old(8_000_000), hardware(2_000_000), hardware(16_000_000)];
    assert_eq!(select_adapter_by_gpu_preference(&adapters), Some(2));
}

#[test]
fn memory_order_takes_the_largest_capable_hardware_adapter() {
    let adapters = vec![hardware(2_000_000), software(), hardware(16_000_000), too_old(32_000_000)];
    assert_eq!(select_adapter_by_memory(&adapters), Some(2));
}

#[test]
fn memory_ties_go_to_the_earliest_adapter() {
    let adapters = vec![too_old(1), hardware(8), hardware(8)];
    assert_eq!(select_adapter_by_memory(&adapters), Some(1));
}

#[test]
fn no_capable_adapter_is_reported() {
    let adapters = vec![software(), too_old(4)];
    assert_eq!(select_adapter_by_gpu_preference(&adapters), None);
    assert_eq!(select_adapter_by_memory(&adapters), None);
    assert_eq!(get_adapter(&adapters, true), None);
    assert_eq!(get_adapter(&adapters, false), None);
}

#[test]
fn get_adapter_follows_the_available_strategy() {
    let adapters = vec![hardware(4), hardware(100)];
    assert_eq!(get_adapter(&adapters, true), Some(0));
    assert_eq!(get_adapter(&adapters, false), Some(1));
}
