use vk_backend::device::BackendError;
use vk_backend::device::Capabilities;
use vk_backend::device::CommandBuffer;
use vk_backend::device::Device;
use vk_backend::device::SubmitInfo;
use vk_backend::device::PHYS_DEVICE_MAX_ENUM;
use vk_backend::native::NativeLayer;
use vk_backend::native::ReleaseEvent;
use vk_backend::native::WaitOutcome;
use vk_backend::resources::binding;
use vk_backend::resources::BoundType;
use vk_backend::resources::Fence;
use vk_backend::resources::ResourceKind;
use vk_backend::VkResult;

fn healthy_layer(queue_count: usize) -> NativeLayer {
    NativeLayer::new(0, 1, 0, vec![11], 0, 1, 0, false, queue_count)
}

#[test]
fn status_known_codes() {
    assert_eq!(VkResult::from_i32(0), VkResult::VK_SUCCESS);
    assert_eq!(VkResult::from_i32(1), VkResult::VK_NOT_READY);
    assert_eq!(VkResult::from_i32(2), VkResult::VK_TIMEOUT);
    assert_eq!(VkResult::from_i32(3), VkResult::VK_EVENT_SET);
    assert_eq!(VkResult::from_i32(4), VkResult::VK_EVENT_RESET);
    assert_eq!(VkResult::from_i32(5), VkResult::VK_INCOMPLETE);
    assert_eq!(VkResult::from_i32(-1), VkResult::VK_ERROR_OUT_OF_HOST_MEMORY);
    assert_eq!(VkResult::from_i32(-2), VkResult::VK_ERROR_OUT_OF_DEVICE_MEMORY);
    assert_eq!(VkResult::from_i32(-3), VkResult::VK_ERROR_INITIALIZATION_FAILED);
    assert_eq!(VkResult::from_i32(-4), VkResult::VK_ERROR_DEVICE_LOST);
    assert_eq!(VkResult::from_i32(-5), VkResult::VK_ERROR_MEMORY_MAP_FAILED);
    assert_eq!(VkResult::from_i32(-6), VkResult::VK_ERROR_LAYER_NOT_PRESENT);
    assert_eq!(VkResult::from_i32(-7), VkResult::VK_ERROR_EXTENSION_NOT_PRESENT);
    assert_eq!(VkResult::from_i32(-8), VkResult::VK_ERROR_FEATURE_NOT_PRESENT);
    assert_eq!(VkResult::from_i32(-9), VkResult::VK_ERROR_INCOMPATIBLE_DRIVER);
    assert_eq!(VkResult::from_i32(-10), VkResult::VK_ERROR_TOO_MANY_OBJECTS);
    assert_eq!(VkResult::from_i32(-11), VkResult::VK_ERROR_FORMAT_NOT_SUPPORTED);
}

#[test]
fn status_unknown_codes_map_to_catch_all() {
    assert_eq!(VkResult::from_i32(6), VkResult::INTERNAL_ERROR_BAD_VK_RESULT);
    assert_eq!(VkResult::from_i32(7), VkResult::INTERNAL_ERROR_BAD_VK_RESULT);
    assert_eq!(VkResult::from_i32(100), VkResult::INTERNAL_ERROR_BAD_VK_RESULT);
    assert_eq!(VkResult::from_i32(-12), VkResult::INTERNAL_ERROR_BAD_VK_RESULT);
    assert_eq!(VkResult::from_i32(i32::MAX), VkResult::INTERNAL_ERROR_BAD_VK_RESULT);
    assert_eq!(VkResult::from_i32(i32::MIN), VkResult::INTERNAL_ERROR_BAD_VK_RESULT);
}

#[test]
fn status_error_classification() {
    assert!(!VkResult::VK_SUCCESS.is_error());
    assert!(!VkResult::VK_NOT_READY.is_error());
    assert!(!VkResult::VK_TIMEOUT.is_error());
    assert!(!VkResult::VK_SUBOPTIMAL_KHR.is_error());
    assert!(VkResult::VK_ERROR_OUT_OF_HOST_MEMORY.is_error());
    assert!(VkResult::VK_ERROR_DEVICE_LOST.is_error());
    assert!(VkResult::VK_ERROR_VALIDATION_FAILED_EXT.is_error());
    assert!(VkResult::INTERNAL_ERROR_BAD_VK_RESULT.is_error());
}

#[test]
fn binding_is_total() {
    assert_eq!(binding(ResourceKind::Buffer), BoundType::BufferObject);
    assert_eq!(binding(ResourceKind::Shader), BoundType::ShaderModule);
    assert_eq!(binding(ResourceKind::Program), BoundType::ShaderModule);
    assert_eq!(binding(ResourceKind::PipelineStateObject), BoundType::PipelineStateObject);
    assert_eq!(binding(ResourceKind::Texture), BoundType::TextureImage);
    assert_eq!(binding(ResourceKind::RenderTargetView), BoundType::TargetView);
    assert_eq!(binding(ResourceKind::DepthStencilView), BoundType::TargetView);
    assert_eq!(binding(ResourceKind::ShaderResourceView), BoundType::ResourceView);
    assert_eq!(binding(ResourceKind::UnorderedAccessView), BoundType::EmptyPlaceholder);
    assert_eq!(binding(ResourceKind::Sampler), BoundType::SamplerState);
    assert_eq!(binding(ResourceKind::Fence), BoundType::FenceObject);
}

#[test]
fn binding_view_kinds_alias_one_type() {
    assert_eq!(
        binding(ResourceKind::RenderTargetView),
        binding(ResourceKind::DepthStencilView)
    );
    assert_eq!(binding(ResourceKind::Shader), binding(ResourceKind::Program));
}

#[test]
fn bootstrap_success_yields_device_and_default_limits() {
    let mut native = healthy_layer(1);
    let device = Device::new(&mut native).expect("bootstrap should succeed");
    assert_eq!(device.instance, 1);
    assert_eq!(device.device, 1);
    assert!(device.alive);
    let caps: &Capabilities = device.get_capabilities();
    assert_eq!(caps.max_physical_devices, PHYS_DEVICE_MAX_ENUM);
    assert!(!caps.supports_unordered_access_views);
    assert_eq!(native.live_instances, vec![1]);
    assert_eq!(native.live_devices, vec![1]);
    assert!(native.releases.is_empty());
}

#[test]
fn bootstrap_instance_error_propagates_and_leaves_nothing() {
    let mut native = NativeLayer::new(-3, 1, 0, vec![11], 0, 1, 0, false, 1);
    let r = Device::new(&mut native);
    assert_eq!(
        r.err(),
        Some(BackendError::Native(VkResult::VK_ERROR_INITIALIZATION_FAILED))
    );
    assert!(native.live_instances.is_empty());
    assert!(native.live_devices.is_empty());
    assert!(native.releases.is_empty());
}

#[test]
fn bootstrap_device_error_releases_instance() {
    let mut native = NativeLayer::new(0, 7, 0, vec![11], -4, 9, 0, false, 1);
    let r = Device::new(&mut native);
    assert_eq!(r.err(), Some(BackendError::Native(VkResult::VK_ERROR_DEVICE_LOST)));
    assert!(native.live_instances.is_empty());
    assert!(native.live_devices.is_empty());
    assert_eq!(native.releases, vec![ReleaseEvent::Instance(7)]);
}

#[test]
fn bootstrap_enumeration_error_releases_instance() {
    let mut native = NativeLayer::new(0, 7, -1, vec![11], 0, 9, 0, false, 1);
    let r = Device::new(&mut native);
    assert_eq!(
        r.err(),
        Some(BackendError::Native(VkResult::VK_ERROR_OUT_OF_HOST_MEMORY))
    );
    assert!(native.live_instances.is_empty());
    assert_eq!(native.releases, vec![ReleaseEvent::Instance(7)]);
}

#[test]
fn bootstrap_rejects_enumeration_beyond_reserved_maximum() {
    let phys: Vec<u64> = (1..=9).collect();
    let mut native = NativeLayer::new(0, 1, 0, phys, 0, 1, 0, false, 1);
    let r = Device::new(&mut native);
    assert_eq!(r.err(), Some(BackendError::TooManyPhysicalDevices(9)));
    assert!(native.live_instances.is_empty());
}

#[test]
fn bootstrap_rejects_empty_enumeration() {
    let mut native = NativeLayer::new(0, 1, 0, vec![], 0, 1, 0, false, 1);
    let r = Device::new(&mut native);
    assert_eq!(r.err(), Some(BackendError::NoPhysicalDevice));
    assert!(native.live_instances.is_empty());
}

#[test]
fn bootstrap_unrecognized_code_is_an_error_not_success() {
    let mut native = NativeLayer::new(7, 1, 0, vec![11], 0, 1, 0, false, 1);
    let r = Device::new(&mut native);
    assert_eq!(
        r.err(),
        Some(BackendError::Native(VkResult::INTERNAL_ERROR_BAD_VK_RESULT))
    );
    assert!(native.live_instances.is_empty());
}

#[test]
fn fence_unsignaled_until_completion() {
    let mut native = healthy_layer(1);
    let mut device = Device::new(&mut native).expect("bootstrap should succeed");
    let fence: Fence = device.create_fence(&mut native, false);
    assert!(!device.poll_fence(&native, fence));
    assert_eq!(device.wait_fence(&native, fence, 0), WaitOutcome::TimedOut);
    let info = SubmitInfo {
        queue: 0,
        command_buffers: vec![CommandBuffer(100)],
        wait_fences: vec![],
        signal_fence: Some(fence),
    };
    device.submit(&mut native, &info).expect("submission should be accepted");
    assert!(!device.poll_fence(&native, fence));
    assert_eq!(device.wait_fence(&native, fence, 0), WaitOutcome::TimedOut);
    assert_eq!(device.wait_fence(&native, fence, 1_000_000), WaitOutcome::TimedOut);
    native.signal_next();
    assert!(device.poll_fence(&native, fence));
    assert_eq!(device.wait_fence(&native, fence, 0), WaitOutcome::Signaled);
    native.reset_fence(fence);
    assert!(!device.poll_fence(&native, fence));
}

#[test]
fn fence_created_signaled_reports_signaled() {
    let mut native = healthy_layer(1);
    let device = Device::new(&mut native).expect("bootstrap should succeed");
    let fence = device.create_fence(&mut native, true);
    assert!(device.poll_fence(&native, fence));
    assert_eq!(device.wait_fence(&native, fence, 0), WaitOutcome::Signaled);
}

#[test]
fn one_submission_executes_in_submission_order() {
    let mut native = healthy_layer(1);
    let mut device = Device::new(&mut native).expect("bootstrap should succeed");
    let info = SubmitInfo {
        queue: 0,
        command_buffers: vec![CommandBuffer(100), CommandBuffer(200)],
        wait_fences: vec![],
        signal_fence: None,
    };
    device.submit(&mut native, &info).expect("submission should be accepted");
    let (cb_first, ts_first) = native.execute_next(0);
    let (cb_second, ts_second) = native.execute_next(0);
    assert_eq!(cb_first, 100);
    assert_eq!(cb_second, 200);
    assert!(ts_first < ts_second);
}

#[test]
fn independent_submissions_have_no_guaranteed_order() {
    // The same two submissions on two queues, executed in either order: both
    // relative timestamp orders are reachable, so nothing orders them but an
    // explicit dependency.
    let mut first = healthy_layer(2);
    let mut device_first = Device::new(&mut first).expect("bootstrap should succeed");
    let batch_a = SubmitInfo {
        queue: 0,
        command_buffers: vec![CommandBuffer(100)],
        wait_fences: vec![],
        signal_fence: None,
    };
    let batch_b = SubmitInfo {
        queue: 1,
        command_buffers: vec![CommandBuffer(200)],
        wait_fences: vec![],
        signal_fence: None,
    };
    device_first.submit(&mut first, &batch_a).expect("accepted");
    device_first.submit(&mut first, &batch_b).expect("accepted");
    let (_, ts_a) = first.execute_next(0);
    let (_, ts_b) = first.execute_next(1);
    assert!(ts_a < ts_b);

    let mut second = healthy_layer(2);
    let mut device_second = Device::new(&mut second).expect("bootstrap should succeed");
    let batch_a = SubmitInfo {
        queue: 0,
        command_buffers: vec![CommandBuffer(100)],
        wait_fences: vec![],
        signal_fence: None,
    };
    let batch_b = SubmitInfo {
        queue: 1,
        command_buffers: vec![CommandBuffer(200)],
        wait_fences: vec![],
        signal_fence: None,
    };
    device_second.submit(&mut second, &batch_a).expect("accepted");
    device_second.submit(&mut second, &batch_b).expect("accepted");
    let (_, ts_b) = second.execute_next(1);
    let (_, ts_a) = second.execute_next(0);
    assert!(ts_b < ts_a);
}

#[test]
fn rejected_submission_records_nothing() {
    let mut native = NativeLayer::new(0, 1, 0, vec![11], 0, 1, -10, false, 1);
    let mut device = Device::new(&mut native).expect("bootstrap should succeed");
    let fence = device.create_fence(&mut native, false);
    let info = SubmitInfo {
        queue: 0,
        command_buffers: vec![CommandBuffer(100)],
        wait_fences: vec![],
        signal_fence: Some(fence),
    };
    let r = device.submit(&mut native, &info);
    assert_eq!(
        r.err(),
        Some(BackendError::Native(VkResult::VK_ERROR_TOO_MANY_OBJECTS))
    );
    assert!(native.queues[0].accepted.is_empty());
    assert!(native.pending_signals.is_empty());
    assert!(!device.poll_fence(&native, fence));
    // The device stays usable after a rejected submission.
    assert!(device.alive);
}

#[test]
fn lost_device_rejects_submission_and_wait_reports_loss() {
    let mut native = NativeLayer::new(0, 1, 0, vec![11], 0, 1, 0, true, 1);
    let mut device = Device::new(&mut native).expect("bootstrap should succeed");
    let fence = device.create_fence(&mut native, false);
    let info = SubmitInfo {
        queue: 0,
        command_buffers: vec![CommandBuffer(100)],
        wait_fences: vec![],
        signal_fence: Some(fence),
    };
    let r = device.submit(&mut native, &info);
    assert_eq!(r.err(), Some(BackendError::Native(VkResult::VK_ERROR_DEVICE_LOST)));
    assert!(native.queues[0].accepted.is_empty());
    assert_eq!(device.wait_fence(&native, fence, 0), WaitOutcome::DeviceLost);
}

#[test]
fn reset_state_restores_baseline() {
    let mut native = healthy_layer(1);
    let mut device = Device::new(&mut native).expect("bootstrap should succeed");
    assert!(device.at_baseline);
    let info = SubmitInfo {
        queue: 0,
        command_buffers: vec![CommandBuffer(100)],
        wait_fences: vec![],
        signal_fence: None,
    };
    device.submit(&mut native, &info).expect("accepted");
    assert!(!device.at_baseline);
    device.reset_state();
    assert!(device.at_baseline);
}

#[test]
fn cleanup_releases_in_reverse_creation_order() {
    let mut native = NativeLayer::new(0, 7, 0, vec![11], 0, 9, 0, false, 1);
    let mut device = Device::new(&mut native).expect("bootstrap should succeed");
    device.cleanup(&mut native);
    assert!(!device.alive);
    assert!(native.live_devices.is_empty());
    assert!(native.live_instances.is_empty());
    assert_eq!(
        native.releases,
        vec![ReleaseEvent::Device(9), ReleaseEvent::Instance(7)]
    );
}

#[test]
fn fences_are_plain_copyable_values() {
    let fence = Fence(5);
    let copy = fence;
    assert_eq!(fence, copy);
    assert_eq!(fence.0, 5);
}
