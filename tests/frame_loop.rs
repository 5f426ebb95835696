use vk_triangle::frame::{run, FrameLoop, LoopAction, LoopEvent, Phase};
use vk_triangle::lifecycle::{creation_order, teardown_order, Resource};
use vk_triangle::RunError;

fn created_all() -> Vec<LoopEvent> {
    vec![LoopEvent::Created; 10]
}

fn one_frame(image: u32) -> Vec<LoopEvent> {
    vec![
        LoopEvent::Redraw,
        LoopEvent::FenceSignaled,
        LoopEvent::FenceReset,
        LoopEvent::ImageAcquired(image),
        LoopEvent::Recorded,
        LoopEvent::Submitted,
        LoopEvent::Presented,
    ]
}

fn release_actions() -> Vec<LoopAction> {
    teardown_order().into_iter().map(LoopAction::Release).collect()
}

#[test]
fn creation_and_teardown_orders_are_reverses() {
    let created = creation_order();
    assert_eq!(created[0], Resource::Instance);
    assert_eq!(created[9], Resource::Sync);
    let mut reversed = created.clone();
    reversed.reverse();
    assert_eq!(teardown_order(), reversed);
    assert_eq!(
        teardown_order(),
        vec![
            Resource::Sync,
            Resource::CommandPool,
            Resource::Framebuffers,
            Resource::Pipeline,
            Resource::RenderPass,
            Resource::Swapchain,
            Resource::Device,
            Resource::Surface,
            Resource::Debug,
            Resource::Instance,
        ]
    );
}

#[test]
fn bootstrap_creates_in_order() {
    let actions = run(&created_all());
    let expected: Vec<LoopAction> = creation_order()
        .into_iter()
        .map(LoopAction::Create)
        .chain(std::iter::once(LoopAction::Nothing))
        .collect();
    assert_eq!(actions, expected);
}

#[test]
fn frame_runs_wait_reset_acquire_record_submit_present() {
    let mut events = created_all();
    events.extend(one_frame(2));
    let actions = run(&events);
    assert_eq!(
        actions[11..].to_vec(),
        vec![
            LoopAction::WaitForFence,
            LoopAction::ResetFence,
            LoopAction::AcquireImage,
            LoopAction::Record(2),
            LoopAction::Submit,
            LoopAction::Present(2),
            LoopAction::Nothing,
        ]
    );
}

#[test]
fn fence_is_waited_and_reset_once_before_every_record() {
    let mut events = created_all();
    events.extend(one_frame(0));
    events.extend(one_frame(1));
    events.extend(one_frame(0));
    let actions = run(&events);
    let mut waited = false;
    let mut resets_since_submit = 0;
    for a in actions {
        match a {
            LoopAction::WaitForFence => waited = true,
            LoopAction::ResetFence => {
                assert!(waited);
                resets_since_submit += 1;
                assert_eq!(resets_since_submit, 1);
            }
            LoopAction::Record(_) => {
                assert!(waited);
                assert_eq!(resets_since_submit, 1);
            }
            LoopAction::Submit => {
                resets_since_submit = 0;
                waited = false;
            }
            _ => {}
        }
    }
}

#[test]
fn first_frame_fence_starts_signaled_and_later_frames_wait_for_gpu() {
    let (mut m, first) = FrameLoop::new();
    assert_eq!(first, LoopAction::Create(Resource::Instance));
    for _ in 0..10 {
        m.tick(LoopEvent::Created);
    }
    assert_eq!(m.phase, Phase::Idle);
    assert!(m.fence_signaled);
    assert!(!m.gpu_busy);
    for e in one_frame(0) {
        m.tick(e);
    }
    assert_eq!(m.phase, Phase::Idle);
    assert!(!m.fence_signaled);
    assert!(m.gpu_busy);
}

#[test]
fn out_of_order_events_are_ignored() {
    let (mut m, _) = FrameLoop::new();
    for _ in 0..10 {
        m.tick(LoopEvent::Created);
    }
    let before = m;
    assert_eq!(m.tick(LoopEvent::Recorded), LoopAction::Nothing);
    assert_eq!(m.tick(LoopEvent::ImageAcquired(1)), LoopAction::Nothing);
    assert_eq!(m, before);
}

#[test]
fn close_mid_loop_drains_then_releases_in_reverse_order() {
    let mut events = created_all();
    events.extend(one_frame(0));
    events.extend(vec![
        LoopEvent::Redraw,
        LoopEvent::FenceSignaled,
        LoopEvent::CloseRequested,
        LoopEvent::FenceReset,
        LoopEvent::ImageAcquired(1),
        LoopEvent::Recorded,
        LoopEvent::DeviceIdle,
    ]);
    events.extend(vec![LoopEvent::Released; 10]);
    let actions = run(&events);
    let tail = actions[18..].to_vec();
    let mut expected = vec![
        LoopAction::WaitForFence,
        LoopAction::ResetFence,
        LoopAction::WaitDeviceIdle,
        LoopAction::Nothing,
        LoopAction::Nothing,
        LoopAction::Nothing,
    ];
    expected.extend(release_actions());
    expected.push(LoopAction::Exit);
    assert_eq!(tail, expected);
    for a in &actions[20..] {
        assert!(!matches!(a, LoopAction::Record(_) | LoopAction::Submit | LoopAction::Present(_)));
    }
}

#[test]
fn close_between_frames_finishes_cleanly() {
    let (mut m, _) = FrameLoop::new();
    for _ in 0..10 {
        m.tick(LoopEvent::Created);
    }
    assert_eq!(m.tick(LoopEvent::CloseRequested), LoopAction::WaitDeviceIdle);
    assert_eq!(m.tick(LoopEvent::Redraw), LoopAction::Nothing);
    let mut released = vec![m.tick(LoopEvent::DeviceIdle)];
    for _ in 0..10 {
        released.push(m.tick(LoopEvent::Released));
    }
    let mut expected = release_actions();
    expected.push(LoopAction::Exit);
    assert_eq!(released, expected);
    assert!(m.is_finished());
    assert_eq!(m.outcome(), Ok(()));
    assert_eq!(m.tick(LoopEvent::Redraw), LoopAction::Nothing);
}

#[test]
fn failed_creation_releases_what_exists() {
    let (mut m, _) = FrameLoop::new();
    for _ in 0..3 {
        m.tick(LoopEvent::Created);
    }
    // Instance, Debug and Surface exist; the device fails.
    let a = m.tick(LoopEvent::Failed(RunError::NoSuitableDevice));
    assert_eq!(a, LoopAction::Release(Resource::Surface));
    assert_eq!(m.tick(LoopEvent::Released), LoopAction::Release(Resource::Debug));
    assert_eq!(m.tick(LoopEvent::Released), LoopAction::Release(Resource::Instance));
    assert_eq!(m.tick(LoopEvent::Released), LoopAction::Exit);
    assert_eq!(m.outcome(), Err(RunError::NoSuitableDevice));
}

#[test]
fn failed_entry_loading_exits_at_once() {
    let (mut m, _) = FrameLoop::new();
    assert_eq!(m.tick(LoopEvent::Failed(RunError::AshEntryError)), LoopAction::Exit);
    assert!(m.is_finished());
    assert_eq!(m.outcome(), Err(RunError::AshEntryError));
}

#[test]
fn failure_mid_frame_drains_and_keeps_first_error() {
    let (mut m, _) = FrameLoop::new();
    for _ in 0..10 {
        m.tick(LoopEvent::Created);
    }
    m.tick(LoopEvent::Redraw);
    m.tick(LoopEvent::FenceSignaled);
    m.tick(LoopEvent::FenceReset);
    let a = m.tick(LoopEvent::Failed(RunError::VulkanResult(-1000001004)));
    assert_eq!(a, LoopAction::WaitDeviceIdle);
    let a = m.tick(LoopEvent::Failed(RunError::VulkanResult(-4)));
    assert_eq!(a, LoopAction::Release(Resource::Sync));
    assert_eq!(m.outcome(), Err(RunError::VulkanResult(-1000001004)));
}

#[test]
fn close_during_creation_skips_the_drain() {
    let (mut m, _) = FrameLoop::new();
    // The instance exists; the messenger has been asked for but not reported.
    assert_eq!(m.tick(LoopEvent::Created), LoopAction::Create(Resource::Debug));
    assert_eq!(m.tick(LoopEvent::CloseRequested), LoopAction::Release(Resource::Instance));
    assert_eq!(m.tick(LoopEvent::Released), LoopAction::Exit);
}
