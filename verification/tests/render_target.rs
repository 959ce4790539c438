use beatsmr::render_target::{
    check_render_size, dispatch_groups, preview_visible, RenderSizeError, RenderTarget,
    ResourceStep, SyncPlan,
};

#[test]
fn dispatch_groups_round_up() {
    assert_eq!(dispatch_groups(0, 0), (0, 0));
    assert_eq!(dispatch_groups(1, 8), (1, 1));
    assert_eq!(dispatch_groups(512, 513), (64, 65));
    assert_eq!(dispatch_groups(1152, 648), (144, 81));
    assert_eq!(dispatch_groups(u32::MAX, 9), (536_870_912, 2));
}

#[test]
fn preview_visibility() {
    assert!(preview_visible(false, true, false));
    assert!(preview_visible(true, false, false));
    assert!(preview_visible(true, true, true));
    assert!(!preview_visible(true, true, false));
}

#[test]
fn render_size_from_settings() {
    assert_eq!(check_render_size(Some(1152), Some(648)), Ok((1152, 648)));
    assert_eq!(check_render_size(None, None), Err(RenderSizeError::WidthNotInteger));
    assert_eq!(check_render_size(Some(10), None), Err(RenderSizeError::HeightNotInteger));
    assert_eq!(
        check_render_size(Some(0), Some(5)),
        Err(RenderSizeError::NotPositive { width: 0, height: 5 })
    );
    assert_eq!(
        check_render_size(Some(5), Some(-3)),
        Err(RenderSizeError::NotPositive { width: 5, height: -3 })
    );
}

fn plan(log_waiting: bool, log_size_received: bool, log_resized: bool, step: ResourceStep) -> SyncPlan {
    SyncPlan { log_waiting, log_size_received, log_resized, step }
}

#[test]
fn first_sync_waits_then_adopts_size() {
    let mut target = RenderTarget::new();
    assert_eq!(target.sync_size(0, 0, false, false), plan(true, false, false, ResourceStep::Wait));
    assert_eq!(target.sync_size(2, 100, false, false), plan(false, false, false, ResourceStep::Wait));
    assert_eq!(target, RenderTarget { width: 0, height: 0, logged_waiting_for_size: true });

    assert_eq!(
        target.sync_size(1152, 648, false, false),
        plan(false, true, true, ResourceStep::Recreate)
    );
    assert_eq!(target, RenderTarget { width: 1152, height: 648, logged_waiting_for_size: false });
}

#[test]
fn steady_size_creates_missing_then_keeps() {
    let mut target = RenderTarget { width: 640, height: 480, logged_waiting_for_size: false };
    assert_eq!(target.sync_size(640, 480, false, false), plan(false, false, false, ResourceStep::CreateMissing));
    assert_eq!(target.sync_size(640, 480, true, false), plan(false, false, false, ResourceStep::AttachPreview));
    assert_eq!(target.sync_size(640, 480, true, true), plan(false, false, false, ResourceStep::Keep));
    assert_eq!(target.sync_size(641, 480, true, true), plan(false, false, true, ResourceStep::Recreate));
    assert_eq!(target.width, 641);
}
