use vstd::prelude::*;

verus! {

/// Side of the square work-group that the compute shaders run on.
pub const WORKGROUP_SIDE: u32 = 8;

/// Number of work-groups of side `WORKGROUP_SIDE` that cover `extent`
/// pixels: the extent divided by the side, rounded up.
pub open spec fn groups_covering(extent: int) -> int {
    (extent + 7) / 8
}

/// Work-group counts along x and y for a `width` x `height` target.
pub fn dispatch_groups(width: u32, height: u32) -> (groups: (u32, u32))
    ensures
        groups.0 == groups_covering(width as int),
        groups.1 == groups_covering(height as int),
{
    let gx = width / WORKGROUP_SIDE + if width % WORKGROUP_SIDE != 0 { 1 } else { 0 };
    let gy = height / WORKGROUP_SIDE + if height % WORKGROUP_SIDE != 0 { 1 } else { 0 };
    (gx, gy)
}

/// The work-groups cover the extent with less than one group to spare:
/// `8 * g >= extent` and, when there is any group, `8 * (g - 1) < extent`.
pub proof fn law_groups_cover(extent: nat)
    ensures
        8 * groups_covering(extent as int) >= extent,
        groups_covering(extent as int) > 0 ==> 8 * (groups_covering(extent as int) - 1) < extent,
        extent == 0 ==> groups_covering(extent as int) == 0,
{
}

/// Whether the preview is shown: always in a running game; in the editor
/// until the editor has said whether the node is selected, and afterwards
/// only while it is selected.
pub fn preview_visible(in_editor: bool, selection_known: bool, selected: bool) -> (visible: bool)
    ensures
        visible == (!in_editor || !selection_known || selected),
{
    !in_editor || !selection_known || selected
}

/// Why the project settings give no render size.
#[derive(Debug, PartialEq, Eq, Structural)]
pub enum RenderSizeError {
    /// `display/window/size/viewport_width` is not an integer.
    WidthNotInteger,
    /// `display/window/size/viewport_height` is not an integer.
    HeightNotInteger,
    /// Both are integers, but one of them is zero or negative.
    NotPositive { width: i64, height: i64 },
}

/// The render size from the project's viewport width and height settings,
/// each given as `None` when the setting is not an integer. The width is
/// looked at first.
pub fn check_render_size(width: Option<i64>, height: Option<i64>) -> (size: Result<
    (i64, i64),
    RenderSizeError,
>)
    ensures
        size == match (width, height) {
            (None, _) => Err(RenderSizeError::WidthNotInteger),
            (Some(_), None) => Err(RenderSizeError::HeightNotInteger),
            (Some(w), Some(h)) => if w <= 0 || h <= 0 {
                Err(RenderSizeError::NotPositive { width: w, height: h })
            } else {
                Ok((w, h))
            },
        },
{
    let w = match width {
        Some(w) => w,
        None => {
            return Err(RenderSizeError::WidthNotInteger);
        },
    };
    let h = match height {
        Some(h) => h,
        None => {
            return Err(RenderSizeError::HeightNotInteger);
        },
    };
    if w <= 0 || h <= 0 {
        Err(RenderSizeError::NotPositive { width: w, height: h })
    } else {
        Ok((w, h))
    }
}

/// What the renderer does with its GPU resources on a size sync.
#[derive(Debug, PartialEq, Eq, Structural)]
pub enum ResourceStep {
    /// The size is not usable yet; nothing is touched.
    Wait,
    /// The size changed: drop the preview, recreate every resource, attach
    /// a new preview.
    Recreate,
    /// Some resource is missing: create the texture and the pipeline, and
    /// attach the preview.
    CreateMissing,
    /// Resources are in place but the preview node is gone: attach it.
    AttachPreview,
    /// Everything is in place.
    Keep,
}

/// The decisions of one size sync: which messages to log and what to do
/// with the resources.
#[derive(Debug, PartialEq, Eq, Structural)]
pub struct SyncPlan {
    /// Log that the renderer waits for a usable size.
    pub log_waiting: bool,
    /// Log that a usable size arrived after waiting.
    pub log_size_received: bool,
    /// Log that the render target takes a new size.
    pub log_resized: bool,
    pub step: ResourceStep,
}

/// The render target's size and whether the wait for a usable size has
/// been logged.
#[derive(Debug, PartialEq, Eq, Structural)]
pub struct RenderTarget {
    pub width: u32,
    pub height: u32,
    pub logged_waiting_for_size: bool,
}

/// A size is usable when both sides exceed two pixels.
pub open spec fn usable_size(width: u32, height: u32) -> bool {
    width > 2 && height > 2
}

/// The state after a size sync.
pub open spec fn synced_target(
    target: RenderTarget,
    new_width: u32,
    new_height: u32,
) -> RenderTarget {
    if !usable_size(new_width, new_height) {
        RenderTarget { logged_waiting_for_size: true, ..target }
    } else {
        RenderTarget { width: new_width, height: new_height, logged_waiting_for_size: false }
    }
}

/// The plan of a size sync.
pub open spec fn sync_plan(
    target: RenderTarget,
    new_width: u32,
    new_height: u32,
    resources_ready: bool,
    has_preview: bool,
) -> SyncPlan {
    if !usable_size(new_width, new_height) {
        SyncPlan {
            log_waiting: !target.logged_waiting_for_size,
            log_size_received: false,
            log_resized: false,
            step: ResourceStep::Wait,
        }
    } else {
        let resized = new_width != target.width || new_height != target.height;
        SyncPlan {
            log_waiting: false,
            log_size_received: target.logged_waiting_for_size,
            log_resized: resized,
            step: if resized {
                ResourceStep::Recreate
            } else if !resources_ready {
                ResourceStep::CreateMissing
            } else if !has_preview {
                ResourceStep::AttachPreview
            } else {
                ResourceStep::Keep
            },
        }
    }
}

impl RenderTarget {
    /// The state before the first sync: no size, nothing logged.
    pub fn new() -> (target: Self)
        ensures
            target == (RenderTarget { width: 0, height: 0, logged_waiting_for_size: false }),
    {
        RenderTarget { width: 0, height: 0, logged_waiting_for_size: false }
    }

    /// Takes the size the project settings give now (`new_width` x
    /// `new_height`), updates the target and says what to log and what to do
    /// with the resources, given whether they are all in place and whether
    /// the preview node exists.
    pub fn sync_size(
        &mut self,
        new_width: u32,
        new_height: u32,
        resources_ready: bool,
        has_preview: bool,
    ) -> (plan: SyncPlan)
        ensures
            *final(self) == synced_target(*old(self), new_width, new_height),
            plan == sync_plan(*old(self), new_width, new_height, resources_ready, has_preview),
            usable_size(new_width, new_height) && new_width == old(self).width && new_height
                == old(self).height && !resources_ready ==> plan.step == ResourceStep::CreateMissing,
            usable_size(new_width, new_height) && new_width == old(self).width && new_height
                == old(self).height && resources_ready && !has_preview ==> plan.step
                == ResourceStep::AttachPreview,
            plan.step == ResourceStep::Keep ==> resources_ready && has_preview,
            (plan.step == ResourceStep::Wait) == !usable_size(new_width, new_height),
    {
        if new_width <= 2 || new_height <= 2 {
            let log_waiting = !self.logged_waiting_for_size;
            self.logged_waiting_for_size = true;
            return SyncPlan {
                log_waiting,
                log_size_received: false,
                log_resized: false,
                step: ResourceStep::Wait,
            };
        }
        let log_size_received = self.logged_waiting_for_size;
        self.logged_waiting_for_size = false;

        let resized = new_width != self.width || new_height != self.height;
        if resized {
            self.width = new_width;
            self.height = new_height;
        }
        let step = if resized {
            ResourceStep::Recreate
        } else if !resources_ready {
            ResourceStep::CreateMissing
        } else if !has_preview {
            ResourceStep::AttachPreview
        } else {
            ResourceStep::Keep
        };
        SyncPlan { log_waiting: false, log_size_received, log_resized: resized, step }
    }
}

/// A usable size is adopted: after the sync the target has exactly that
/// size and no pending wait message.
pub proof fn law_usable_size_adopted(target: RenderTarget, new_width: u32, new_height: u32)
    requires
        usable_size(new_width, new_height),
    ensures
        synced_target(target, new_width, new_height) == (RenderTarget {
            width: new_width,
            height: new_height,
            logged_waiting_for_size: false,
        }),
{
}

/// An unusable size changes nothing but the wait flag, and the wait is
/// logged at most once: a second sync with an unusable size logs nothing
/// and leaves the target as the first left it.
pub proof fn law_wait_logged_once(
    target: RenderTarget,
    w1: u32,
    h1: u32,
    w2: u32,
    h2: u32,
    ready: bool,
    preview: bool,
)
    requires
        !usable_size(w1, h1),
        !usable_size(w2, h2),
    ensures
        synced_target(target, w1, h1).width == target.width,
        synced_target(target, w1, h1).height == target.height,
        !sync_plan(synced_target(target, w1, h1), w2, h2, ready, preview).log_waiting,
        synced_target(synced_target(target, w1, h1), w2, h2) == synced_target(target, w1, h1),
{
}

/// The message that a size arrived follows a wait: a sync with a usable
/// size logs it exactly when the previous sync had to wait.
pub proof fn law_size_received_after_wait(
    target: RenderTarget,
    w1: u32,
    h1: u32,
    w2: u32,
    h2: u32,
    ready: bool,
    preview: bool,
)
    requires
        usable_size(w2, h2),
    ensures
        sync_plan(synced_target(target, w1, h1), w2, h2, ready, preview).log_size_received
            == !usable_size(w1, h1),
{
}

/// Syncs settle: once a usable size has been synced, syncing the same size
/// again with every resource and the preview in place logs nothing, keeps
/// the resources and leaves the target unchanged.
pub proof fn law_sync_settles(
    target: RenderTarget,
    width: u32,
    height: u32,
    ready: bool,
    preview: bool,
)
    requires
        usable_size(width, height),
    ensures
        sync_plan(synced_target(target, width, height), width, height, true, true) == (SyncPlan {
            log_waiting: false,
            log_size_received: false,
            log_resized: false,
            step: ResourceStep::Keep,
        }),
        synced_target(synced_target(target, width, height), width, height) == synced_target(
            target,
            width,
            height,
        ),
{
}

/// At an unchanged usable size, missing resources are always created again,
/// whether or not the preview node exists; with every resource in place a
/// missing preview is attached; and the resources are kept as they are only
/// when every resource and the preview are in place.
pub proof fn law_missing_resources_recreated(
    target: RenderTarget,
    ready: bool,
    preview: bool,
)
    requires
        usable_size(target.width, target.height),
    ensures
        !ready ==> sync_plan(target, target.width, target.height, ready, preview).step
            == ResourceStep::CreateMissing,
        ready && !preview ==> sync_plan(target, target.width, target.height, ready, preview).step
            == ResourceStep::AttachPreview,
        (sync_plan(target, target.width, target.height, ready, preview).step
            == ResourceStep::Keep) == (ready && preview),
        !sync_plan(target, target.width, target.height, ready, preview).log_resized,
{
}

/// Whatever the size, the resources are kept untouched only when all of
/// them and the preview are in place, and nothing is touched exactly when
/// the size is unusable.
pub proof fn law_keep_needs_everything(
    target: RenderTarget,
    width: u32,
    height: u32,
    ready: bool,
    preview: bool,
)
    ensures
        sync_plan(target, width, height, ready, preview).step == ResourceStep::Keep ==> ready
            && preview,
        (sync_plan(target, width, height, ready, preview).step == ResourceStep::Wait)
            == !usable_size(width, height),
{
}

/// A new usable size always recreates the resources, whatever else holds.
pub proof fn law_resize_recreates(
    target: RenderTarget,
    width: u32,
    height: u32,
    ready: bool,
    preview: bool,
)
    requires
        usable_size(width, height),
        width != target.width || height != target.height,
    ensures
        sync_plan(target, width, height, ready, preview).step == ResourceStep::Recreate,
        sync_plan(target, width, height, ready, preview).log_resized,
{
}

} // verus!
