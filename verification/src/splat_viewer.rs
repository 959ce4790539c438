use vstd::prelude::*;

verus! {

/// Which of its editor warnings a splat viewer has already given. In the
/// editor each of them is given at most once per viewer.
#[derive(Debug, PartialEq, Eq, Structural)]
pub struct SplatWarnings {
    pub no_camera: bool,
    pub no_rendering_device: bool,
    pub invalid_pipeline: bool,
    pub missing_preview: bool,
}

/// The message given when no rendering device is available.
#[derive(Debug, PartialEq, Eq, Structural)]
pub enum NoDeviceWarning {
    /// The editor's own message, given the first time in the editor.
    Editor,
    /// The general message, given at every other time.
    General,
}

/// A warn-once decision: warn when in the editor and not warned before.
pub open spec fn warns_once(in_editor: bool, warned: bool) -> bool {
    in_editor && !warned
}

impl SplatWarnings {
    /// No warning given yet.
    pub fn new() -> (w: Self)
        ensures
            w == (SplatWarnings {
                no_camera: false,
                no_rendering_device: false,
                invalid_pipeline: false,
                missing_preview: false,
            }),
    {
        SplatWarnings {
            no_camera: false,
            no_rendering_device: false,
            invalid_pipeline: false,
            missing_preview: false,
        }
    }

    /// No camera was found for the frame (identity matrices are used):
    /// whether to warn.
    pub fn on_no_camera(&mut self, in_editor: bool) -> (warn: bool)
        ensures
            warn == warns_once(in_editor, old(self).no_camera),
            *final(self) == (SplatWarnings {
                no_camera: old(self).no_camera || warn,
                ..*old(self)
            }),
    {
        let warn = in_editor && !self.no_camera;
        if warn {
            self.no_camera = true;
        }
        warn
    }

    /// No rendering device was available: which message to give. There is
    /// always one.
    pub fn on_no_rendering_device(&mut self, in_editor: bool) -> (message: NoDeviceWarning)
        ensures
            message == if warns_once(in_editor, old(self).no_rendering_device) {
                NoDeviceWarning::Editor
            } else {
                NoDeviceWarning::General
            },
            *final(self) == (SplatWarnings {
                no_rendering_device: old(self).no_rendering_device || message
                    == NoDeviceWarning::Editor,
                ..*old(self)
            }),
    {
        if in_editor && !self.no_rendering_device {
            self.no_rendering_device = true;
            NoDeviceWarning::Editor
        } else {
            NoDeviceWarning::General
        }
    }

    /// The compute resources were created; `any_invalid` says whether one of
    /// the texture, shader, pipeline and uniform set is invalid: whether to
    /// warn.
    pub fn on_resources_created(&mut self, in_editor: bool, any_invalid: bool) -> (warn: bool)
        ensures
            warn == (warns_once(in_editor, old(self).invalid_pipeline) && any_invalid),
            *final(self) == (SplatWarnings {
                invalid_pipeline: old(self).invalid_pipeline || warn,
                ..*old(self)
            }),
    {
        let warn = in_editor && !self.invalid_pipeline && any_invalid;
        if warn {
            self.invalid_pipeline = true;
        }
        warn
    }

    /// The preview node is missing: whether to warn.
    pub fn on_missing_preview(&mut self, in_editor: bool) -> (warn: bool)
        ensures
            warn == warns_once(in_editor, old(self).missing_preview),
            *final(self) == (SplatWarnings {
                missing_preview: old(self).missing_preview || warn,
                ..*old(self)
            }),
    {
        let warn = in_editor && !self.missing_preview;
        if warn {
            self.missing_preview = true;
        }
        warn
    }
}

/// A warning that has been given is never given again: once a warn-once
/// decision has fired, the flag it sets keeps every later decision quiet.
pub proof fn law_warning_given_once(in_editor: bool, warned: bool, later_in_editor: bool)
    ensures
        warns_once(in_editor, warned) ==> !warns_once(
            later_in_editor,
            warned || warns_once(in_editor, warned),
        ),
{
}

} // verus!
