//! The camera: a live picture, a shot, and the choice to use it or take
//! another. Shown on top of the compose screen.
//!
//! Whoever owns the capture opens the device, reads its frames and encodes the
//! shot; what happens when is decided here.

use vstd::prelude::*;

use crate::text::join2;
#[allow(unused_imports)]
use crate::text::opt_view;
use crate::widget::PadFrame;

verus! {

/// How good a shot is encoded.
pub const SHOT_QUALITY: u8 = 85;

/// How a capture is left.
#[derive(Debug)]
pub enum CameraResult {
    /// With this picture, encoded.
    Confirmed(Vec<u8>),
    /// Without one.
    Cancelled,
}

/// One of the two cameras.
#[derive(Copy, Clone, Debug, PartialEq, Eq, Structural)]
pub enum CameraDevice {
    Back,
    Front,
}

/// What is shown.
#[derive(Copy, Clone, Debug, PartialEq, Eq, Structural)]
pub enum CameraMode {
    /// What the camera sees.
    Live,
    /// The shot.
    Captured,
}

/// A capture.
pub struct CameraCapture {
    pub device: CameraDevice,
    /// The device is open.
    pub open: bool,
    /// The shot, as plain pixels.
    pub frozen: Option<Vec<u8>>,
    pub mode: CameraMode,
    pub error: Option<String>,
}

/// What a frame asks for.
#[derive(Debug)]
pub struct CameraStep {
    /// Open this device in place of the other.
    pub switch_to: Option<CameraDevice>,
    /// Encode these pixels.
    pub encode: Option<Vec<u8>>,
    pub result: Option<CameraResult>,
}

/// The other camera.
pub open spec fn flipped(d: CameraDevice) -> CameraDevice {
    match d {
        CameraDevice::Back => CameraDevice::Front,
        CameraDevice::Front => CameraDevice::Back,
    }
}

/// What opening a device makes of a capture.
pub open spec fn device_opened(a: CameraCapture, opened: Result<(), String>) -> CameraCapture {
    match opened {
        Ok(_) => CameraCapture { open: true, error: None, ..a },
        Err(e) => CameraCapture { open: false, error: Some(e), ..a },
    }
}

/// The circle leaves.
pub open spec fn left_by(pad: PadFrame) -> Option<CameraResult> {
    if pad.circle {
        Some(CameraResult::Cancelled)
    } else {
        None
    }
}

/// What a frame makes of a capture. `frame` is what the device sees, where it
/// gave a picture.
pub open spec fn camera_after(
    a: CameraCapture,
    pad: PadFrame,
    frame: Option<Vec<u8>>,
) -> CameraCapture {
    if a.error is Some {
        a
    } else if a.mode == CameraMode::Live {
        let shot = if pad.square && a.open && frame is Some {
            CameraCapture { frozen: frame, mode: CameraMode::Captured, ..a }
        } else {
            a
        };
        if pad.triangle {
            CameraCapture { device: flipped(a.device), open: false, ..shot }
        } else {
            shot
        }
    } else if pad.cross && a.frozen is Some {
        CameraCapture { frozen: None, ..a }
    } else if pad.circle || pad.square {
        CameraCapture { frozen: None, mode: CameraMode::Live, ..a }
    } else {
        a
    }
}

/// What a frame asks for.
pub open spec fn camera_step_is(r: CameraStep, a: CameraCapture, pad: PadFrame) -> bool {
    if a.error is Some {
        r.switch_to is None && r.encode is None && r.result == left_by(pad)
    } else if a.mode == CameraMode::Live {
        &&& r.switch_to == (if pad.triangle {
            Some(flipped(a.device))
        } else {
            None
        })
        &&& r.encode is None
        &&& r.result == left_by(pad)
    } else {
        &&& r.switch_to is None
        &&& r.encode == (if pad.cross {
            a.frozen
        } else {
            None
        })
        &&& r.result is None
    }
}

/// What encoding the shot makes of a capture.
pub open spec fn shot_encoded(
    a: CameraCapture,
    b: CameraCapture,
    result: Result<Vec<u8>, String>,
    pad: PadFrame,
    r: Option<CameraResult>,
) -> bool {
    match result {
        Ok(bytes) => r == Some(CameraResult::Confirmed(bytes)) && b == a,
        Err(e) => {
            &&& r is None
            &&& b.error matches Some(m) && m@ == "encode: "@ + e@
            &&& b == (CameraCapture {
                error: b.error,
                frozen: if pad.circle || pad.square {
                    None
                } else {
                    a.frozen
                },
                mode: if pad.circle || pad.square {
                    CameraMode::Live
                } else {
                    a.mode
                },
                ..a
            })
        },
    }
}

/// The message in place of the picture.
pub open spec fn problem_of(a: CameraCapture) -> Option<Seq<char>> {
    match a.error {
        Some(e) => Some("Camera unavailable: "@ + e@),
        None => None,
    }
}

impl CameraCapture {
    /// A capture with the back camera, once it was opened or not.
    pub fn new(opened: Result<(), String>) -> (r: CameraCapture)
        ensures
            r == device_opened(
                CameraCapture {
                    device: CameraDevice::Back,
                    open: false,
                    frozen: None,
                    mode: CameraMode::Live,
                    error: None,
                },
                opened,
            ),
    {
        let mut r = CameraCapture {
            device: CameraDevice::Back,
            open: false,
            frozen: None,
            mode: CameraMode::Live,
            error: None,
        };
        r.reopened(opened);
        r
    }

    /// Takes whether the device could be opened.
    pub fn reopened(&mut self, opened: Result<(), String>)
        ensures
            *final(self) == device_opened(*old(self), opened),
    {
        match opened {
            Ok(_) => {
                self.open = true;
                self.error = None;
            },
            Err(e) => {
                self.open = false;
                self.error = Some(e);
            },
        }
    }

    /// Goes to the other camera, which is then to be opened.
    pub fn flip(&mut self)
        ensures
            *final(self) == (CameraCapture {
                device: flipped(old(self).device),
                open: false,
                ..*old(self)
            }),
    {
        self.device = match self.device {
            CameraDevice::Back => CameraDevice::Front,
            CameraDevice::Front => CameraDevice::Back,
        };
        self.open = false;
    }

    /// One frame: the square shoots, the triangle goes to the other camera,
    /// the circle leaves; with a shot, the cross uses it and the circle or the
    /// square drops it.
    pub fn render(&mut self, pad: &PadFrame, frame: Option<Vec<u8>>) -> (r: CameraStep)
        ensures
            *final(self) == camera_after(*old(self), *pad, frame),
            camera_step_is(r, *old(self), *pad),
    {
        let mut switch_to: Option<CameraDevice> = None;
        let mut encode: Option<Vec<u8>> = None;
        let mut result: Option<CameraResult> = None;
        if self.error.is_some() {
            if pad.circle {
                result = Some(CameraResult::Cancelled);
            }
            return CameraStep { switch_to, encode, result };
        }
        match self.mode {
            CameraMode::Live => {
                if pad.square && self.open && frame.is_some() {
                    self.frozen = frame;
                    self.mode = CameraMode::Captured;
                }
                if pad.triangle {
                    self.flip();
                    switch_to = Some(self.device);
                }
                if pad.circle {
                    result = Some(CameraResult::Cancelled);
                }
            },
            CameraMode::Captured => {
                if pad.cross && self.frozen.is_some() {
                    encode = self.frozen.take();
                } else if pad.circle || pad.square {
                    self.frozen = None;
                    self.mode = CameraMode::Live;
                }
            },
        }
        CameraStep { switch_to, encode, result }
    }

    /// Takes the encoded shot. Where that failed, the error is shown; a circle
    /// or square of the same frame still drops the shot.
    pub fn encoded(&mut self, result: Result<Vec<u8>, String>, pad: &PadFrame) -> (r: Option<
        CameraResult,
    >)
        ensures
            shot_encoded(*old(self), *final(self), result, *pad, r),
    {
        match result {
            Ok(bytes) => Some(CameraResult::Confirmed(bytes)),
            Err(e) => {
                self.error = Some(join2("encode: ", e.as_str()));
                if pad.circle || pad.square {
                    self.frozen = None;
                    self.mode = CameraMode::Live;
                }
                None
            },
        }
    }

    /// The message in place of the picture, where there is an error.
    pub fn problem(&self) -> (r: Option<String>)
        ensures
            opt_view(r) == problem_of(*self),
    {
        match &self.error {
            Some(e) => Some(join2("Camera unavailable: ", e.as_str())),
            None => None,
        }
    }
}

/// Flipping twice leads back to the same camera.
pub proof fn lemma_flip_twice(d: CameraDevice)
    ensures
        flipped(flipped(d)) == d,
{
}

/// A shot that is dropped leaves nothing behind: the capture is live as before
/// it.
pub proof fn lemma_retake(a: CameraCapture, frame: Option<Vec<u8>>, shoot: PadFrame, drop: PadFrame)
    requires
        a.error is None,
        a.mode == CameraMode::Live,
        a.open,
        a.frozen is None,
        frame is Some,
        shoot.square && !shoot.triangle,
        drop.circle || drop.square,
        !drop.cross,
    ensures
        camera_after(a, shoot, frame).mode == CameraMode::Captured,
        camera_after(camera_after(a, shoot, frame), drop, None) == a,
{
}

} // verus!
