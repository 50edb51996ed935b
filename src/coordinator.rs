use vstd::prelude::*;

use crate::decimal::{decimal_of, push_decimal};
use crate::picture::{decoding_of, DecodedImage};

verus! {

/// The outcome of one capture attempt, as the camera reports it.
pub enum CameraResult {
    Success { width: u32, height: u32, data: Vec<u8> },
    Cancelled,
    Error(String),
}

/// The coordinator: whether a capture is in flight, the status line, and the
/// picture on display.
pub struct App {
    pub capture_in_progress: bool,
    pub status: String,
    pub image: Option<DecodedImage>,
    pub image_visible: bool,
}

/// What the coordinator holds, as mathematical values.
pub struct CoordinatorView {
    pub capturing: bool,
    pub status: Seq<char>,
    pub image: Option<(usize, usize, Seq<u32>)>,
    pub image_visible: bool,
}

pub open spec fn prompt_message() -> Seq<char> {
    "Press the button to capture a photo"@
}

pub open spec fn busy_message() -> Seq<char> {
    "Capture already in progress..."@
}

pub open spec fn opening_message() -> Seq<char> {
    "Opening camera..."@
}

pub open spec fn unavailable_message() -> Seq<char> {
    "Camera not available on this device"@
}

pub open spec fn cancelled_message() -> Seq<char> {
    "Capture cancelled"@
}

pub open spec fn open_failure_message(error: Seq<char>) -> Seq<char> {
    "Failed to open camera: "@ + error
}

pub open spec fn load_failure_message(error: Seq<char>) -> Seq<char> {
    "Failed to load image: "@ + error
}

pub open spec fn error_message(error: Seq<char>) -> Seq<char> {
    "Error: "@ + error
}

/// The summary of a captured photo: its sides and the number of its bytes.
pub open spec fn captured_message(width: nat, height: nat, n: nat) -> Seq<char> {
    "Captured: "@ + decimal_of(width) + "x"@ + decimal_of(height) + ", "@ + decimal_of(n)
        + " bytes"@
}

impl CoordinatorView {
    /// The state at start: idle, with the prompt, and no picture shown.
    pub open spec fn initial() -> CoordinatorView {
        CoordinatorView {
            capturing: false,
            status: prompt_message(),
            image: None,
            image_visible: false,
        }
    }

    /// A picture is shown only where one is held.
    pub open spec fn wf(self) -> bool {
        self.image_visible ==> self.image is Some
    }

    /// A capture request is accepted only while no capture is in flight.
    pub open spec fn accepts_request(self) -> bool {
        !self.capturing
    }

    /// The state after a capture request.
    pub open spec fn requested(self) -> CoordinatorView {
        if self.capturing {
            CoordinatorView { status: busy_message(), ..self }
        } else {
            CoordinatorView { capturing: true, status: opening_message(), ..self }
        }
    }

    /// Whether the camera is asked for a photo, once its availability is known.
    pub open spec fn issues_capture(self, available: bool) -> bool {
        self.capturing && available
    }

    /// The state once the camera's availability is known.
    pub open spec fn checked(self, available: bool) -> CoordinatorView {
        if self.capturing && !available {
            CoordinatorView { capturing: false, status: unavailable_message(), ..self }
        } else {
            self
        }
    }

    /// The state after the camera refused to start a capture.
    pub open spec fn issue_failed(self, error: Seq<char>) -> CoordinatorView {
        CoordinatorView { capturing: false, status: open_failure_message(error), ..self }
    }

    /// The state after a capture outcome was taken in; `d` is what the JPEG
    /// decoder made of the photo's bytes, read only for a photo.
    pub open spec fn with_result(self, r: CameraResult, d: Result<(usize, usize, Seq<u32>), Seq<char>>) -> CoordinatorView {
        match r {
            CameraResult::Success { width, height, data } => match d {
                Ok(img) => CoordinatorView {
                    capturing: false,
                    status: captured_message(width as nat, height as nat, data@.len()),
                    image: Some(img),
                    image_visible: true,
                },
                Err(e) => CoordinatorView {
                    capturing: false,
                    status: load_failure_message(e),
                    ..self
                },
            },
            CameraResult::Cancelled => CoordinatorView {
                capturing: false,
                status: cancelled_message(),
                ..self
            },
            CameraResult::Error(msg) => CoordinatorView {
                capturing: false,
                status: error_message(msg@),
                ..self
            },
        }
    }

    /// The state after capture outcomes, each with its decoding, were taken in
    /// in the order given.
    pub open spec fn with_results(self, rs: Seq<(CameraResult, Result<DecodedImage, String>)>) -> CoordinatorView
        decreases rs.len(),
    {
        if rs.len() == 0 {
            self
        } else {
            self.with_results(rs.drop_last()).with_result(rs.last().0, decoding_of(rs.last().1))
        }
    }
}

/// Whether taking in `r`, whose bytes decoded to `d`, puts a new picture on display.
pub open spec fn shows_picture(r: CameraResult, d: Result<DecodedImage, String>) -> bool {
    r is Success && d is Ok
}

impl View for App {
    type V = CoordinatorView;

    open spec fn view(&self) -> CoordinatorView {
        CoordinatorView {
            capturing: self.capture_in_progress,
            status: self.status@,
            image: match self.image {
                Some(p) => Some((p.width, p.height, p.pixels@)),
                None => None,
            },
            image_visible: self.image_visible,
        }
    }
}

fn captured_status(width: u32, height: u32, n: usize) -> (r: String)
    ensures
        r@ == captured_message(width as nat, height as nat, n as nat),
{
    let mut s = String::from_str("Captured: ");
    push_decimal(&mut s, width as u64);
    s.append("x");
    push_decimal(&mut s, height as u64);
    s.append(", ");
    push_decimal(&mut s, n as u64);
    s.append(" bytes");
    s
}

impl App {
    /// A coordinator at start: idle, showing the prompt and no picture.
    pub fn new() -> (r: App)
        ensures
            r@ == CoordinatorView::initial(),
    {
        App {
            capture_in_progress: false,
            status: String::from_str("Press the button to capture a photo"),
            image: None,
            image_visible: false,
        }
    }

    /// Takes a capture request. While a capture is in flight it is rejected with
    /// a notice; otherwise the coordinator starts capturing, and the caller is
    /// to ask for the camera's availability next.
    pub fn request_capture(&mut self) -> (accepted: bool)
        ensures
            accepted == old(self)@.accepts_request(),
            final(self)@ == old(self)@.requested(),
    {
        if self.capture_in_progress {
            self.status = String::from_str("Capture already in progress...");
            return false;
        }
        self.capture_in_progress = true;
        self.status = String::from_str("Opening camera...");
        true
    }

    /// Takes the camera's availability after an accepted request. Returns whether
    /// the caller is to ask the camera for a photo; an absent camera ends the
    /// capture with a notice.
    pub fn on_availability(&mut self, available: bool) -> (issue: bool)
        ensures
            issue == old(self)@.issues_capture(available),
            final(self)@ == old(self)@.checked(available),
    {
        if self.capture_in_progress && !available {
            self.status = String::from_str("Camera not available on this device");
            self.capture_in_progress = false;
            return false;
        }
        self.capture_in_progress
    }

    /// Takes the camera's refusal to start a capture, with the text of its error.
    pub fn on_issue_failed(&mut self, error: &str)
        ensures
            final(self)@ == old(self)@.issue_failed(error@),
    {
        let mut s = String::from_str("Failed to open camera: ");
        s.append(error);
        self.status = s;
        self.capture_in_progress = false;
    }

    /// Takes in the outcome of a capture, with what the JPEG decoder made of the
    /// photo's bytes (read only for a photo). The coordinator is idle afterwards;
    /// a photo that decoded is put on display. Returns whether it was.
    pub fn on_capture_result(&mut self, result: &CameraResult, decoded: Result<DecodedImage, String>) -> (shown: bool)
        ensures
            shown == shows_picture(*result, decoded),
            final(self)@ == old(self)@.with_result(*result, decoding_of(decoded)),
    {
        self.capture_in_progress = false;
        match result {
            CameraResult::Success { width, height, data } => {
                self.status = captured_status(*width, *height, data.len());
                match decoded {
                    Ok(img) => {
                        self.image = Some(img);
                        self.image_visible = true;
                        true
                    },
                    Err(e) => {
                        let mut s = String::from_str("Failed to load image: ");
                        s.append(e.as_str());
                        self.status = s;
                        false
                    },
                }
            },
            CameraResult::Cancelled => {
                self.status = String::from_str("Capture cancelled");
                false
            },
            CameraResult::Error(msg) => {
                let mut s = String::from_str("Error: ");
                s.append(msg.as_str());
                self.status = s;
                false
            },
        }
    }

    /// Takes in capture outcomes, each with its decoding, in the order they were
    /// posted. Returns whether any of them put a picture on display.
    pub fn on_capture_results(&mut self, results: Vec<(CameraResult, Result<DecodedImage, String>)>) -> (shown: bool)
        ensures
            final(self)@ == old(self)@.with_results(results@),
            shown == exists|i: int|
                0 <= i < results@.len() && shows_picture(#[trigger] results@[i].0, results@[i].1),
    {
        let ghost all = results@;
        let n: usize = results.len();
        let mut rest = results;
        let mut shown = false;
        let mut i: usize = 0;
        while rest.len() > 0
            invariant
                i <= all.len(),
                rest@ == all.subrange(i as int, all.len() as int),
                i + rest@.len() == all.len(),
                all.len() == n,
                self@ == old(self)@.with_results(all.subrange(0, i as int)),
                shown == exists|k: int| 0 <= k < i && shows_picture(#[trigger] all[k].0, all[k].1),
            decreases rest@.len(),
        {
            let (r, d) = rest.remove(0);
            assert(r == all[i as int].0 && d == all[i as int].1);
            let s = self.on_capture_result(&r, d);
            proof {
                let next = all.subrange(0, i + 1);
                assert(next.drop_last() =~= all.subrange(0, i as int));
                assert(rest@ =~= all.subrange(i + 1, all.len() as int));
            }
            shown = shown || s;
            i = i + 1;
        }
        assert(all.subrange(0, all.len() as int) =~= all);
        shown
    }
}

} // verus!
