use vstd::prelude::*;

use crate::coordinator::{
    busy_message, cancelled_message, captured_message, load_failure_message,
    opening_message, unavailable_message, CameraResult, CoordinatorView,
};
use crate::picture::{decoding_of, DecodedImage};

verus! {

/// The state after `n` capture requests in a row, with nothing else between them.
pub open spec fn requested_times(s: CoordinatorView, n: nat) -> CoordinatorView
    decreases n,
{
    if n == 0 {
        s
    } else {
        requested_times(s, (n - 1) as nat).requested()
    }
}

/// While a capture is in flight, however many requests come, none is accepted,
/// the capture stays in flight, and the status says it is busy.
pub proof fn law_busy_rejects(s: CoordinatorView, n: nat)
    requires
        s.capturing,
    ensures
        forall|k: nat| k < n ==> !(#[trigger] requested_times(s, k)).accepts_request(),
        requested_times(s, n).capturing,
        n > 0 ==> requested_times(s, n).status == busy_message(),
    decreases n,
{
    if n > 0 {
        law_busy_rejects(s, (n - 1) as nat);
    }
}

/// Once any capture outcome has been taken in, no capture is in flight.
pub proof fn law_result_leaves_idle(
    s: CoordinatorView,
    r: CameraResult,
    d: Result<(usize, usize, Seq<u32>), Seq<char>>,
)
    ensures
        !s.with_result(r, d).capturing,
{
}

/// After one or more capture outcomes, taken in in order, no capture is in flight.
pub proof fn law_results_leave_idle(
    s: CoordinatorView,
    rs: Seq<(CameraResult, Result<DecodedImage, String>)>,
)
    requires
        rs.len() > 0,
    ensures
        !s.with_results(rs).capturing,
{
}

/// A request on a device without a camera ends idle with the unavailability
/// notice, and the camera is never asked for a photo.
pub proof fn law_unavailable(s: CoordinatorView)
    requires
        !s.capturing,
    ensures
        s.accepts_request(),
        !s.requested().issues_capture(false),
        s.requested().checked(false).status == unavailable_message(),
        !s.requested().checked(false).capturing,
        s.requested().checked(false).image == s.image,
        s.requested().checked(false).image_visible == s.image_visible,
{
}

/// A photo whose bytes decode is put on display, under a status that gives its
/// sides and its number of bytes, and the coordinator is idle.
pub proof fn law_decoded_photo_shown(
    s: CoordinatorView,
    width: u32,
    height: u32,
    data: Vec<u8>,
    d: Result<DecodedImage, String>,
)
    requires
        d is Ok,
    ensures
        ({
            let t = s.with_result(CameraResult::Success { width, height, data }, decoding_of(d));
            &&& t.image_visible
            &&& t.image == Some(decoding_of(d)->Ok_0)
            &&& t.status == captured_message(width as nat, height as nat, data@.len())
            &&& !t.capturing
        }),
{
}

/// A photo whose bytes do not decode leaves the picture as it was, and the
/// status gives the decoder's error; the coordinator is idle.
pub proof fn law_malformed_photo(
    s: CoordinatorView,
    width: u32,
    height: u32,
    data: Vec<u8>,
    d: Result<DecodedImage, String>,
)
    requires
        d is Err,
    ensures
        ({
            let t = s.with_result(CameraResult::Success { width, height, data }, decoding_of(d));
            &&& t.image_visible == s.image_visible
            &&& t.image == s.image
            &&& t.status == load_failure_message(decoding_of(d)->Err_0)
            &&& !t.capturing
        }),
{
}

/// A capture that ends in cancellation, whatever the camera's availability was,
/// leaves exactly the cancellation notice and the picture as it was before the
/// request.
pub proof fn law_cancelled(
    s: CoordinatorView,
    available: bool,
    d: Result<(usize, usize, Seq<u32>), Seq<char>>,
)
    ensures
        ({
            let t = s.requested().checked(available).with_result(CameraResult::Cancelled, d);
            &&& t.status == cancelled_message()
            &&& t.image_visible == s.image_visible
            &&& t.image == s.image
            &&& !t.capturing
        }),
{
}

/// Two requests in a row from idle: the first is accepted and the second is
/// rejected with the busy notice, whether or not the camera was asked for a
/// photo between them; so the camera is asked at most once.
pub proof fn law_double_request(s: CoordinatorView, available: bool)
    requires
        !s.capturing,
    ensures
        s.accepts_request(),
        s.requested().status == opening_message(),
        !s.requested().accepts_request(),
        s.requested().requested().status == busy_message(),
        s.requested().issues_capture(available) ==> ({
            let t = s.requested().checked(available);
            &&& !t.accepts_request()
            &&& t.requested().status == busy_message()
            &&& t.requested().capturing
        }),
{
}

/// A picture is shown only where one is held: true at start, and kept by every
/// step of the coordinator.
pub proof fn law_wf_kept(
    s: CoordinatorView,
    available: bool,
    error: Seq<char>,
    r: CameraResult,
    d: Result<(usize, usize, Seq<u32>), Seq<char>>,
)
    requires
        s.wf(),
    ensures
        CoordinatorView::initial().wf(),
        s.requested().wf(),
        s.checked(available).wf(),
        s.issue_failed(error).wf(),
        s.with_result(r, d).wf(),
{
}

} // verus!
