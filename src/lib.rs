//! A capture coordinator: the state machine behind a one-button camera screen.
//! It accepts at most one capture at a time, and turns each capture outcome into
//! a status line and an optional decoded picture.
mod decimal;
mod picture;
mod coordinator;
mod laws;

pub use decimal::{decimal_of, push_decimal};
pub use picture::{decoding_of, DecodedImage};
pub use coordinator::{App, CameraResult, CoordinatorView};
pub use laws::{
    law_busy_rejects, law_cancelled, law_decoded_photo_shown, law_double_request,
    law_malformed_photo, law_result_leaves_idle, law_results_leave_idle, law_unavailable,
    law_wf_kept, requested_times,
};
