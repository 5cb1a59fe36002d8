//! What every request passes on its way in and out.

pub mod metrics;
pub mod request_id;
