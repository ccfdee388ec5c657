//! Intake of e-mail subscription forms: decoding the submitted form into a
//! record, and the acknowledgment that a subscription request receives.

pub mod form;
pub mod response;
pub mod subscriptions;
