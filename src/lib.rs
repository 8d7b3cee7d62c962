//! A supervision runtime in the style of OTP: a one-for-one group starts its
//! children together under one deadline, shares a sliding-window restart
//! budget among them, and fails as a whole once that budget is spent.
//! Around it: a wrapper that forwards each started child's reference on a
//! queue, one-shot reply channels, and type-erased message envelopes.

pub mod boxed_msg;
pub mod limiter;
pub mod one_for_one;
pub mod ref_sender;
pub mod request;
