//! Concrete profunctors: functions, forgetful readers and tagged values.
pub mod fn_p;
pub mod forget;
pub mod tagged;
