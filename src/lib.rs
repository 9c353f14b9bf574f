//! Continuous salary accrual for a shared pool, kept with the reward-debt
//! pattern: one accumulator per pool, one baseline per participant, and O(1)
//! work for each enrolment, rate change or claim.
pub mod accrual;
pub mod authority;
pub mod employee;
pub mod error;
pub mod fixed;
pub mod identity;
pub mod laws;
pub mod pool;
