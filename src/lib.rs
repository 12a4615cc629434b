//! Basin-hopping global optimisation: the decisions of the outer loop
//! (Metropolis acceptance, checkpoint bookkeeping) and of the inner
//! quasi-Newton driving loop, stated and proved over plain values.

pub mod binary64;
pub mod naming;
pub mod local;
pub mod controller;
pub mod laws;
