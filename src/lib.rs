//! Request routing for an HTTP component: classifies a request by method and path against
//! a fixed route table, decides how it is answered, and lays the answer out for sending.

pub mod route;
pub mod response;
pub mod dispatch;
pub mod laws;
