//! Execution core of an operating-system installer: filesystem steps, the
//! commands they issue, the plan that orders them and the driver that walks it.

pub mod command;
pub mod context;
pub mod driver;
pub mod plan;
pub mod steps;
pub mod text;
