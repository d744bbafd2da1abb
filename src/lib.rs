// Load-run engine: how requests are spread over workers, what one request
// attempt comes to, and the running statistics that a single consumer keeps.

pub mod counts;
pub mod outcome;
pub mod plan;
pub mod stats;
