//! Request telemetry for a small web service: the root span that describes each
//! request, and the liveness check.
pub mod routes;
pub mod telemetry;
