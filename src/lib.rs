//! Discovery of HomeWizard energy and water meters on the local network and
//! normalisation of their telemetry into vendor-neutral measurement samples.
pub mod assembly;
pub mod client;
pub mod discovery;
pub mod model;
pub mod reading;
