pub mod logging;
pub mod request;
pub mod finalizer;
