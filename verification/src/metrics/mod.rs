pub mod app_metrics;
pub mod bundle_metrics;
