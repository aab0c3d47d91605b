pub mod dummy_filter;
pub mod dummy_sink;
pub mod dummy_source;
pub mod ext_pipeline;
pub mod evt_sink;
pub mod evt_source;
pub mod ext_pipeline_filter;
pub mod ext_pipeline_sink;
pub mod ext_pipeline_source;
pub mod measured_pipeline_filter;
pub mod measured_pipeline_sink;
pub mod measured_pipeline_source;
pub mod tick;
