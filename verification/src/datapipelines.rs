//! Status aggregation for the pipelines of the workflow service.

pub mod describing;
pub mod listing;
pub mod pipeline;
pub mod pipeline_task_status;
pub mod pipeline_tasks;
pub mod run_time;
pub mod service;
pub mod status;
pub mod task_fetch;
