pub mod job_queue;
