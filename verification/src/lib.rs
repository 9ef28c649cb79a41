//! Record-management core: validated manifest field types, the data/domain
//! manifest models, service request types, and the background subsystem that
//! batches access-counter updates and purges expired records.
pub mod ask;
pub mod counter;
pub mod data;
pub mod maintenance;
pub mod store;
pub mod description;
pub mod job_field;
pub mod manifest;
pub mod manifest_escrow_id;
pub mod manifest_id;
pub mod text;
pub mod title;
