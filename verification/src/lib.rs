//! Building blocks of an asynchronous runtime: readiness bookkeeping for I/O,
//! bounded queues, an intrusive-style list, a hierarchical timer wheel, worker
//! state transitions and the configuration of execution engines.

pub mod mio_types;
pub mod readiness;
pub mod errors;
pub mod futures;
pub mod intrusive_list;
pub mod registration;
pub mod time_wheel;
pub mod vector_extension;
pub mod worker;
pub mod engine;
pub mod read_buf;
pub mod queue;
pub mod mock;
pub mod channels;
pub mod task;
pub mod io_driver;
pub mod registrations;
