//! Small building blocks for daemons and desktop helpers: error traces,
//! time arithmetic and mock clocks, HTTP helpers with a throttling wrapper,
//! message framing for IPC, notification and plugin runners, and the message
//! formats of the demo daemons built on top of them.
pub mod shared;
pub mod text;
pub mod errors;
pub mod time;
pub mod range_duration;
pub mod http;
pub mod ipc;
pub mod daemon;
pub mod itj_daemon;
pub mod hello_world;
pub mod autolock;
pub mod leaky_bucket;
pub mod mock_http;
pub mod notification;
pub mod plugins;
pub mod tick_plugins;
pub mod periodic_task;
pub mod random;
