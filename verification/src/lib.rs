//! The engine behind one data pane of a broker dashboard: the hand-off slot
//! between poller and pane, the row cursor, the modal key router and the tab
//! bar, all as plain values with proved contracts.
pub mod app;
pub mod client;
pub mod host;
pub mod mailbox;
pub mod model;
pub mod pane;
pub mod poller;
pub mod queues;
pub mod selection;
pub mod tabs;
