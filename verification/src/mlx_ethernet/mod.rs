//! The software interface of the Mellanox ConnectX ethernet device: the
//! command queue's encodings, the contexts handed to the device when queues
//! are created, the work and completion queue entries, and the bookkeeping
//! of the send, receive and completion queues.

pub mod command_queue;
pub mod command_entry;
pub mod capabilities;
pub mod queues;
pub mod contexts;
pub mod commands;
pub mod work_queue;
