//! A market-data feed client's decision logic: classifying the messages of an
//! exchange feed, tracking the continuity of their sequence numbers, planning
//! the connection handshake and driving the session loop that republishes
//! validated messages to a local consumer.

pub mod connector;
pub mod continuity;
pub mod matcher;
pub mod packet;
pub mod session;
