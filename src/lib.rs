// Change detection for a stake pool's monitored feeds: snapshots of each
// feed, the change between two polls, whether it deserves a message, and
// the text of that message.
pub mod amount;
pub mod command;
pub mod decode;
pub mod diff;
pub mod messages;
pub mod policy;
pub mod row;
pub mod store;
pub mod text;
