//! Background tasks: refreshing the statistics channels and the users' linked-role
//! metadata.

pub mod channel_refresh;
pub mod usermeta_refresh;
