pub mod chatview;
pub mod chatview_ownedmsg;
