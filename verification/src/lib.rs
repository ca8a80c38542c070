pub mod address;
pub mod api_actions;
pub mod channel;
pub mod country;
pub mod dispatch;
pub mod error;
pub mod forward;
pub mod invitation_logic;
pub mod logic_request;
pub mod organization_logic;
pub mod reply;
pub mod role;
pub mod storage_executors;
pub mod storage_request;
