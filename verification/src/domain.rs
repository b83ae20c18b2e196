pub mod subscriber_email;
pub mod subscriber_name;
