pub mod binlog_event;
pub mod event_header;
pub mod event_parser;
pub mod event_type;
pub mod format_description_event;
pub mod rotate_event;
