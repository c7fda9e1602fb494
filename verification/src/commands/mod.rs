pub mod query_command;
