pub mod error_packet;
pub mod response_type;
pub mod result_set_row_packet;
