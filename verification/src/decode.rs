pub mod decode_error;
pub mod msg_decoder;
pub mod msg_record_ref;
