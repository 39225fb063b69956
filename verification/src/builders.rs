pub mod laws;
pub mod msg_builder;
pub mod msg_len_builder;
pub mod msg_len_packed_scribe;
pub mod msg_ser_builder;
pub mod msg_ser_packed_scribe;
pub mod two_pass;
