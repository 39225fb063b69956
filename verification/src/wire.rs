pub mod laws;
pub mod model;
pub mod wire_decoder;
pub mod wire_encoder;
pub mod wire_i32;
pub mod wire_i64;
pub mod wire_len_calc;
pub mod wire_len_ref;
pub mod wire_value_ref;
pub mod wire_var_int;
