pub mod attention;
pub mod kernel_error;
pub mod matmul;
pub mod quant;
pub mod tensor;
