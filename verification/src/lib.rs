//! A small string-cipher facade over an AES-256 primitive, together with an
//! iterative Fibonacci function.
//!
//! `encrypt` turns a plaintext and a key string into base64 ciphertext;
//! `decrypt` reverses it, answering a fixed sentinel text whenever the input
//! is not ciphertext it can recover under the given key.

pub mod cipher;
pub mod fib;

pub use cipher::decrypt;
pub use cipher::encrypt;
pub use cipher::encrypt_twice_agrees;
pub use cipher::round_trip;
pub use fib::fib;
