//! A search for a secp256k1 key pair whose address begins with given
//! hexadecimal digits.
//!
//! Workers generate random key pairs, derive the address of each and compare
//! it with the pattern; a reporter turns what the workers send, and the
//! passing of time, into the lines to print. Threads, channels, the clock
//! and the console are the caller's: the library takes and returns plain
//! values.
//!
//! Everything here is proved but for what other crates compute, which is
//! taken on trust and marked as such where it is called: that `secp256k1`
//! hands out a public key that belongs to the secret key it comes with, that
//! `tiny_keccak` computes a digest that depends on its input alone, and that
//! `String::push` appends. Of the flag and the counter that the workers
//! share, other threads change the values at any time: what is stated of
//! them is what a holder's own handle has seen and done.

pub mod hex;
pub mod keys;
pub mod lines;
pub mod pattern;
pub mod progress;
pub mod reporter;
pub mod search;
pub mod text;
