//! Exact arithmetic modulo a power of two on encrypted integers.
//!
//! A ciphertext holds an integer of `[0, q)`. The only operations that an
//! encryption scheme offers on it are cheap linear combinations, which let
//! the value leave `[0, q)` and use up padding bits, and the bootstrap,
//! which evaluates a lookup table on the value and hands back a fresh
//! ciphertext of `[0, q)`. This crate says how each arithmetic operator is
//! made of those two, and proves that the result is the one that arithmetic
//! modulo `q` asks for.
//!
//! * [`Encoder`] describes the domain and its padding.
//! * [`Lookup`] names the tables, over the integers; the functions of
//!   [`reduction`] are what they are made of.
//! * [`Operator`] gives every operator its pipeline of [`Step`]s and the
//!   number of padding bits that it asks of the encoder;
//!   [`Operator::lemma_pipeline_computes`] is the proof that the pipeline
//!   computes the operator.
//! * [`HomomorphicKey::plan`] decides whether an operator may run on two
//!   ciphertexts and hands out its pipeline, and [`advance`] says after each
//!   request to the scheme what comes next. A program in front of a scheme
//!   needs no more than these two: it performs the steps and keeps the
//!   payloads.
//! * [`evaluate`] runs a pipeline on plaintexts, as a scheme without noise
//!   would. [`Ciphertext`], [`SecretKey`] and [`EncryptKey`] are built on
//!   it: their payload is the plaintext, and every operator on them runs its
//!   pipeline step by step. The theorems of [`laws`] speak of them.
pub mod ciphertext;
pub mod encoder;
pub mod error;
pub mod homomorphic_key;
pub mod keys;
pub mod laws;
pub mod lookup;
pub mod max;
pub mod operator;
pub mod padding;
pub mod parameters;
pub mod pipeline;
pub mod reduction;
pub mod text;

pub use ciphertext::{Ciphertext, Plain};
pub use encoder::Encoder;
pub use error::Error;
pub use homomorphic_key::HomomorphicKey;
pub use keys::{setup, EncryptKey, SecretKey};
pub use lookup::Lookup;
pub use max::{max, Max};
pub use operator::Operator;
pub use padding::padding_used;
pub use parameters::{KeyRecipe, LweSetting, Parameters, RlweSetting};
pub use pipeline::{advance, evaluate, Action, Step};
pub use reduction::{floor_modulo, relu, round_modulo};
