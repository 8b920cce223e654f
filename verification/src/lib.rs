//! The decisions of an attestation agent: which quote requests it answers and
//! with what, how its measurements are filtered and encoded, and in which order
//! it starts. Everything that touches the machine (TPM, files, network) is left
//! to the program around the library, which performs the steps asked for here
//! and reports how they ended.
pub mod activation;
pub mod benchmark;
pub mod config;
pub mod encoding;
pub mod identity;
pub mod integrity;
pub mod measurements;
pub mod numbers;
pub mod pq_signature;
pub mod quotes;
pub mod start_laws;
pub mod startup;
pub mod text;
pub mod unicode;
