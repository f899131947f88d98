//! Client-side logic of the Axiom attested, end-to-end encrypted inference proxy.

pub mod text;
pub mod openai;
pub mod hex;
pub mod error;
pub mod crypto;
pub mod e2ee;
pub mod relay;
pub mod provider;
pub mod near;
pub mod events;
pub mod config;
pub mod attestation;
pub mod history;
pub mod audit;
pub mod sse;
pub mod handlers;
pub mod update;
pub mod commands;
pub mod state;
pub mod opencode;
pub mod json;
pub mod value;
pub mod phala;
pub mod gateway;
pub mod dcap;
pub mod aci;
pub mod frames;
pub mod keyring;
