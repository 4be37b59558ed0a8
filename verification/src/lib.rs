//! Protocol core of the Thaime input-method service: the key-decision engine,
//! the per-session engine instance, the engine factory and the start-up
//! registration handshake, each with a machine-checked contract.

pub mod address;
pub mod descriptor;
pub mod engine;
pub mod factory;
pub mod ibus;
pub mod registrar;
pub mod text;
