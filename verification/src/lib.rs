//! A study of how a learner with a multi-timescale momentum cascade tracks a
//! non-stationary target produced by a matching signal cascade.
//!
//! The shared primitive is a hierarchical cascade of exponential smoothers
//! ([`cascade`]). A [`input_producer::InputProducer`] drives one cascade with
//! fresh noise to generate a drifting regression target; a
//! [`momentum_model::MomentumModel`] smooths its gradients through another and
//! learns the target online. [`model_running`] sweeps both cascade depths over
//! a grid and reports the mean post-warm-up loss of every combination.

pub mod cascade;
pub mod config_step;
pub mod input_producer;
pub mod meta_analysis;
pub mod model_running;
pub mod momentum_model;
pub mod randomness;
pub mod tensor_ops;
