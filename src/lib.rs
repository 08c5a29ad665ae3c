//! A small fleet controller for a container runtime: it keeps a desired number of
//! running containers for two image classes and reconciles observed counts on a timer.
pub mod classifier;
pub mod manager;
pub mod reconcile;
pub mod startup;
pub mod event_loop;
pub mod ingress;
pub mod actuation;
