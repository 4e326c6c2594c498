//! Deployment orchestration: the log channel that carries a deployment's
//! output, the manifest and the deployer registry, the DNS reconciliation
//! that creates or updates one record, and the ingress activation steps.

pub mod deployer;
pub mod dns;
pub mod domain;
pub mod ingress;
pub mod log_channel;
pub mod manager;
pub mod pipeline;

pub use deployer::{Deployer, Manifest, RegisterDeployment, StaticSiteDeployer};
pub use log_channel::{message_channel, DeploymentHandle, DeploymentLogs, MutexVecDequeRead as LogStream};
pub use manager::{manager, ConfigurationError, Deployment, DeploymentError, DeploymentManager};
