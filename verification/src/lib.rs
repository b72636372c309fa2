//! Wiring of the web-application middleware of a blockchain node, and the
//! read-only bridge through which the node's resolvers query a deployed
//! contract without sending a transaction to the network.

pub mod address;
pub mod configuration;
pub mod error;
pub mod middleware;
pub mod registrar;
pub mod service;
pub mod transaction;

pub use address::Address;
pub use configuration::Configuration;
pub use error::Error;
pub use middleware::{
    dapps_middleware, new, new_ui, ui_middleware, AccessTokenValidator, Dependencies, Middleware,
    MiddlewareBackend, SignerService, Wiring,
};
pub use registrar::{ChainView, FullRegistrar};
pub use service::{list_dapps, service, App, DappsServiceWrapper, Endpoints, LocalDapp};
pub use transaction::{Action, BlockId, Executed, SignedTransaction, Transaction, U256};
