//! Model providers: who they are, where their credentials are, and what models
//! they offer.
//!
//! * [`provider_kind`], [`builtin`], [`provider`], [`provider_names`] and
//!   [`api_provider`] are the registry: one entry per provider, its names, and
//!   the orders in which providers are listed.
//! * [`wire`], [`endpoint`] and [`credential_help`] describe a route: the request
//!   format, the first-party endpoints, and how a key for it is had.
//! * [`credentials`] and [`credential_resolve`] decide which place holds a
//!   credential, asking only what precedence and consent leave open.
//! * [`offering`], [`live`], [`signed`], [`merge`], [`model_list`], [`runtime`],
//!   [`lake`] and [`route_catalog`] are the catalog: bundled rows, Models.dev rows,
//!   the signed cloud layer and provider-owned rosters, merged for listings and
//!   for routes.
//! * [`identities`], [`refresh`], [`receipts`] and [`listing`] update the catalogs
//!   and show what came of it.
//! * [`text`], [`lists`], [`order`] and [`pair_map`] are what the others are built
//!   on.
//!
//! The modules whose names end in `_laws` state what holds of the others, each
//! over what goes in and what comes out:
//!
//! * [`row_laws`], [`live_laws`], [`catalog_laws`] and [`lake_laws`] say which row
//!   stands when the layers are laid over each other;
//! * [`lookup_laws`], [`route_laws`] and [`runtime_laws`] say what a lookup finds,
//!   what a route lists and what it executes;
//! * [`credential_laws`] takes the places of a credential one by one, and
//!   [`refresh_laws`] the ends that a refresh can come to.
//!
//! No function reads the environment, the disk or the network: what they hold
//! comes in as plain values, and the steps that need them are handed out one at a
//! time.

pub mod api_provider;
pub mod builtin;
pub mod catalog_laws;
pub mod credential_help;
pub mod credential_laws;
pub mod credential_resolve;
pub mod credentials;
pub mod endpoint;
pub mod identities;
pub mod lake;
pub mod lake_laws;
pub mod listing;
pub mod lists;
pub mod live;
pub mod live_laws;
pub mod lookup_laws;
pub mod merge;
pub mod model_list;
pub mod offering;
pub mod order;
pub mod pair_map;
pub mod provider;
pub mod provider_kind;
pub mod provider_names;
pub mod receipts;
pub mod refresh;
pub mod refresh_laws;
pub mod route_catalog;
pub mod route_laws;
pub mod row_laws;
pub mod runtime;
pub mod runtime_laws;
pub mod signed;
pub mod text;
pub mod wire;
