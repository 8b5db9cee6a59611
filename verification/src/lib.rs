//! The core of a load generator: it plans the workload of simulated users,
//! checks the options of a load test, sums up what the users report, and
//! says step by step what a running load test is to do next. Every
//! function of the library is verified against its contract.
//!
//! - [`config`], [`defaults`], [`options`]: the options of a load test, the
//!   defaults for what the command line leaves out, and the rules that
//!   the options have to meet.
//! - [`goose`]: tasks, task sets, users, and the samples of requests.
//! - [`planner`], [`prepare`], [`fingerprint`], [`hosts`]: from task sets
//!   and options to a load test that is ready to run.
//! - [`launch`], [`user`], [`throttle`], [`redirect`], [`gaggle`]: the
//!   course of a load test and of each of its users, alone or spread over
//!   several processes.
//! - [`metrics`], [`summary`], [`histogram`], [`record`], [`aggregate`],
//!   [`absorb`]: the metrics, and how samples and other metrics go into
//!   them.
//! - [`report`], [`display`], [`logs`], [`text`]: the metrics as tables and
//!   as lines of a log.

pub mod absorb;
pub mod aggregate;
pub mod attack;
pub mod config;
pub mod defaults;
pub mod display;
pub mod error;
pub mod fingerprint;
pub mod gaggle;
pub mod goose;
pub mod histogram;
pub mod hosts;
pub mod launch;
pub mod logs;
pub mod metrics;
pub mod options;
pub mod ordered;
pub mod planner;
pub mod prepare;
pub mod record;
pub mod redirect;
pub mod report;
pub mod summary;
pub mod text;
pub mod throttle;
pub mod timespan;
pub mod user;
pub mod util;
