//! Job tracking and orchestration for an image generation client.
//!
//! The library holds the job record and its status machine (`job`), the
//! parameters of a request (`params`), what is sent to the generation
//! service and how its answer becomes the outcome of a job (`wire`,
//! `client`), the saving of images (`download`), the pipeline that drives
//! one job from creation to its final status (`pipeline`), the settings
//! (`config`), the interactive session and its keys (`session`,
//! `handlers`), what a command reports (`report`), and what holds of jobs
//! and runs as a whole (`lifecycle`).
//!
//! The library reads the clock and draws a random identifier where a job
//! is created or changed, and does no other input or output. Where work
//! needs the store, the network, the file system or the terminal, the
//! library says what is to be done and takes the result back as a plain
//! value.

pub mod client;
pub mod config;
pub mod download;
pub mod error;
pub mod handlers;
pub mod job;
pub mod lifecycle;
pub mod params;
pub mod pipeline;
pub mod report;
pub mod session;
pub mod text;
pub mod wire;
