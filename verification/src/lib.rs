//! Collector for scan-result reports: a typed message model, a JSON-to-model
//! classifier with an explicit error taxonomy, and a per-connection read loop
//! that turns raw reads into human-readable status lines.

mod classify;
mod models;
mod render;
mod server;
mod wire;

pub use models::ClassificationError;
pub use models::MessageType;
pub use models::MessageTypeModel;
pub use models::ScanResult;
pub use models::ScanResultModel;

pub use wire::DocModel;
pub use wire::ItemModel;
pub use wire::JsonItem;
pub use wire::WireDoc;
pub use wire::lossy_text;
pub use wire::parsed_doc;
pub use wire::trimmed;

pub use classify::classification_model;
pub use classify::classify_doc;
pub use classify::classify_message;
pub use classify::hosts_of;
pub use classify::lemma_classify_deterministic;
pub use classify::lemma_classify_host_scan;
pub use classify::lemma_classify_network_scan;
pub use classify::lemma_classify_wf;
pub use classify::lemma_error_taxonomy;
pub use classify::lemma_hosts_of_is_filtered;
pub use classify::lemma_ports_of_is_filtered;
pub use classify::ports_of;
pub use classify::spec_classify;
pub use classify::spec_classify_doc;

pub use render::comma_sep;
pub use render::dec_digit;
pub use render::dec_str;
pub use render::quoted;
pub use render::render_error;
pub use render::render_message;
pub use render::spec_render_error;
pub use render::spec_render_hosts;
pub use render::spec_render_message;
pub use render::spec_render_ports;

pub use server::ReadError;
pub use server::ReadEvent;
pub use server::ReadEventModel;
pub use server::lemma_process_empty_read;
pub use server::lemma_process_recovers;
pub use server::lemma_process_resilient;
pub use server::process;
pub use server::process_model;
pub use server::spec_process;
pub use server::spec_status_line;
pub use server::status_line;
