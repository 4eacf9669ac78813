//! Session engine for a terminal dashboard that monitors and manages remote
//! compute jobs and uploaded assets.
//!
//! The crate holds the verified core: the fuzzy search and ranking subsystem,
//! the search box, the job-creation wizard, the session state machine with its
//! view ring and selection cursors, and the configuration model. Network and
//! terminal I/O live outside the library and talk to it through plain values.

use vstd::prelude::*;

mod api;
mod app;
mod config;
mod error;
mod numbers;
mod procedural;
mod rank;
mod search;
mod text;
mod wizard;

pub use api::Asset;
pub use api::AssetListResponse;
pub use api::AssetUploadMetadata;
pub use api::CreateJobRequest;
pub use api::Dataset;
pub use api::DatasetListResponse;
pub use api::DownloadUrlResponse;
pub use api::Job;
pub use api::JobListResponse;
pub use api::LoginRequest;
pub use api::LoginResponse;
pub use api::UserInfo;

pub use app::Action;
pub use app::App;
pub use app::AppState;
pub use app::KeyInput;
pub use app::asset_keep;
pub use app::asset_score_fn;
pub use app::assets_filtered;
pub use app::cancel_create_rel;
pub use app::clamped_index;
pub use app::clear_search_rel;
pub use app::count_with_status;
pub use app::down_index;
pub use app::filtered_assets_spec;
pub use app::filtered_jobs_spec;
pub use app::in_search_mode;
pub use app::in_status_mode;
pub use app::in_wizard_mode;
pub use app::lemma_empty_list_moves_are_noops;
pub use app::lemma_filtered_assets_le;
pub use app::lemma_filtered_jobs_le;
pub use app::selections_in_bounds;
pub use app::job_keep;
pub use app::job_score_fn;
pub use app::jobs_filtered;
pub use app::lemma_view_ring;
pub use app::on_down_rel;
pub use app::on_up_rel;
pub use app::start_create_rel;
pub use app::toggle_help_rel;
pub use app::toggle_search_rel;
pub use app::up_index;
pub use app::view_after;
pub use app::view_before;

pub use config::ApiConfig;
pub use config::AuthConfig;
pub use config::Config;
pub use config::config_file_in_dir;
pub use config::default_api_endpoint;

pub use error::CliError;

pub use numbers::all_digits;
pub use numbers::dec_digits;
pub use numbers::digits_val;
pub use numbers::i32_dec;
pub use numbers::i32_to_string;
pub use numbers::parse_i32;
pub use numbers::parse_i32_spec;

pub use procedural::generate_procedural_config;
pub use procedural::procedural_config_spec;

pub use rank::insert_ranked;
pub use rank::lemma_rank_sorted_multiset;
pub use rank::lemma_rank_sorted_sorted;
pub use rank::rank_sorted;
pub use rank::sorted_desc_by;

pub use search::SearchBox;
pub use search::lemma_score_tiers;
pub use search::lemma_substring_implies_subsequence;
pub use search::matches_spec;
pub use search::score_spec;
pub use search::search_backspace_rel;
pub use search::search_char_rel;
pub use search::tier_score;

pub use text::is_embedding;
pub use text::is_subsequence_of;
pub use text::is_substring_of;
pub use text::lemma_subsequence_is_embedding;
pub use text::lower_of;

pub use wizard::JobWizard;
pub use wizard::WizardStep;
pub use wizard::buffer_at;
pub use wizard::clamped_cursor;
pub use wizard::lemma_step_clamping;
pub use wizard::step_after;
pub use wizard::step_before;
pub use wizard::wizard_backspace_rel;
pub use wizard::wizard_char_rel;
pub use wizard::wizard_initial;
pub use wizard::wizard_next_rel;
pub use wizard::wizard_prev_rel;
pub use wizard::wizard_valid_spec;

verus! {

} // verus!
