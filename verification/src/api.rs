//! Data model of the remote platform: jobs, assets, datasets and account
//! information, as snapshots exchanged with the remote collaborator.

use vstd::prelude::*;

verus! {

/// A remote compute job, as last fetched; replaced wholesale on refresh.
#[derive(Debug, Clone)]
pub struct Job {
    pub id: i32,
    pub job_id: String,
    pub name: String,
    pub status: String,
    pub num_scenes: i32,
    pub progress: Option<i32>,
    pub created_at: String,
    pub completed_at: Option<String>,
}

impl Job {
    /// A field-by-field copy of the snapshot.
    pub fn duplicate(&self) -> (r: Job)
        ensures
            r == *self,
    {
        Job {
            id: self.id,
            job_id: self.job_id.clone(),
            name: self.name.clone(),
            status: self.status.clone(),
            num_scenes: self.num_scenes,
            progress: self.progress,
            created_at: self.created_at.clone(),
            completed_at: match &self.completed_at {
                Some(s) => Some(s.clone()),
                None => None,
            },
        }
    }
}

/// A page of jobs as the remote service lists them.
#[derive(Debug)]
pub struct JobListResponse {
    pub jobs: Vec<Job>,
    pub total: i32,
}

/// The request that creates a job.
#[derive(Debug, Clone)]
pub struct CreateJobRequest {
    pub name: String,
    pub num_scenes: i32,
    pub config_yaml: Option<String>,
}

/// An uploaded asset, as last fetched; replaced wholesale on refresh.
#[derive(Debug, Clone)]
pub struct Asset {
    pub id: i32,
    pub asset_id: String,
    pub name: String,
    pub file_type: String,
    pub size_bytes: i64,
    pub thumbnail_url: Option<String>,
    pub created_at: String,
}

impl Asset {
    /// A field-by-field copy of the snapshot.
    pub fn duplicate(&self) -> (r: Asset)
        ensures
            r == *self,
    {
        Asset {
            id: self.id,
            asset_id: self.asset_id.clone(),
            name: self.name.clone(),
            file_type: self.file_type.clone(),
            size_bytes: self.size_bytes,
            thumbnail_url: match &self.thumbnail_url {
                Some(s) => Some(s.clone()),
                None => None,
            },
            created_at: self.created_at.clone(),
        }
    }
}

/// A page of assets as the remote service lists them.
#[derive(Debug)]
pub struct AssetListResponse {
    pub assets: Vec<Asset>,
    pub total: i32,
}

/// The descriptive fields sent along with an asset upload.
#[derive(Debug, Clone)]
pub struct AssetUploadMetadata {
    pub name: String,
    pub category: Option<String>,
    pub tags: Vec<String>,
}

/// A generated dataset attached to a job.
#[derive(Debug, Clone)]
pub struct Dataset {
    pub id: i32,
    pub job_id: String,
    pub name: String,
    pub size_bytes: i64,
    pub format: String,
    pub created_at: String,
}

/// A page of datasets as the remote service lists them.
#[derive(Debug)]
pub struct DatasetListResponse {
    pub datasets: Vec<Dataset>,
    pub total: i32,
}

/// A time-limited link for downloading a dataset.
#[derive(Debug, Clone)]
pub struct DownloadUrlResponse {
    pub download_url: String,
    pub expires_at: String,
    pub size_bytes: i64,
    pub format: String,
}

/// Credentials presented to the login endpoint.
#[derive(Debug, Clone)]
pub struct LoginRequest {
    pub email: String,
    pub password: String,
}

/// The token handed back by a successful login.
#[derive(Debug, Clone)]
pub struct LoginResponse {
    pub access_token: String,
}

/// The account the current credential belongs to.
#[derive(Debug, Clone)]
pub struct UserInfo {
    pub id: i32,
    pub email: String,
    pub organization_id: Option<i32>,
    pub organization_name: Option<String>,
    pub role: Option<String>,
}

} // verus!
