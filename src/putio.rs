use vstd::prelude::*;
use vstd::string::*;

verus! {

/// Account details of the remote service's user.
#[derive(Debug)]
pub struct PutIOAccountInfo {
    pub username: String,
    pub mail: String,
    pub account_active: bool,
}

#[derive(Debug)]
pub struct PutIOAccountResponse {
    pub info: PutIOAccountInfo,
}

/// One transfer as the remote service lists it.
#[derive(Debug)]
pub struct PutIOTransfer {
    pub id: u64,
    pub hash: Option<String>,
    pub name: Option<String>,
    pub size: Option<i64>,
    pub downloaded: Option<i64>,
    pub finished_at: Option<String>,
    pub estimated_time: Option<u64>,
    pub status: String,
    pub started_at: Option<String>,
    pub error_message: Option<String>,
    pub file_id: Option<u64>,
    pub percent_done: Option<u16>,
    pub userfile_exists: bool,
}

impl PutIOTransfer {
    /// A transfer is downloadable once the service has materialised its file tree.
    pub fn is_downloadable(&self) -> (r: bool)
        ensures
            r == self.file_id.is_some(),
    {
        self.file_id.is_some()
    }
}

#[derive(Debug)]
pub struct AccountInfoResponse {
    pub info: Info,
}

#[derive(Debug)]
pub struct Info {
    pub user_id: u32,
    pub username: String,
    pub mail: String,
    pub monthly_bandwidth_usage: u64,
}

#[derive(Debug)]
pub struct ListTransferResponse {
    pub transfers: Vec<PutIOTransfer>,
}

#[derive(Debug)]
pub struct GetTransferResponse {
    pub transfer: PutIOTransfer,
}

#[derive(Debug)]
pub struct UrlResponse {
    pub url: String,
}

/// A folder listing: the listed node itself and its children.
#[derive(Debug)]
pub struct ListFileResponse {
    pub files: Vec<FileResponse>,
    pub parent: FileResponse,
}

#[derive(Debug)]
pub struct FileResponse {
    pub content_type: String,
    pub id: u64,
    pub name: String,
    pub file_type: String,
}

#[derive(Debug)]
pub struct URLResponse {
    pub url: String,
}

/// A transfer keeps seeding while the service reports this status.
pub open spec fn is_seeding_status(status: Seq<char>) -> bool {
    status == "SEEDING"@
}

/// Whether a transfer with this status has stopped seeding, after which it
/// and its remote files are removed.
pub fn seeding_finished(status: &String) -> (r: bool)
    ensures
        r == !is_seeding_status(status@),
{
    !(*status == String::from_str("SEEDING"))
}

} // verus!
