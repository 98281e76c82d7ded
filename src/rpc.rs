use crate::config::Config;
use crate::putio::PutIOTransfer;
use crate::transfer::opt_string_view;
use crate::text::equals_str;
use vstd::prelude::*;
use vstd::string::*;

verus! {

/// The bytes that base64 text decodes to under the standard alphabet with
/// padding; `None` for text that is not valid base64.
pub uninterp spec fn base64_decoded(s: Seq<char>) -> Option<Seq<u8>>;

/// Relies on base64's `general_purpose::STANDARD.decode`: the result depends
/// on the text alone.
#[verifier::external_body]
fn decode_base64(s: &str) -> (r: Option<Vec<u8>>)
    ensures
        match r {
            Some(b) => base64_decoded(s@) == Some(b@),
            None => base64_decoded(s@) is None,
        },
{
    base64::Engine::decode(&base64::engine::general_purpose::STANDARD, s).ok()
}

/// The methods of the download-client protocol that the bridge answers.
#[derive(PartialEq, Eq, Structural, Clone, Copy, Debug)]
pub enum RpcMethod {
    SessionGet,
    TorrentGet,
    TorrentSet,
    QueueMoveTop,
    TorrentRemove,
    TorrentAdd,
}

/// The method a request names, if the bridge knows it.
pub open spec fn method_of(name: Seq<char>) -> Option<RpcMethod> {
    if name == "session-get"@ {
        Some(RpcMethod::SessionGet)
    } else if name == "torrent-get"@ {
        Some(RpcMethod::TorrentGet)
    } else if name == "torrent-set"@ {
        Some(RpcMethod::TorrentSet)
    } else if name == "queue-move-top"@ {
        Some(RpcMethod::QueueMoveTop)
    } else if name == "torrent-remove"@ {
        Some(RpcMethod::TorrentRemove)
    } else if name == "torrent-add"@ {
        Some(RpcMethod::TorrentAdd)
    } else {
        None
    }
}

impl RpcMethod {
    /// Reads a method name.
    pub fn from_name(name: &String) -> (r: Option<RpcMethod>)
        ensures
            r == method_of(name@),
    {
        if equals_str(name, "session-get") {
            Some(RpcMethod::SessionGet)
        } else if equals_str(name, "torrent-get") {
            Some(RpcMethod::TorrentGet)
        } else if equals_str(name, "torrent-set") {
            Some(RpcMethod::TorrentSet)
        } else if equals_str(name, "queue-move-top") {
            Some(RpcMethod::QueueMoveTop)
        } else if equals_str(name, "torrent-remove") {
            Some(RpcMethod::TorrentRemove)
        } else if equals_str(name, "torrent-add") {
            Some(RpcMethod::TorrentAdd)
        } else {
            None
        }
    }
}

/// Whether basic-auth credentials match the configured ones; a request
/// without a password never does.
pub fn validate_user(config: &Config, username: &String, password: &Option<String>) -> (r: bool)
    ensures
        r == (username@ == config.username@ && opt_string_view(*password) == Some(config.password@)),
{
    match password {
        Some(p) => *username == config.username && *p == config.password,
        None => false,
    }
}

/// One removal that a remove command asks of the remote service.
#[derive(PartialEq, Eq, Structural, Clone, Copy, Debug)]
pub struct RemovalRequest {
    pub transfer_id: u64,
    /// The remote files to delete as well, if any.
    pub delete_file: Option<u64>,
}

/// The hash a remove command matches a transfer by.
pub open spec fn hash_key(t: PutIOTransfer) -> Seq<char> {
    match t.hash {
        Some(h) => h@,
        None => "no_hash"@,
    }
}

/// The removal for a transfer that a remove command names: its remote files
/// go too when they exist and local data is to be deleted.
pub open spec fn removal_of(t: PutIOTransfer, delete_local_data: bool) -> RemovalRequest {
    RemovalRequest {
        transfer_id: t.id,
        delete_file: if t.userfile_exists && delete_local_data {
            t.file_id
        } else {
            None
        },
    }
}

/// The removals for the first `n` transfers of `listing` whose hash is one of `ids`.
pub open spec fn removals(
    listing: Seq<PutIOTransfer>,
    ids: Seq<Seq<char>>,
    delete_local_data: bool,
    n: int,
) -> Seq<RemovalRequest>
    decreases n,
{
    if n <= 0 || n > listing.len() {
        Seq::empty()
    } else {
        let prev = removals(listing, ids, delete_local_data, n - 1);
        if ids.contains(hash_key(listing[n - 1])) {
            prev.push(removal_of(listing[n - 1], delete_local_data))
        } else {
            prev
        }
    }
}

fn contains_string(v: &Vec<String>, s: &String) -> (r: bool)
    ensures
        r == v@.map_values(|x: String| x@).contains(s@),
{
    let mut i: usize = 0;
    while i < v.len()
        invariant
            i <= v.len(),
            forall|k: int| 0 <= k < i ==> v@[k]@ != s@,
        decreases v.len() - i,
    {
        if v[i] == *s {
            assert(v@.map_values(|x: String| x@)[i as int] == s@);
            return true;
        }
        i = i + 1;
    }
    assert(!v@.map_values(|x: String| x@).contains(s@));
    false
}

/// The removals that a remove command over the hashes `ids` asks for, in the
/// order of the listing.
pub fn transfers_to_remove(listing: &Vec<PutIOTransfer>, ids: &Vec<String>, delete_local_data: bool) -> (r:
    Vec<RemovalRequest>)
    ensures
        r@ == removals(listing@, ids@.map_values(|x: String| x@), delete_local_data, listing@.len() as int),
{
    let mut r: Vec<RemovalRequest> = Vec::new();
    let mut i: usize = 0;
    while i < listing.len()
        invariant
            i <= listing.len(),
            r@ == removals(listing@, ids@.map_values(|x: String| x@), delete_local_data, i as int),
        decreases listing.len() - i,
    {
        let t = &listing[i];
        let key = match &t.hash {
            Some(h) => h.clone(),
            None => String::from_str("no_hash"),
        };
        if contains_string(ids, &key) {
            let delete_file = if t.userfile_exists && delete_local_data {
                t.file_id
            } else {
                None
            };
            r.push(RemovalRequest { transfer_id: t.id, delete_file });
        }
        i = i + 1;
    }
    r
}

/// What an add command asks the remote service to do.
#[derive(Debug)]
pub enum AddRequest {
    /// Upload these torrent file bytes.
    UploadTorrent(Vec<u8>),
    /// Add a transfer from this magnet link or URL.
    AddTransfer(String),
}

/// Why an add command cannot be carried out.
#[derive(PartialEq, Eq, Structural, Clone, Copy, Debug)]
pub enum AddError {
    /// The torrent file is not valid base64.
    InvalidMetainfo,
    /// Neither a torrent file nor a link was given.
    MissingFilename,
}

/// Reads an add command: a base64 torrent file in `metainfo` takes precedence
/// over a link in `filename`.
pub fn add_request(metainfo: &Option<String>, filename: &Option<String>) -> (r: Result<AddRequest, AddError>)
    ensures
        metainfo is Some ==> match base64_decoded(metainfo->0@) {
            Some(b) => r is Ok && r->Ok_0 is UploadTorrent && r->Ok_0->UploadTorrent_0@ == b,
            None => r == Err::<AddRequest, AddError>(AddError::InvalidMetainfo),
        },
        metainfo is None && filename is Some ==> r is Ok && r->Ok_0 is AddTransfer
            && r->Ok_0->AddTransfer_0@ == filename->0@,
        metainfo is None && filename is None ==> r == Err::<AddRequest, AddError>(AddError::MissingFilename),
{
    match metainfo {
        Some(m) => match decode_base64(m.as_str()) {
            Some(bytes) => Ok(AddRequest::UploadTorrent(bytes)),
            None => Err(AddError::InvalidMetainfo),
        },
        None => match filename {
            Some(f) => Ok(AddRequest::AddTransfer(f.clone())),
            None => Err(AddError::MissingFilename),
        },
    }
}

} // verus!
