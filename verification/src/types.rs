//! The remote search API's response envelope, modelled as plain values, and
//! the validation step that turns an envelope into search results.

use vstd::prelude::*;

verus! {

/// One entry of the remote search payload: a video id and its title.
pub struct VideoInfo {
    pub aid: u64,
    pub title: String,
}

/// The list wrapper inside the search payload.
pub struct SpaceList {
    pub vlist: Vec<VideoInfo>,
}

/// The payload of a successful search response.
pub struct SpaceResponse {
    pub list: SpaceList,
}

/// The response envelope: `code == 0` signifies success; any other value is a
/// remote failure carrying `message`.
pub struct Response {
    pub code: i64,
    pub message: String,
    pub data: SpaceResponse,
}

/// A per-channel search failure.
#[derive(Debug)]
pub enum FetchError {
    /// The remote API answered with a non-zero status code.
    RemoteRejected { code: i64, message: String },
    /// The network layer failed even after the bounded retries.
    Connectivity,
}

/// A failure to obtain the signing key.
#[derive(Debug)]
pub enum DerivationError {
    /// The remote key pair could not be retrieved or read.
    Fetch,
}

/// A failure to construct the HTTP client: its warm-up request did not succeed.
pub struct ConnectivityError;

/// Validates a response envelope and extracts its `(aid, title)` pairs in
/// payload order; a non-zero code is reported as `RemoteRejected` with that
/// code and the remote message, never as a success.
pub fn extract_videos(resp: Response) -> (r: Result<Vec<(u64, String)>, FetchError>)
    ensures
        resp.code == 0 <==> r is Ok,
        r matches Ok(videos) ==> {
            &&& videos@.len() == resp.data.list.vlist@.len()
            &&& forall|k: int|
                0 <= k < videos@.len() ==> (#[trigger] videos@[k]).0 == resp.data.list.vlist@[k].aid
                    && videos@[k].1 == resp.data.list.vlist@[k].title
        },
        r matches Err(e) ==> (e matches FetchError::RemoteRejected { code, message }
            && code == resp.code && message == resp.message),
{
    if resp.code != 0 {
        return Err(FetchError::RemoteRejected { code: resp.code, message: resp.message });
    }
    let v = &resp.data.list.vlist;
    let mut out: Vec<(u64, String)> = Vec::new();
    let mut i: usize = 0;
    while i < v.len()
        invariant
            i <= v@.len(),
            out@.len() == i,
            forall|k: int|
                0 <= k < i ==> (#[trigger] out@[k]).0 == v@[k].aid && out@[k].1 == v@[k].title,
        decreases v@.len() - i,
    {
        let pair = (v[i].aid, v[i].title.clone());
        out.push(pair);
        i += 1;
    }
    Ok(out)
}

} // verus!
