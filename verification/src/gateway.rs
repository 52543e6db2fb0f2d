//! The gateway: from the path of a request to the response for it.

use vstd::prelude::*;
use vstd::string::*;
use crate::bundle::AssetBundle;
use crate::content_type::{resolve, spec_resolve};
use crate::path_resolver::{normalize, spec_normalize};
use crate::response::{build_found, build_not_found, spec_found, spec_not_found, Response, ResponseView};

verus! {

/// What the host asks for. Of the address it was given, only the path counts
/// here: query, fragment and headers are not looked at.
#[derive(Clone, Debug, PartialEq, Eq)]
pub struct Request {
    pub path: String,
}

/// The response for `raw_path` over the bundle `assets`: the asset under the
/// path's key, with the media type of that key, or the not-found response.
pub open spec fn spec_handle(assets: Map<Seq<char>, Seq<u8>>, raw_path: Seq<char>) -> ResponseView {
    let key = spec_normalize(raw_path);
    if assets.contains_key(key) {
        spec_found(assets[key], spec_resolve(key))
    } else {
        spec_not_found()
    }
}

/// Serves the assets of one bundle. It keeps nothing between calls and never
/// changes the bundle, so one gateway can answer any number of requests, in
/// any order, from any number of callers.
#[derive(Debug)]
pub struct AssetGateway {
    bundle: AssetBundle,
}

impl View for AssetGateway {
    type V = Map<Seq<char>, Seq<u8>>;

    closed spec fn view(&self) -> Map<Seq<char>, Seq<u8>> {
        self.bundle@
    }
}

impl AssetGateway {
    /// A gateway over `bundle`.
    pub fn new(bundle: AssetBundle) -> (gateway: AssetGateway)
        ensures
            gateway@ == bundle@,
    {
        AssetGateway { bundle }
    }

    /// The bundle that this gateway serves.
    pub fn bundle(&self) -> (bundle: &AssetBundle)
        ensures
            bundle@ == self@,
    {
        &self.bundle
    }

    /// Answers the request for `raw_path`: status 200 with the asset's bytes
    /// where the bundle holds the path's key, status 404 where it does not.
    /// There is no other outcome.
    pub fn handle(&self, raw_path: &str) -> (response: Response)
        ensures
            response@ == spec_handle(self@, raw_path@),
    {
        let key: String = normalize(raw_path);
        match self.bundle.get(key.as_str()) {
            Some(content) => {
                let mime: String = resolve(key.as_str());
                build_found(content, mime.as_str())
            },
            None => build_not_found(),
        }
    }

    /// Answers `request`, by its path.
    pub fn serve(&self, request: &Request) -> (response: Response)
        ensures
            response@ == spec_handle(self@, request.path@),
    {
        self.handle(request.path.as_str())
    }
}

} // verus!
