use vstd::prelude::*;
use vstd::string::StringExecFns;

use crate::descriptor::{BackendDescriptor, DescriptorModel};
use crate::simple::{SimpleFetcher, SimpleFlakeFetcher};
use crate::strategy::{ResolutionError, RevisionRequest};

verus! {

/// The hosting-provider backend for GitHub-style repositories. The field
/// holds a caller-chosen self-hosted instance, emitted as the host field
/// and queried in place of the public default.
pub struct FetchFromGitHub(pub Option<String>);

impl FetchFromGitHub {
    /// The host whose API names the latest revision: the caller's
    /// instance, or the public default.
    pub open spec fn spec_host_or_default(&self) -> Seq<char> {
        match self.0 {
            Some(h) => h@,
            None => "github.com"@,
        }
    }
}

impl SimpleFetcher for FetchFromGitHub {
    open spec fn dmodel(&self) -> DescriptorModel {
        DescriptorModel {
            name: "fetchFromGitHub"@,
            host_key: "githubBase"@,
            rev_key: "rev"@,
            hash_key: "hash"@,
            keys: seq!["owner"@, "repo"@],
            submodules_key: None,
            submodules_default: false,
            host: match self.0 {
                Some(h) => Some(h@),
                None => None,
            },
            group: None,
        }
    }

    open spec fn spec_supports_latest(&self) -> bool {
        true
    }

    open spec fn spec_rev_request(&self, vals: Seq<Seq<char>>) -> Seq<char> {
        "https://api."@ + self.spec_host_or_default() + "/repos/"@ + vals[0] + "/"@ + vals[1]
            + "/commits?per_page=1"@
    }

    fn descriptor(&self) -> (d: BackendDescriptor) {
        let mut keys: Vec<String> = Vec::new();
        keys.push(String::from_str("owner"));
        keys.push(String::from_str("repo"));
        let host: Option<String> = match &self.0 {
            Some(h) => Some(h.clone()),
            None => None,
        };
        let d = BackendDescriptor {
            name: String::from_str("fetchFromGitHub"),
            host_key: String::from_str("githubBase"),
            rev_key: String::from_str("rev"),
            hash_key: String::from_str("hash"),
            keys,
            submodules_key: None,
            submodules_default: false,
            host,
            group: None,
        };
        proof {
            assert(d@.keys =~= self.dmodel().keys);
            assert(d@ =~= self.dmodel());
        }
        d
    }

    fn supports_latest(&self) -> (b: bool) {
        true
    }

    fn fetch_rev(&self, values: &Vec<String>) -> (r: Result<RevisionRequest, ResolutionError>) {
        let mut url = String::new();
        url.append("https://api.");
        match &self.0 {
            Some(h) => {
                url.append(h.as_str());
            },
            None => {
                url.append("github.com");
            },
        }
        url.append("/repos/");
        url.append(values[0].as_str());
        url.append("/");
        url.append(values[1].as_str());
        url.append("/commits?per_page=1");
        proof {
            assert(values.deep_view()[0] == values@[0]@);
            assert(values.deep_view()[1] == values@[1]@);
            assert(url@ =~= self.spec_rev_request(values.deep_view()));
        }
        Ok(RevisionRequest { api_url: url })
    }
}

impl SimpleFlakeFetcher for FetchFromGitHub {
    open spec fn spec_flake_ref(&self, vals: Seq<Seq<char>>, rev: Seq<char>, submodules: bool) -> Seq<
        char,
    > {
        match self.0 {
            Some(h) => "github:"@ + vals[0] + "/"@ + vals[1] + "/"@ + rev + "?host="@ + h@,
            None => "github:"@ + vals[0] + "/"@ + vals[1] + "/"@ + rev,
        }
    }

    fn get_flake_ref(&self, values: &Vec<String>, rev: &String, submodules: bool) -> (r: String) {
        let mut out = String::new();
        out.append("github:");
        out.append(values[0].as_str());
        out.append("/");
        out.append(values[1].as_str());
        out.append("/");
        out.append(rev.as_str());
        match &self.0 {
            Some(h) => {
                out.append("?host=");
                out.append(h.as_str());
            },
            None => {},
        }
        proof {
            assert(values.deep_view()[0] == values@[0]@);
            assert(values.deep_view()[1] == values@[1]@);
            assert(out@ =~= self.spec_flake_ref(values.deep_view(), rev@, submodules));
        }
        out
    }
}

} // verus!
